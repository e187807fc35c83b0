use std::rc::Rc;

use vast::common::{Binop, BuildError, EventTy, Expr, RedOp};
use vast::common::width_to_pretty;
use vast::v05::{Decl, Instance, Module, Parallel, Port, Sequential, Stmt, Ty};

#[test]
fn test_unop_lognot() {
    assert_eq!("!".to_string(), RedOp::LogNot.to_pretty());
}

#[test]
fn test_expr_binop_add_two_ref() {
    assert_eq!(
        "a + b".to_string(),
        Expr::Binop(
            Binop::Add,
            Rc::new(Expr::Ref("a".to_string())),
            Rc::new(Expr::Ref("b".to_string()))
        )
        .to_pretty()
    );
}

#[test]
fn test_red_op_tokens() {
    assert_eq!("!", RedOp::LogNot.to_pretty());
    assert_eq!("~", RedOp::Not.to_pretty());
    assert_eq!("&", RedOp::And.to_pretty());
    assert_eq!("~&", RedOp::Nand.to_pretty());
    assert_eq!("|", RedOp::Or.to_pretty());
    assert_eq!("~|", RedOp::Nor.to_pretty());
    assert_eq!("^", RedOp::Xor.to_pretty());
    assert_eq!("~^", RedOp::Xnor.to_pretty());
}

#[test]
fn test_binop_token() {
    assert_eq!("+", Binop::Add.to_pretty());
}

#[test]
fn test_event_ty_tokens() {
    assert_eq!("posedge", EventTy::Posedge.to_pretty());
    assert_eq!("negedge", EventTy::Negedge.to_pretty());
}

#[test]
fn test_width_one_renders_empty() {
    assert_eq!(Ok(String::new()), width_to_pretty(1));
}

#[test]
fn test_width_five_renders_range() {
    assert_eq!(Ok("[4:0]".to_string()), width_to_pretty(5));
}

#[test]
fn test_width_zero_is_invalid() {
    assert_eq!(Err(BuildError::InvalidWidth), width_to_pretty(0));
}

#[test]
fn test_width_two_digits() {
    assert_eq!(Ok("[10:0]".to_string()), width_to_pretty(11));
}

#[test]
fn test_width_largest() {
    assert_eq!(
        Ok("[18446744073709551614:0]".to_string()),
        width_to_pretty(u64::MAX)
    );
}

#[test]
fn test_new_width_zero_is_invalid() {
    assert!(matches!(Ty::new_width(0), Err(BuildError::InvalidWidth)));
    assert!(Ty::new_width(1).is_ok());
}

#[test]
fn test_ty_int_renders_keyword() {
    assert_eq!("int", Ty::new_int().to_pretty());
}

#[test]
fn test_ty_width_query() {
    assert_eq!(Ok(8), Ty::new_width(8).unwrap().width());
    assert_eq!(Err(BuildError::TypeMismatch), Ty::new_int().width());
}

#[test]
fn test_unop_renders_without_space() {
    let e = Expr::Unop(RedOp::Not, Rc::new(Expr::Ref("a".to_string())));
    assert_eq!("~a", e.to_pretty());
}

#[test]
fn test_ulit_dec_renders() {
    assert_eq!("32'd8", Expr::new_ulit_dec(32, "8").to_pretty());
}

#[test]
fn test_str_renders_quoted() {
    assert_eq!("\"top\"", Expr::new_str("top").to_pretty());
}

#[test]
fn test_shared_subexpression_renders_twice() {
    let a = Rc::new(Expr::Ref("a".to_string()));
    let e = Expr::Binop(Binop::Add, Rc::clone(&a), Rc::clone(&a));
    assert_eq!("a + a", e.to_pretty());
    // the shared node is untouched: it still renders alone as before
    assert_eq!("a", a.to_pretty());
    assert_eq!("a + a", e.to_pretty());
}

#[test]
fn test_decl_int_renders() {
    assert_eq!("int x", Decl::new_int("x").to_pretty());
}

#[test]
fn test_decl_wire_renders_range() {
    assert_eq!("wire [3:0] x", Decl::new_wire("x", 4).unwrap().to_pretty());
}

#[test]
fn test_decl_wire_scalar_has_no_range() {
    assert_eq!("wire x", Decl::new_wire("x", 1).unwrap().to_pretty());
}

#[test]
fn test_decl_reg_renders() {
    assert_eq!("reg [7:0] r0", Decl::new_reg("r0", 8).unwrap().to_pretty());
    assert_eq!("reg r1", Decl::new_reg("r1", 1).unwrap().to_pretty());
}

#[test]
fn test_decl_wire_zero_width_is_invalid() {
    assert!(matches!(
        Decl::new_wire("x", 0),
        Err(BuildError::InvalidWidth)
    ));
    assert!(matches!(
        Decl::new_reg("x", 0),
        Err(BuildError::InvalidWidth)
    ));
}

#[test]
fn test_decl_param_uint_renders() {
    assert_eq!(
        "parameter N = 32'd8",
        Decl::new_param_uint("N", 8).to_pretty()
    );
}

#[test]
fn test_decl_param_str_renders() {
    assert_eq!(
        "parameter NAME = \"top\"",
        Decl::new_param_str("NAME", "top").to_pretty()
    );
}

#[test]
fn test_port_renders_direction() {
    assert_eq!(
        "input wire [7:0] a",
        Port::new_input("a", 8).unwrap().to_pretty()
    );
    assert_eq!(
        "output wire y",
        Port::new_output("y", 1).unwrap().to_pretty()
    );
    assert_eq!(
        "output reg [1:0] q",
        Port::new_output_reg("q", 2).unwrap().to_pretty()
    );
}

#[test]
fn test_port_zero_width_is_invalid() {
    assert!(matches!(
        Port::new_input("a", 0),
        Err(BuildError::InvalidWidth)
    ));
}

#[test]
fn test_sequential_renders() {
    assert_eq!("*", Sequential::Wildcard.to_pretty());
    let ev = Sequential::Event(EventTy::Posedge, Expr::Ref("clk".to_string()));
    assert_eq!("posedge clk", ev.to_pretty());
    let cond = Sequential::If(Expr::Ref("rst".to_string()), Vec::new(), Vec::new());
    assert_eq!("if (rst)", cond.to_pretty());
}

#[test]
fn test_parallel_keywords() {
    assert_eq!("assign", Parallel::Assign.to_pretty());
    assert_eq!("always", Parallel::Always.to_pretty());
}

#[test]
fn test_parallel_id() {
    let inst = Parallel::new_inst(Instance::new("i0", "adder"));
    assert_eq!(Ok("i0".to_string()), inst.id());
    let pa = Parallel::ParAssign(
        Expr::Ref("y".to_string()),
        Expr::Ref("a".to_string()),
    );
    assert_eq!(Ok("y".to_string()), pa.id());
    assert_eq!(Err(BuildError::MissingIdentifier), Parallel::Assign.id());
    assert_eq!(Err(BuildError::MissingIdentifier), Parallel::Always.id());
}

#[test]
fn test_par_assign_renders() {
    let pa = Parallel::ParAssign(
        Expr::Ref("y".to_string()),
        Expr::Binop(
            Binop::Add,
            Rc::new(Expr::Ref("a".to_string())),
            Rc::new(Expr::Ref("b".to_string())),
        ),
    );
    assert_eq!("y = a + b", pa.to_pretty());
}

#[test]
fn test_empty_module_renders() {
    let m = Module::new_with_name("foo");
    assert_eq!("module foo ();\nendmodule", m.to_pretty());
}

#[test]
fn test_module_with_wire_decl() {
    let mut m = Module::new("foo");
    m.add_stmt(Stmt::new_decl(Decl::new_wire("x", 4).unwrap()));
    assert_eq!("module foo ();\n  wire [3:0] x;\nendmodule", m.to_pretty());
}

#[test]
fn test_module_body_order_is_kept() {
    let mut m = Module::new("top");
    m.add_stmt(Stmt::new_decl(Decl::new_wire("a", 1).unwrap()));
    m.add_stmt(Stmt::new_decl(Decl::new_reg("b", 2).unwrap()));
    m.add_stmt(Stmt::new_parallel(Parallel::Assign));
    assert_eq!(
        "module top ();\n  wire a;\n  reg [1:0] b;\n  assign;\nendmodule",
        m.to_pretty()
    );
}

#[test]
fn test_module_instance_renders() {
    let mut m = Module::new("top");
    m.add_instance(Instance::new("i0", "adder"));
    assert_eq!("module top ();\n  adder i0 ();\nendmodule", m.to_pretty());
}

#[test]
fn test_rendering_is_deterministic() {
    let mut m = Module::new("foo");
    m.add_stmt(Stmt::new_decl(Decl::new_wire("x", 4).unwrap()));
    let first = m.to_pretty();
    let second = m.to_pretty();
    assert_eq!(first, second);
    assert_eq!(first.as_bytes(), second.as_bytes());
}

#[test]
fn test_module_accessors() {
    let mut m = Module::new("top");
    assert_eq!("top".to_string(), m.name());
    m.add_param_uint("N", 3);
    m.add_param_str("KIND", "fast");
    assert!(m.add_input("a", 8).is_ok());
    assert!(m.add_output("y", 8).is_ok());
    assert!(m.add_output_reg("q", 1).is_ok());
    m.add_port(Port::new_input("b", 2).unwrap());
    m.add_stmt(Stmt::new_parallel(Parallel::Always));
    assert_eq!(2, m.params().len());
    assert_eq!(4, m.ports().len());
    assert_eq!(1, m.body().len());
    assert_eq!("parameter N = 32'd3", m.params()[0].to_pretty());
    assert_eq!("input wire [1:0] b", m.ports()[3].to_pretty());
}

#[test]
fn test_add_input_zero_width_leaves_module_unchanged() {
    let mut m = Module::new("top");
    assert_eq!(Err(BuildError::InvalidWidth), m.add_input("a", 0));
    assert_eq!(Err(BuildError::InvalidWidth), m.add_output("y", 0));
    assert_eq!(Err(BuildError::InvalidWidth), m.add_output_reg("q", 0));
    assert_eq!(0, m.ports().len());
    assert_eq!("module top ();\nendmodule", m.to_pretty());
}
