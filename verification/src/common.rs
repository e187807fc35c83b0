//! Shared primitives: identifiers, bit widths, operators, and the
//! expression tree, together with the exact text each of them renders to.

use vstd::prelude::*;
use std::rc::Rc;
use crate::layout::{
    d_append, d_nil, d_space, d_text, d_render, doc_closed, doc_flat, doc_lines, lines_append,
    line_free,
};

verus! {

pub type Id = String;

pub type Width = u64;

/// The failure conditions of this library: a zero bit width, a width query
/// on a type that carries none, and an identifier query on a statement that
/// drives none.
#[derive(Clone, Copy, Debug, PartialEq, Eq, Structural)]
pub enum BuildError {
    InvalidWidth,
    TypeMismatch,
    MissingIdentifier,
}

// Reduce ops
#[derive(Clone, Copy, Debug)]
pub enum RedOp {
    LogNot,
    Not,
    And,
    Nand,
    Or,
    Nor,
    Xor,
    Xnor,
}

#[derive(Clone, Copy, Debug)]
pub enum Binop {
    Add,
}

#[derive(Clone, Copy, Debug)]
pub enum EventTy {
    Posedge,
    Negedge,
}

#[derive(Clone, Debug)]
pub enum Expr {
    Ref(Id),
    Unop(RedOp, Rc<Expr>),
    Binop(Binop, Rc<Expr>, Rc<Expr>),
    ULitDec(u32, Id),
    Str(Id),
}

/// The fixed token of each reduction operator.
pub open spec fn red_op_text(op: RedOp) -> Seq<char> {
    match op {
        RedOp::LogNot => "!"@,
        RedOp::Not => "~"@,
        RedOp::And => "&"@,
        RedOp::Nand => "~&"@,
        RedOp::Or => "|"@,
        RedOp::Nor => "~|"@,
        RedOp::Xor => "^"@,
        RedOp::Xnor => "~^"@,
    }
}

/// The fixed token of each binary operator.
pub open spec fn binop_text(op: Binop) -> Seq<char> {
    match op {
        Binop::Add => "+"@,
    }
}

/// The fixed token of each sensitivity-event edge.
pub open spec fn event_ty_text(ty: EventTy) -> Seq<char> {
    match ty {
        EventTy::Posedge => "posedge"@,
        EventTy::Negedge => "negedge"@,
    }
}

/// The decimal numeral of `n`, most significant digit first.
pub open spec fn dec_text(n: nat) -> Seq<char>
    decreases n,
{
    if n < 10 {
        digit_text(n)
    } else {
        dec_text(n / 10) + digit_text(n % 10)
    }
}

/// The single decimal digit of `n < 10`.
pub open spec fn digit_text(n: nat) -> Seq<char> {
    if n == 0 {
        "0"@
    } else if n == 1 {
        "1"@
    } else if n == 2 {
        "2"@
    } else if n == 3 {
        "3"@
    } else if n == 4 {
        "4"@
    } else if n == 5 {
        "5"@
    } else if n == 6 {
        "6"@
    } else if n == 7 {
        "7"@
    } else if n == 8 {
        "8"@
    } else {
        "9"@
    }
}

/// The range text of a bit width: nothing for a scalar, `[n-1:0]` otherwise.
pub open spec fn width_text(w: Width) -> Seq<char>
    recommends
        w >= 1,
{
    if w == 1 {
        Seq::empty()
    } else {
        "["@ + dec_text((w - 1) as nat) + ":"@ + "0"@ + "]"@
    }
}

/// An identifier (or other verbatim text) that stays on one layout line.
pub open spec fn id_wf(s: Seq<char>) -> bool {
    line_free(s)
}

/// Every verbatim piece of the expression stays on one layout line.
pub open spec fn expr_wf(e: Expr) -> bool
    decreases e,
{
    match e {
        Expr::Ref(name) => id_wf(name@),
        Expr::Unop(_, input) => expr_wf(*input),
        Expr::Binop(_, lhs, rhs) => expr_wf(*lhs) && expr_wf(*rhs),
        Expr::ULitDec(_, value) => id_wf(value@),
        Expr::Str(value) => id_wf(value@),
    }
}

/// The rendered text of an expression: a reference is its identifier, a
/// unary operation is the token directly followed by its operand, a binary
/// operation is its operands around the token with single spaces, an
/// unsigned decimal literal is `<width>'d<value>`, and a string literal is
/// quoted verbatim. No parentheses are emitted for nested operations.
pub open spec fn expr_text(e: Expr) -> Seq<char>
    decreases e,
{
    match e {
        Expr::Ref(name) => name@,
        Expr::Unop(op, input) => red_op_text(op) + expr_text(*input),
        Expr::Binop(op, lhs, rhs) => expr_text(*lhs) + " "@ + binop_text(op) + " "@ + expr_text(
            *rhs,
        ),
        Expr::ULitDec(width, value) => dec_text(width as nat) + "'d"@ + value@,
        Expr::Str(value) => "\""@ + value@ + "\""@,
    }
}

/// Every fixed token this library emits stays on one layout line.
pub proof fn lemma_fixed_tokens_line_free()
    ensures
        line_free("!"@),
        line_free("~"@),
        line_free("&"@),
        line_free("~&"@),
        line_free("|"@),
        line_free("~|"@),
        line_free("^"@),
        line_free("~^"@),
        line_free("+"@),
        line_free("posedge"@),
        line_free("negedge"@),
        line_free("["@),
        line_free(":"@),
        line_free("0"@),
        line_free("1"@),
        line_free("2"@),
        line_free("3"@),
        line_free("4"@),
        line_free("5"@),
        line_free("6"@),
        line_free("7"@),
        line_free("8"@),
        line_free("9"@),
        line_free("]"@),
        line_free("'d"@),
        line_free("\""@),
        line_free("int"@),
        line_free("wire"@),
        line_free("reg"@),
        line_free("parameter"@),
        line_free(" = "@),
        line_free("*"@),
        line_free("if"@),
        line_free("("@),
        line_free(")"@),
        line_free(" ()"@),
        line_free("input"@),
        line_free("output"@),
        line_free("assign"@),
        line_free("always"@),
        line_free("module"@),
        line_free(";"@),
        line_free("endmodule"@),
{
    reveal_strlit("!");
    reveal_strlit("~");
    reveal_strlit("&");
    reveal_strlit("~&");
    reveal_strlit("|");
    reveal_strlit("~|");
    reveal_strlit("^");
    reveal_strlit("~^");
    reveal_strlit("+");
    reveal_strlit("posedge");
    reveal_strlit("negedge");
    reveal_strlit("[");
    reveal_strlit(":");
    reveal_strlit("0");
    reveal_strlit("1");
    reveal_strlit("2");
    reveal_strlit("3");
    reveal_strlit("4");
    reveal_strlit("5");
    reveal_strlit("6");
    reveal_strlit("7");
    reveal_strlit("8");
    reveal_strlit("9");
    reveal_strlit("]");
    reveal_strlit("'d");
    reveal_strlit("\"");
    reveal_strlit("int");
    reveal_strlit("wire");
    reveal_strlit("reg");
    reveal_strlit("parameter");
    reveal_strlit(" = ");
    reveal_strlit("*");
    reveal_strlit("if");
    reveal_strlit("(");
    reveal_strlit(")");
    reveal_strlit(" ()");
    reveal_strlit("input");
    reveal_strlit("output");
    reveal_strlit("assign");
    reveal_strlit("always");
    reveal_strlit("module");
    reveal_strlit(";");
    reveal_strlit("endmodule");
}

/// Two single-line documents laid out in order share their one line.
pub proof fn lemma_lines_append_single(x: Seq<char>, y: Seq<char>)
    ensures
        lines_append(seq![x], seq![y]) == seq![x + y],
{
    assert(lines_append(seq![x], seq![y]) =~= seq![x + y]);
}

/// The decimal numeral of any number contains no line break.
pub proof fn lemma_dec_text_line_free(n: nat)
    ensures
        line_free(dec_text(n)),
    decreases n,
{
    lemma_fixed_tokens_line_free();
    if n >= 10 {
        lemma_dec_text_line_free(n / 10);
        assert forall|i: int| 0 <= i < dec_text(n).len() implies dec_text(n)[i] != '\n' by {
            if i < dec_text(n / 10).len() {
                assert(dec_text(n)[i] == dec_text(n / 10)[i]);
            } else {
                assert(dec_text(n)[i] == digit_text(n % 10)[i - dec_text(n / 10).len()]);
            }
        }
    }
}

fn digit_str(d: u64) -> (s: &'static str)
    requires
        d < 10,
    ensures
        s@ == digit_text(d as nat),
{
    match d {
        0 => "0",
        1 => "1",
        2 => "2",
        3 => "3",
        4 => "4",
        5 => "5",
        6 => "6",
        7 => "7",
        8 => "8",
        _ => "9",
    }
}

/// The decimal numeral of `n` as a string.
pub fn u64_to_dec(n: u64) -> (s: String)
    ensures
        s@ == dec_text(n as nat),
    decreases n,
{
    if n < 10 {
        digit_str(n).to_owned()
    } else {
        let mut s = u64_to_dec(n / 10);
        s.append(digit_str(n % 10));
        s
    }
}

/// The layout document of a bit width: empty for a scalar, `[n-1:0]` else.
pub fn width_to_doc(w: Width) -> (d: pretty::RcDoc<'static, ()>)
    requires
        w >= 1,
    ensures
        doc_lines(d) == seq![width_text(w)],
        doc_closed(d),
        doc_flat(d),
{
    if w == 1 {
        d_nil()
    } else {
        let num = u64_to_dec(w - 1);
        proof {
            lemma_fixed_tokens_line_free();
            lemma_dec_text_line_free((w - 1) as nat);
        }
        let d1 = d_append(d_text("["), d_text(num.as_str()));
        let d2 = d_append(d1, d_text(":"));
        let d3 = d_append(d2, d_text("0"));
        let d4 = d_append(d3, d_text("]"));
        proof {
            lemma_lines_append_single("["@, dec_text((w - 1) as nat));
            lemma_lines_append_single("["@ + dec_text((w - 1) as nat), ":"@);
            lemma_lines_append_single("["@ + dec_text((w - 1) as nat) + ":"@, "0"@);
            lemma_lines_append_single("["@ + dec_text((w - 1) as nat) + ":"@ + "0"@, "]"@);
        }
        d4
    }
}

/// The range text of a width, or the invalid-width error for a zero width.
pub fn width_to_pretty(w: Width) -> (r: Result<String, BuildError>)
    ensures
        match r {
            Ok(s) => w >= 1 && s@ == width_text(w),
            Err(e) => w == 0 && e == BuildError::InvalidWidth,
        },
{
    if w == 0 {
        Err(BuildError::InvalidWidth)
    } else {
        let d = width_to_doc(w);
        Ok(d_render(&d))
    }
}

impl RedOp {
    /// The layout document of this operator's token.
    pub fn to_doc(&self) -> (d: pretty::RcDoc<'static, ()>)
        ensures
            doc_lines(d) == seq![red_op_text(*self)],
            doc_closed(d),
            doc_flat(d),
    {
        proof {
            lemma_fixed_tokens_line_free();
        }
        match self {
            RedOp::LogNot => d_text("!"),
            RedOp::Not => d_text("~"),
            RedOp::And => d_text("&"),
            RedOp::Nand => d_text("~&"),
            RedOp::Or => d_text("|"),
            RedOp::Nor => d_text("~|"),
            RedOp::Xor => d_text("^"),
            RedOp::Xnor => d_text("~^"),
        }
    }

    /// This operator's fixed token as text.
    pub fn to_pretty(&self) -> (s: String)
        ensures
            s@ == red_op_text(*self),
    {
        let d = self.to_doc();
        d_render(&d)
    }
}

impl Binop {
    /// The layout document of this operator's token.
    pub fn to_doc(&self) -> (d: pretty::RcDoc<'static, ()>)
        ensures
            doc_lines(d) == seq![binop_text(*self)],
            doc_closed(d),
            doc_flat(d),
    {
        proof {
            lemma_fixed_tokens_line_free();
        }
        match self {
            Binop::Add => d_text("+"),
        }
    }

    /// This operator's fixed token as text.
    pub fn to_pretty(&self) -> (s: String)
        ensures
            s@ == binop_text(*self),
    {
        let d = self.to_doc();
        d_render(&d)
    }
}

impl EventTy {
    /// The layout document of this edge's keyword.
    pub fn to_doc(&self) -> (d: pretty::RcDoc<'static, ()>)
        ensures
            doc_lines(d) == seq![event_ty_text(*self)],
            doc_closed(d),
            doc_flat(d),
    {
        proof {
            lemma_fixed_tokens_line_free();
        }
        match self {
            EventTy::Posedge => d_text("posedge"),
            EventTy::Negedge => d_text("negedge"),
        }
    }

    /// This edge's keyword as text.
    pub fn to_pretty(&self) -> (s: String)
        ensures
            s@ == event_ty_text(*self),
    {
        let d = self.to_doc();
        d_render(&d)
    }
}

impl Expr {
    /// An unsigned decimal literal of the given bit width.
    pub fn new_ulit_dec(width: u32, value: &str) -> (e: Expr)
        ensures
            e matches Expr::ULitDec(w, v) && w == width && v@ == value@,
    {
        Expr::ULitDec(width, value.to_owned())
    }

    /// A string literal.
    pub fn new_str(value: &str) -> (e: Expr)
        ensures
            e matches Expr::Str(v) && v@ == value@,
    {
        Expr::Str(value.to_owned())
    }

    /// The driven identifier of this expression: only a reference has one.
    pub fn id(&self) -> (r: Result<String, BuildError>)
        ensures
            match r {
                Ok(s) => *self matches Expr::Ref(name) && s@ == name@,
                Err(e) => !(*self matches Expr::Ref(_)) && e == BuildError::MissingIdentifier,
            },
    {
        match self {
            Expr::Ref(name) => Ok(name.clone()),
            _ => Err(BuildError::MissingIdentifier),
        }
    }

    /// The layout document of this expression, on one line.
    pub fn to_doc(&self) -> (d: pretty::RcDoc<'static, ()>)
        requires
            expr_wf(*self),
        ensures
            doc_lines(d) == seq![expr_text(*self)],
            doc_closed(d),
            doc_flat(d),
        decreases *self,
    {
        proof {
            lemma_fixed_tokens_line_free();
        }
        match self {
            Expr::Ref(name) => d_text(name.as_str()),
            Expr::Unop(op, input) => {
                let od = op.to_doc();
                let id = (&**input).to_doc();
                let d = d_append(od, id);
                proof {
                    assert(doc_lines(d) =~= seq![expr_text(*self)]);
                }
                d
            },
            Expr::Binop(op, lhs, rhs) => {
                let ld = (&**lhs).to_doc();
                let d1 = d_append(ld, d_space());
                let d2 = d_append(d1, op.to_doc());
                let d3 = d_append(d2, d_space());
                let d4 = d_append(d3, (&**rhs).to_doc());
                proof {
                    assert(doc_lines(d1) =~= seq![expr_text(**lhs) + " "@]);
                    assert(doc_lines(d2) =~= seq![expr_text(**lhs) + " "@ + binop_text(*op)]);
                    assert(doc_lines(d3) =~= seq![expr_text(**lhs) + " "@ + binop_text(*op) + " "@]);
                    assert(doc_lines(d4) =~= seq![expr_text(*self)]);
                }
                d4
            },
            Expr::ULitDec(width, value) => {
                let num = u64_to_dec(*width as u64);
                proof {
                    lemma_dec_text_line_free(*width as nat);
                }
                let d1 = d_append(d_text(num.as_str()), d_text("'d"));
                let d2 = d_append(d1, d_text(value.as_str()));
                proof {
                    lemma_lines_append_single(dec_text(*width as nat), "'d"@);
                    lemma_lines_append_single(dec_text(*width as nat) + "'d"@, value@);
                }
                d2
            },
            Expr::Str(value) => {
                let d1 = d_append(d_text("\""), d_text(value.as_str()));
                let d2 = d_append(d1, d_text("\""));
                proof {
                    lemma_lines_append_single("\""@, value@);
                    lemma_lines_append_single("\""@ + value@, "\""@);
                }
                d2
            },
        }
    }

    /// The rendered text of this expression.
    pub fn to_pretty(&self) -> (s: String)
        requires
            expr_wf(*self),
        ensures
            s@ == expr_text(*self),
    {
        let d = self.to_doc();
        d_render(&d)
    }
}

/// Rendering a binary operation whose operands are one shared node lays the
/// shared node's text out twice, identically, around the operator token; the
/// shared node itself is read, never changed or copied.
pub proof fn lemma_shared_operand(op: Binop, e: Rc<Expr>)
    ensures
        expr_text(Expr::Binop(op, e, e)) == expr_text(*e) + " "@ + binop_text(op) + " "@
            + expr_text(*e),
{
}

#[derive(Clone, Debug)]
pub enum GenericStmt<T, U> {
    Decl(T),
    Parallel(U),
}

#[derive(Clone, Debug)]
pub enum GenericPort<T> {
    Input(T),
    Output(T),
}

#[derive(Clone, Debug)]
pub struct GenericModule<T, U> {
    pub name: Id,
    pub params: Vec<T>,
    pub ports: Vec<GenericPort<T>>,
    pub body: Vec<GenericStmt<T, U>>,
}

} // verus!
