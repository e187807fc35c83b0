//! The older dialect: its declaration and statement vocabulary, and the
//! exact text every construct renders to.

use vstd::prelude::*;
use crate::common::{
    expr_text, expr_wf, id_wf, lemma_fixed_tokens_line_free, width_text, BuildError,
    GenericModule, GenericPort, GenericStmt,
};
use crate::layout::{
    d_append, d_group, d_hardline, d_nest, d_nil, d_render, d_space, d_text, doc_closed, doc_flat,
    doc_lines, join_lines, nest_lines, spaces, PRETTY_INDENT,
};

pub use crate::common::EventTy;
pub use crate::common::Expr;
pub use crate::common::Id;

pub mod helpers;

verus! {

#[derive(Clone, Copy, Debug)]
pub enum Ty {
    Int,
    Width(u64),
}

/// A type is well formed when the width it carries, if any, is positive.
pub open spec fn ty_wf(t: Ty) -> bool {
    match t {
        Ty::Int => true,
        Ty::Width(w) => w >= 1,
    }
}

/// The rendered text of a type: the keyword `int`, or a width's range text.
pub open spec fn ty_text(t: Ty) -> Seq<char> {
    match t {
        Ty::Int => "int"@,
        Ty::Width(w) => width_text(w),
    }
}

impl Ty {
    /// The width this type carries, or the type-mismatch error if none.
    pub fn width(&self) -> (r: Result<u64, BuildError>)
        ensures
            match r {
                Ok(w) => *self == Ty::Width(w),
                Err(e) => *self == Ty::Int && e == BuildError::TypeMismatch,
            },
    {
        match self {
            Ty::Width(w) => Ok(*w),
            Ty::Int => Err(BuildError::TypeMismatch),
        }
    }

    /// The layout document of this type, on one line.
    pub fn to_doc(&self) -> (d: pretty::RcDoc<'static, ()>)
        requires
            ty_wf(*self),
        ensures
            doc_lines(d) == seq![ty_text(*self)],
            doc_closed(d),
            doc_flat(d),
    {
        proof {
            lemma_fixed_tokens_line_free();
        }
        match self {
            Ty::Int => d_text("int"),
            Ty::Width(w) => crate::common::width_to_doc(*w),
        }
    }

    /// The rendered text of this type.
    pub fn to_pretty(&self) -> (s: String)
        requires
            ty_wf(*self),
        ensures
            s@ == ty_text(*self),
    {
        let d = self.to_doc();
        d_render(&d)
    }
}

#[derive(Clone, Debug)]
pub enum Decl {
    Int(Id, Ty),
    Wire(Id, Ty),
    Reg(Id, Ty),
    Param(Id, Expr),
}

/// A declaration is well formed when its name stays on one line, its type
/// is well formed, a wire or register carries a width, and a parameter's
/// default expression is well formed.
pub open spec fn decl_wf(d: Decl) -> bool {
    match d {
        Decl::Int(name, t) => id_wf(name@) && ty_wf(t),
        Decl::Wire(name, t) => id_wf(name@) && (t matches Ty::Width(w) && w >= 1),
        Decl::Reg(name, t) => id_wf(name@) && (t matches Ty::Width(w) && w >= 1),
        Decl::Param(name, e) => id_wf(name@) && expr_wf(e),
    }
}

/// The extra space between a range text and a name: nothing for a scalar.
pub open spec fn decl_extra(t: Ty) -> Seq<char> {
    if t matches Ty::Width(w) && w == 1 {
        Seq::<char>::empty()
    } else {
        " "@
    }
}

/// The rendered text of a declaration, on one line.
pub open spec fn decl_text(d: Decl) -> Seq<char> {
    match d {
        Decl::Int(name, t) => ty_text(t) + " "@ + name@,
        Decl::Wire(name, t) => "wire"@ + " "@ + ty_text(t) + decl_extra(t) + name@,
        Decl::Reg(name, t) => "reg"@ + " "@ + ty_text(t) + decl_extra(t) + name@,
        Decl::Param(name, e) => "parameter"@ + " "@ + name@ + " = "@ + expr_text(e),
    }
}

impl Decl {
    /// The layout document of this declaration, on one line.
    pub fn to_doc(&self) -> (d: pretty::RcDoc<'static, ()>)
        requires
            decl_wf(*self),
        ensures
            doc_lines(d) == seq![decl_text(*self)],
            doc_closed(d),
            doc_flat(d),
    {
        proof {
            lemma_fixed_tokens_line_free();
        }
        match self {
            Decl::Int(name, ty) => {
                let d1 = d_append(ty.to_doc(), d_space());
                let d2 = d_append(d1, d_text(name.as_str()));
                proof {
                    assert(doc_lines(d2) =~= seq![decl_text(*self)]);
                }
                d2
            },
            Decl::Wire(name, ty) => {
                let d1 = d_append(d_text("wire"), d_space());
                let d2 = d_append(d1, ty.to_doc());
                let d3 = if needs_extra_space(ty) {
                    d_append(d2, d_space())
                } else {
                    d2
                };
                let d4 = d_append(d3, d_text(name.as_str()));
                proof {
                    assert(("wire"@ + " "@ + ty_text(*ty)) + Seq::<char>::empty() =~= "wire"@
                        + " "@ + ty_text(*ty));
                    assert(doc_lines(d4) =~= seq![decl_text(*self)]);
                }
                d4
            },
            Decl::Reg(name, ty) => {
                let d1 = d_append(d_text("reg"), d_space());
                let d2 = d_append(d1, ty.to_doc());
                let d3 = if needs_extra_space(ty) {
                    d_append(d2, d_space())
                } else {
                    d2
                };
                let d4 = d_append(d3, d_text(name.as_str()));
                proof {
                    assert(("reg"@ + " "@ + ty_text(*ty)) + Seq::<char>::empty() =~= "reg"@ + " "@
                        + ty_text(*ty));
                    assert(doc_lines(d4) =~= seq![decl_text(*self)]);
                }
                d4
            },
            Decl::Param(name, e) => {
                let d1 = d_append(d_text("parameter"), d_space());
                let d2 = d_append(d1, d_text(name.as_str()));
                let d3 = d_append(d2, d_text(" = "));
                let d4 = d_append(d3, e.to_doc());
                proof {
                    assert(doc_lines(d4) =~= seq![decl_text(*self)]);
                }
                d4
            },
        }
    }

    /// The rendered text of this declaration.
    pub fn to_pretty(&self) -> (s: String)
        requires
            decl_wf(*self),
        ensures
            s@ == decl_text(*self),
    {
        let d = self.to_doc();
        d_render(&d)
    }
}

/// Whether a space must stand between a type's range text and the name.
fn needs_extra_space(t: &Ty) -> (r: bool)
    ensures
        r <==> !(*t matches Ty::Width(w) && w == 1),
{
    match t {
        Ty::Width(w) => *w != 1,
        Ty::Int => true,
    }
}

#[derive(Debug)]
pub enum Sequential {
    Wildcard,
    Event(EventTy, Expr),
    If(Expr, Vec<Sequential>, Vec<Sequential>),
}

/// A procedural statement is well formed when the expression it renders is.
pub open spec fn sequential_wf(s: Sequential) -> bool {
    match s {
        Sequential::Wildcard => true,
        Sequential::Event(_, e) => expr_wf(e),
        Sequential::If(cond, _, _) => expr_wf(cond),
    }
}

/// The rendered text of a procedural statement: the sensitivity wildcard,
/// an edge keyword and its expression, or an `if` head with its condition
/// in parentheses (branches render through their own statements).
pub open spec fn sequential_text(s: Sequential) -> Seq<char> {
    match s {
        Sequential::Wildcard => "*"@,
        Sequential::Event(ty, e) => crate::common::event_ty_text(ty) + " "@ + expr_text(e),
        Sequential::If(cond, _, _) => "if"@ + " "@ + "("@ + expr_text(cond) + ")"@,
    }
}

impl Sequential {
    /// The layout document of this procedural statement, on one line.
    pub fn to_doc(&self) -> (d: pretty::RcDoc<'static, ()>)
        requires
            sequential_wf(*self),
        ensures
            doc_lines(d) == seq![sequential_text(*self)],
            doc_closed(d),
            doc_flat(d),
    {
        proof {
            lemma_fixed_tokens_line_free();
        }
        match self {
            // wildcard for sensitivity list
            Sequential::Wildcard => d_text("*"),
            Sequential::Event(ty, e) => {
                let d1 = d_append(ty.to_doc(), d_space());
                let d2 = d_append(d1, e.to_doc());
                proof {
                    assert(doc_lines(d2) =~= seq![sequential_text(*self)]);
                }
                d2
            },
            Sequential::If(cond, _, _) => {
                let d1 = d_append(d_text("if"), d_space());
                let d2 = d_append(d1, d_text("("));
                let d3 = d_append(d2, cond.to_doc());
                let d4 = d_append(d3, d_text(")"));
                proof {
                    assert(doc_lines(d4) =~= seq![sequential_text(*self)]);
                }
                d4
            },
        }
    }

    /// The rendered text of this procedural statement.
    pub fn to_pretty(&self) -> (s: String)
        requires
            sequential_wf(*self),
        ensures
            s@ == sequential_text(*self),
    {
        let d = self.to_doc();
        d_render(&d)
    }
}

/// A module instantiation: the instance name and the instantiated module.
#[derive(Clone, Debug)]
pub struct Instance {
    pub id: Id,
    pub module_name: Id,
}

impl Instance {
    /// A new instantiation of `module_name` named `id`.
    pub fn new(id: &str, module_name: &str) -> (r: Instance)
        ensures
            r.id@ == id@,
            r.module_name@ == module_name@,
    {
        Instance { id: id.to_owned(), module_name: module_name.to_owned() }
    }
}

/// The rendered text of an instantiation: module, instance name, and an
/// empty connection list.
pub open spec fn instance_text(i: Instance) -> Seq<char> {
    i.module_name@ + " "@ + i.id@ + " ()"@
}

#[derive(Clone, Debug)]
pub enum Parallel {
    Assign,
    Always,
    Inst(Instance),
    ParAssign(Expr, Expr),
}

/// A structural statement is well formed when all text it renders stays on
/// one line.
pub open spec fn parallel_wf(p: Parallel) -> bool {
    match p {
        Parallel::Assign => true,
        Parallel::Always => true,
        Parallel::Inst(i) => id_wf(i.id@) && id_wf(i.module_name@),
        Parallel::ParAssign(lhs, rhs) => expr_wf(lhs) && expr_wf(rhs),
    }
}

/// The rendered text of a structural statement.
pub open spec fn parallel_text(p: Parallel) -> Seq<char> {
    match p {
        Parallel::Assign => "assign"@,
        Parallel::Always => "always"@,
        Parallel::Inst(i) => instance_text(i),
        Parallel::ParAssign(lhs, rhs) => expr_text(lhs) + " = "@ + expr_text(rhs),
    }
}

/// The driven identifier of a structural statement: the instance name of an
/// instantiation, or the referenced target of a procedural assignment.
pub open spec fn parallel_id(p: Parallel) -> Option<Seq<char>> {
    match p {
        Parallel::Inst(i) => Some(i.id@),
        Parallel::ParAssign(lhs, _) => match lhs {
            Expr::Ref(name) => Some(name@),
            _ => None,
        },
        _ => None,
    }
}

impl Parallel {
    /// The layout document of this structural statement, on one line.
    pub fn to_doc(&self) -> (d: pretty::RcDoc<'static, ()>)
        requires
            parallel_wf(*self),
        ensures
            doc_lines(d) == seq![parallel_text(*self)],
            doc_closed(d),
            doc_flat(d),
    {
        proof {
            lemma_fixed_tokens_line_free();
        }
        match self {
            Parallel::Assign => d_text("assign"),
            Parallel::Always => d_text("always"),
            Parallel::Inst(inst) => {
                let d1 = d_append(d_text(inst.module_name.as_str()), d_space());
                let d2 = d_append(d1, d_text(inst.id.as_str()));
                let d3 = d_append(d2, d_text(" ()"));
                proof {
                    assert(doc_lines(d3) =~= seq![parallel_text(*self)]);
                }
                d3
            },
            Parallel::ParAssign(lhs, rhs) => {
                let d1 = d_append(lhs.to_doc(), d_text(" = "));
                let d2 = d_append(d1, rhs.to_doc());
                proof {
                    assert(doc_lines(d2) =~= seq![parallel_text(*self)]);
                }
                d2
            },
        }
    }

    /// The rendered text of this structural statement.
    pub fn to_pretty(&self) -> (s: String)
        requires
            parallel_wf(*self),
        ensures
            s@ == parallel_text(*self),
    {
        let d = self.to_doc();
        d_render(&d)
    }
}

pub type Stmt = GenericStmt<Decl, Parallel>;

/// A body statement is well formed when its declaration or structural
/// statement is.
pub open spec fn stmt_wf(s: Stmt) -> bool {
    match s {
        GenericStmt::Decl(d) => decl_wf(d),
        GenericStmt::Parallel(p) => parallel_wf(p),
    }
}

/// The rendered text of a body statement, on one line.
pub open spec fn stmt_text(s: Stmt) -> Seq<char> {
    match s {
        GenericStmt::Decl(d) => decl_text(d),
        GenericStmt::Parallel(p) => parallel_text(p),
    }
}

impl Stmt {
    /// The layout document of this body statement, on one line.
    pub fn to_doc(&self) -> (d: pretty::RcDoc<'static, ()>)
        requires
            stmt_wf(*self),
        ensures
            doc_lines(d) == seq![stmt_text(*self)],
            doc_closed(d),
            doc_flat(d),
    {
        match self {
            GenericStmt::Decl(decl) => decl.to_doc(),
            GenericStmt::Parallel(par) => par.to_doc(),
        }
    }

    /// The rendered text of this body statement.
    pub fn to_pretty(&self) -> (s: String)
        requires
            stmt_wf(*self),
        ensures
            s@ == stmt_text(*self),
    {
        let d = self.to_doc();
        d_render(&d)
    }
}

pub type Port = GenericPort<Decl>;

/// A port is well formed when the declaration it wraps is.
pub open spec fn port_wf(p: Port) -> bool {
    match p {
        GenericPort::Input(d) => decl_wf(d),
        GenericPort::Output(d) => decl_wf(d),
    }
}

/// The rendered text of a port: its direction keyword and declaration.
pub open spec fn port_text(p: Port) -> Seq<char> {
    match p {
        GenericPort::Input(d) => "input"@ + " "@ + decl_text(d),
        GenericPort::Output(d) => "output"@ + " "@ + decl_text(d),
    }
}

impl Port {
    /// The layout document of this port, on one line.
    pub fn to_doc(&self) -> (d: pretty::RcDoc<'static, ()>)
        requires
            port_wf(*self),
        ensures
            doc_lines(d) == seq![port_text(*self)],
            doc_closed(d),
            doc_flat(d),
    {
        proof {
            lemma_fixed_tokens_line_free();
        }
        match self {
            GenericPort::Input(decl) => {
                let d1 = d_append(d_text("input"), d_space());
                let d2 = d_append(d1, decl.to_doc());
                proof {
                    assert(doc_lines(d2) =~= seq![port_text(*self)]);
                }
                d2
            },
            GenericPort::Output(decl) => {
                let d1 = d_append(d_text("output"), d_space());
                let d2 = d_append(d1, decl.to_doc());
                proof {
                    assert(doc_lines(d2) =~= seq![port_text(*self)]);
                }
                d2
            },
        }
    }

    /// The rendered text of this port.
    pub fn to_pretty(&self) -> (s: String)
        requires
            port_wf(*self),
        ensures
            s@ == port_text(*self),
    {
        let d = self.to_doc();
        d_render(&d)
    }
}

pub type Module = GenericModule<Decl, Parallel>;

/// A module is well formed when its name stays on one line and every body
/// statement is well formed.
pub open spec fn module_wf(m: Module) -> bool {
    id_wf(m.name@) && forall|i: int| 0 <= i < m.body@.len() ==> stmt_wf(#[trigger] m.body@[i])
}

/// The header line of a module: the keyword, the name, and an (always
/// empty-rendered) port list.
pub open spec fn module_header_text(name: Seq<char>) -> Seq<char> {
    "module"@ + " "@ + name + " "@ + "("@ + ")"@ + ";"@
}

/// One indented body line: the statement's text closed by a semicolon.
pub open spec fn stmt_line(s: Stmt) -> Seq<char> {
    spaces(PRETTY_INDENT as nat) + (stmt_text(s) + ";"@)
}

/// One body line per statement, before indentation: the statement's text
/// closed by a semicolon.
pub open spec fn stmt_semi_lines(ss: Seq<Stmt>) -> Seq<Seq<char>> {
    ss.map_values(|s: Stmt| stmt_text(s) + ";"@)
}

/// One indented body line per statement, in order.
pub open spec fn stmt_lines(ss: Seq<Stmt>) -> Seq<Seq<char>> {
    ss.map_values(|s: Stmt| stmt_line(s))
}

/// The lines of a rendered module: the header, one indented line per body
/// statement in order, and the closing keyword on its own line.
pub open spec fn module_lines(m: Module) -> Seq<Seq<char>> {
    seq![module_header_text(m.name@)] + stmt_lines(m.body@) + seq!["endmodule"@]
}

/// The rendered text of a module: its lines joined by line breaks.
pub open spec fn module_text(m: Module) -> Seq<char> {
    join_lines(module_lines(m))
}

impl Module {
    /// A new, empty module of the given name.
    pub fn new_with_name(name: &str) -> (m: Module)
        ensures
            m.name@ == name@,
            m.params@ == Seq::<Decl>::empty(),
            m.ports@ == Seq::<GenericPort<Decl>>::empty(),
            m.body@ == Seq::<GenericStmt<Decl, Parallel>>::empty(),
    {
        Module {
            name: name.to_owned(),
            params: Vec::new(),
            ports: Vec::new(),
            body: Vec::new(),
        }
    }

    /// The layout document of this module: the header, the indented body
    /// under one indentation and one grouping scope, and the closing
    /// keyword after a mandatory break.
    pub fn to_doc(&self) -> (d: pretty::RcDoc<'static, ()>)
        requires
            module_wf(*self),
        ensures
            doc_lines(d) == module_lines(*self),
            doc_closed(d),
            doc_flat(d),
    {
        proof {
            lemma_fixed_tokens_line_free();
        }
        let mut body_doc = d_nil();
        let mut i: usize = 0;
        proof {
            assert(doc_lines(body_doc) =~= seq![Seq::<char>::empty()] + stmt_semi_lines(
                self.body@.take(0),
            ));
        }
        while i < self.body.len()
            invariant
                0 <= i <= self.body.len(),
                module_wf(*self),
                doc_lines(body_doc) == seq![Seq::<char>::empty()] + stmt_semi_lines(
                    self.body@.take(i as int),
                ),
                doc_closed(body_doc),
                doc_flat(body_doc),
            decreases self.body.len() - i,
        {
            proof {
                lemma_fixed_tokens_line_free();
                reveal_strlit(";");
            }
            let sd = self.body[i].to_doc();
            let b1 = d_append(body_doc, d_hardline());
            let b2 = d_append(b1, sd);
            let b3 = d_append(b2, d_text(";"));
            proof {
                let prev = seq![Seq::<char>::empty()] + stmt_semi_lines(self.body@.take(i as int));
                assert(doc_lines(b1) =~= prev + seq![Seq::<char>::empty()]);
                assert(Seq::<char>::empty() + stmt_text(self.body@[i as int]) =~= stmt_text(
                    self.body@[i as int],
                ));
                assert(doc_lines(b2) =~= prev + seq![stmt_text(self.body@[i as int])]);
                assert(doc_lines(b3) =~= prev + seq![stmt_text(self.body@[i as int]) + ";"@]);
                assert(";"@.len() == 1);
                assert(doc_lines(b3) =~= seq![Seq::<char>::empty()] + stmt_semi_lines(
                    self.body@.take(i as int + 1),
                ));
            }
            body_doc = b3;
            i = i + 1;
        }
        proof {
            assert(self.body@.take(self.body@.len() as int) =~= self.body@);
        }
        let nested = d_nest(body_doc, PRETTY_INDENT);
        let grouped = d_group(nested);
        proof {
            let with_semi = stmt_semi_lines(self.body@);
            let indented = stmt_lines(self.body@);
            assert forall|j: int| 0 <= j < nest_lines(
                PRETTY_INDENT as nat,
                seq![Seq::<char>::empty()] + with_semi,
            ).len() implies nest_lines(PRETTY_INDENT as nat, seq![Seq::<char>::empty()] + with_semi)[j]
                == (seq![Seq::<char>::empty()] + indented)[j] by {
                if j > 0 {
                    assert((seq![Seq::<char>::empty()] + with_semi)[j] == with_semi[j - 1]);
                    assert(with_semi[j - 1] == stmt_text(self.body@[j - 1]) + ";"@);
                    assert(indented[j - 1] == stmt_line(self.body@[j - 1]));
                }
            }
            assert(nest_lines(PRETTY_INDENT as nat, seq![Seq::<char>::empty()] + with_semi) =~= seq![
                Seq::<char>::empty(),
            ] + indented);
        }
        let h1 = d_append(d_text("module"), d_space());
        let h2 = d_append(h1, d_text(self.name.as_str()));
        let h3 = d_append(h2, d_space());
        let h4 = d_append(h3, d_text("("));
        let h5 = d_append(h4, d_text(")"));
        let h6 = d_append(h5, d_text(";"));
        proof {
            assert(doc_lines(h6) =~= seq![module_header_text(self.name@)]);
        }
        let t1 = d_append(h6, grouped);
        let t2 = d_append(t1, d_hardline());
        let t3 = d_append(t2, d_text("endmodule"));
        proof {
            let hd = module_header_text(self.name@);
            let indented = stmt_lines(self.body@);
            assert(hd + Seq::<char>::empty() =~= hd);
            assert(doc_lines(t1) =~= seq![hd] + indented);
            let lt1 = seq![hd] + indented;
            assert(lt1.len() > 0);
            assert(lt1.last() + Seq::<char>::empty() =~= lt1.last());
            assert(doc_lines(t2) =~= lt1 + seq![Seq::<char>::empty()]);
            reveal_strlit("endmodule");
            assert(Seq::<char>::empty() + "endmodule"@ =~= "endmodule"@);
            assert(doc_lines(t3) =~= lt1 + seq!["endmodule"@]);
            assert(doc_lines(t3) =~= module_lines(*self));
        }
        t3
    }

    /// The rendered text of this module. The text is a function of the
    /// module value alone, so repeated renderings are byte-identical.
    pub fn to_pretty(&self) -> (s: String)
        requires
            module_wf(*self),
        ensures
            s@ == module_text(*self),
    {
        let d = self.to_doc();
        d_render(&d)
    }
}

/// Rendering is deterministic: the text of a module is a function of the
/// module value alone, so any two renderings of one module value are
/// byte-identical.
pub proof fn lemma_render_deterministic(m: Module, s1: Seq<char>, s2: Seq<char>)
    requires
        s1 == module_text(m),
        s2 == module_text(m),
    ensures
        s1 == s2,
{
}

} // verus!
