//! Validating constructors and module-builder conveniences for the older
//! dialect.

use vstd::prelude::*;
use crate::common::{dec_text, BuildError, GenericPort, GenericStmt};
use crate::v05::{Decl, Expr, Instance, Module, Parallel, Port, Stmt, Ty};
use crate::v05::parallel_id;

verus! {

/// `d` is a wire declaration of the given name and width.
pub open spec fn is_wire(d: Decl, name: Seq<char>, width: u64) -> bool {
    d matches Decl::Wire(n, t) && n@ == name && t == Ty::Width(width)
}

/// `d` is a register declaration of the given name and width.
pub open spec fn is_reg(d: Decl, name: Seq<char>, width: u64) -> bool {
    d matches Decl::Reg(n, t) && n@ == name && t == Ty::Width(width)
}

/// `d` is a parameter declaration defaulting to a 32-bit decimal literal
/// of the given value.
pub open spec fn is_param_uint(d: Decl, name: Seq<char>, value: u32) -> bool {
    d matches Decl::Param(n, e) && n@ == name && (e matches Expr::ULitDec(w, v) && w == 32 && v@
        == dec_text(value as nat))
}

/// `d` is a parameter declaration defaulting to a string literal.
pub open spec fn is_param_str(d: Decl, name: Seq<char>, value: Seq<char>) -> bool {
    d matches Decl::Param(n, e) && n@ == name && (e matches Expr::Str(v) && v@ == value)
}

/// The four field views of `a` equal those of `b`.
pub open spec fn same_module(a: Module, b: Module) -> bool {
    a.name@ == b.name@ && a.params@ == b.params@ && a.ports@ == b.ports@ && a.body@ == b.body@
}

impl Ty {
    /// The unsized integer type.
    pub fn new_int() -> (t: Ty)
        ensures
            t == Ty::Int,
    {
        Ty::Int
    }

    /// A width-carrying type, or the invalid-width error for a zero width.
    pub fn new_width(width: u64) -> (r: Result<Ty, BuildError>)
        ensures
            match r {
                Ok(t) => width >= 1 && t == Ty::Width(width),
                Err(e) => width == 0 && e == BuildError::InvalidWidth,
            },
    {
        if width == 0 {
            Err(BuildError::InvalidWidth)
        } else {
            Ok(Ty::Width(width))
        }
    }
}

impl Decl {
    /// An unsized integer declaration.
    pub fn new_int(name: &str) -> (d: Decl)
        ensures
            d matches Decl::Int(n, t) && n@ == name@ && t == Ty::Int,
    {
        Decl::Int(name.to_owned(), Ty::new_int())
    }

    /// A wire declaration, or the invalid-width error for a zero width.
    pub fn new_wire(name: &str, width: u64) -> (r: Result<Decl, BuildError>)
        ensures
            match r {
                Ok(d) => width >= 1 && is_wire(d, name@, width),
                Err(e) => width == 0 && e == BuildError::InvalidWidth,
            },
    {
        match Ty::new_width(width) {
            Ok(t) => Ok(Decl::Wire(name.to_owned(), t)),
            Err(e) => Err(e),
        }
    }

    /// A register declaration, or the invalid-width error for a zero width.
    pub fn new_reg(name: &str, width: u64) -> (r: Result<Decl, BuildError>)
        ensures
            match r {
                Ok(d) => width >= 1 && is_reg(d, name@, width),
                Err(e) => width == 0 && e == BuildError::InvalidWidth,
            },
    {
        match Ty::new_width(width) {
            Ok(t) => Ok(Decl::Reg(name.to_owned(), t)),
            Err(e) => Err(e),
        }
    }

    /// A parameter declaration defaulting to a 32-bit decimal literal.
    pub fn new_param_uint(name: &str, value: u32) -> (d: Decl)
        ensures
            is_param_uint(d, name@, value),
    {
        let num = crate::common::u64_to_dec(value as u64);
        Decl::Param(name.to_owned(), Expr::new_ulit_dec(32, num.as_str()))
    }

    /// A parameter declaration defaulting to a string literal.
    pub fn new_param_str(name: &str, value: &str) -> (d: Decl)
        ensures
            is_param_str(d, name@, value@),
    {
        Decl::Param(name.to_owned(), Expr::new_str(value))
    }
}

impl Port {
    /// An input port wrapping a wire, or the invalid-width error.
    pub fn new_input(name: &str, width: u64) -> (r: Result<Port, BuildError>)
        ensures
            match r {
                Ok(p) => width >= 1 && (p matches GenericPort::Input(d) && is_wire(
                    d,
                    name@,
                    width,
                )),
                Err(e) => width == 0 && e == BuildError::InvalidWidth,
            },
    {
        match Decl::new_wire(name, width) {
            Ok(wire) => Ok(GenericPort::Input(wire)),
            Err(e) => Err(e),
        }
    }

    /// An output port wrapping a wire, or the invalid-width error.
    pub fn new_output(name: &str, width: u64) -> (r: Result<Port, BuildError>)
        ensures
            match r {
                Ok(p) => width >= 1 && (p matches GenericPort::Output(d) && is_wire(
                    d,
                    name@,
                    width,
                )),
                Err(e) => width == 0 && e == BuildError::InvalidWidth,
            },
    {
        match Decl::new_wire(name, width) {
            Ok(wire) => Ok(GenericPort::Output(wire)),
            Err(e) => Err(e),
        }
    }

    /// An output port wrapping a register, for ports driven procedurally,
    /// or the invalid-width error.
    pub fn new_output_reg(name: &str, width: u64) -> (r: Result<Port, BuildError>)
        ensures
            match r {
                Ok(p) => width >= 1 && (p matches GenericPort::Output(d) && is_reg(
                    d,
                    name@,
                    width,
                )),
                Err(e) => width == 0 && e == BuildError::InvalidWidth,
            },
    {
        match Decl::new_reg(name, width) {
            Ok(reg) => Ok(GenericPort::Output(reg)),
            Err(e) => Err(e),
        }
    }
}

impl Parallel {
    /// A structural statement instantiating a module.
    pub fn new_inst(inst: Instance) -> (p: Parallel)
        ensures
            p == Parallel::Inst(inst),
    {
        Parallel::Inst(inst)
    }

    /// The driven identifier, or the missing-identifier error where this
    /// statement drives no single target.
    pub fn id(&self) -> (r: Result<String, BuildError>)
        ensures
            match r {
                Ok(s) => parallel_id(*self) == Some(s@),
                Err(e) => parallel_id(*self) is None && e == BuildError::MissingIdentifier,
            },
    {
        match self {
            Parallel::Inst(inst) => Ok(inst.id.clone()),
            Parallel::ParAssign(lhs, _) => lhs.id(),
            _ => Err(BuildError::MissingIdentifier),
        }
    }
}

impl Stmt {
    /// A body statement holding a structural statement.
    pub fn new_parallel(par: Parallel) -> (s: Stmt)
        ensures
            s == GenericStmt::<Decl, Parallel>::Parallel(par),
    {
        GenericStmt::Parallel(par)
    }

    /// A body statement holding a declaration.
    pub fn new_decl(decl: Decl) -> (s: Stmt)
        ensures
            s == GenericStmt::<Decl, Parallel>::Decl(decl),
    {
        GenericStmt::Decl(decl)
    }
}

impl Module {
    /// A new, empty module of the given name.
    pub fn new(name: &str) -> (m: Module)
        ensures
            m.name@ == name@,
            m.params@ == Seq::<Decl>::empty(),
            m.ports@ == Seq::<Port>::empty(),
            m.body@ == Seq::<Stmt>::empty(),
    {
        Module::new_with_name(name)
    }

    /// Appends a parameter defaulting to a 32-bit decimal literal.
    pub fn add_param_uint(&mut self, name: &str, value: u32)
        ensures
            final(self).params@ == old(self).params@.push(final(self).params@.last()),
            is_param_uint(final(self).params@.last(), name@, value),
            final(self).name@ == old(self).name@,
            final(self).ports@ == old(self).ports@,
            final(self).body@ == old(self).body@,
    {
        self.params.push(Decl::new_param_uint(name, value));
    }

    /// Appends a parameter defaulting to a string literal.
    pub fn add_param_str(&mut self, name: &str, value: &str)
        ensures
            final(self).params@ == old(self).params@.push(final(self).params@.last()),
            is_param_str(final(self).params@.last(), name@, value@),
            final(self).name@ == old(self).name@,
            final(self).ports@ == old(self).ports@,
            final(self).body@ == old(self).body@,
    {
        self.params.push(Decl::new_param_str(name, value));
    }

    /// Appends a port.
    pub fn add_port(&mut self, port: Port)
        ensures
            final(self).ports@ == old(self).ports@.push(port),
            final(self).name@ == old(self).name@,
            final(self).params@ == old(self).params@,
            final(self).body@ == old(self).body@,
    {
        self.ports.push(port);
    }

    /// Appends an input port of the given name and width, or reports the
    /// invalid-width error and leaves the module unchanged.
    pub fn add_input(&mut self, name: &str, width: u64) -> (r: Result<(), BuildError>)
        ensures
            match r {
                Ok(_) => width >= 1 && final(self).ports@ == old(self).ports@.push(
                    final(self).ports@.last(),
                ) && (final(self).ports@.last() matches GenericPort::Input(d) && is_wire(
                    d,
                    name@,
                    width,
                )),
                Err(e) => width == 0 && e == BuildError::InvalidWidth && same_module(
                    *final(self),
                    *old(self),
                ),
            },
            final(self).name@ == old(self).name@,
            final(self).params@ == old(self).params@,
            final(self).body@ == old(self).body@,
    {
        match Port::new_input(name, width) {
            Ok(p) => {
                self.ports.push(p);
                Ok(())
            },
            Err(e) => Err(e),
        }
    }

    /// Appends an output port of the given name and width, or reports the
    /// invalid-width error and leaves the module unchanged.
    pub fn add_output(&mut self, name: &str, width: u64) -> (r: Result<(), BuildError>)
        ensures
            match r {
                Ok(_) => width >= 1 && final(self).ports@ == old(self).ports@.push(
                    final(self).ports@.last(),
                ) && (final(self).ports@.last() matches GenericPort::Output(d) && is_wire(
                    d,
                    name@,
                    width,
                )),
                Err(e) => width == 0 && e == BuildError::InvalidWidth && same_module(
                    *final(self),
                    *old(self),
                ),
            },
            final(self).name@ == old(self).name@,
            final(self).params@ == old(self).params@,
            final(self).body@ == old(self).body@,
    {
        match Port::new_output(name, width) {
            Ok(p) => {
                self.ports.push(p);
                Ok(())
            },
            Err(e) => Err(e),
        }
    }

    /// Appends an output port wrapping a register, or reports the
    /// invalid-width error and leaves the module unchanged.
    pub fn add_output_reg(&mut self, name: &str, width: u64) -> (r: Result<(), BuildError>)
        ensures
            match r {
                Ok(_) => width >= 1 && final(self).ports@ == old(self).ports@.push(
                    final(self).ports@.last(),
                ) && (final(self).ports@.last() matches GenericPort::Output(d) && is_reg(
                    d,
                    name@,
                    width,
                )),
                Err(e) => width == 0 && e == BuildError::InvalidWidth && same_module(
                    *final(self),
                    *old(self),
                ),
            },
            final(self).name@ == old(self).name@,
            final(self).params@ == old(self).params@,
            final(self).body@ == old(self).body@,
    {
        match Port::new_output_reg(name, width) {
            Ok(p) => {
                self.ports.push(p);
                Ok(())
            },
            Err(e) => Err(e),
        }
    }

    /// Appends a body statement instantiating a module.
    pub fn add_instance(&mut self, inst: Instance)
        ensures
            final(self).body@ == old(self).body@.push(
                GenericStmt::Parallel(Parallel::Inst(inst)),
            ),
            final(self).name@ == old(self).name@,
            final(self).params@ == old(self).params@,
            final(self).ports@ == old(self).ports@,
    {
        self.body.push(Stmt::new_parallel(Parallel::new_inst(inst)));
    }

    /// Appends a body statement.
    pub fn add_stmt(&mut self, stmt: Stmt)
        ensures
            final(self).body@ == old(self).body@.push(stmt),
            final(self).name@ == old(self).name@,
            final(self).params@ == old(self).params@,
            final(self).ports@ == old(self).ports@,
    {
        self.body.push(stmt);
    }

    /// The module's name.
    pub fn name(&self) -> (r: String)
        ensures
            r@ == self.name@,
    {
        self.name.clone()
    }

    /// The module's body statements, in order.
    pub fn body(&self) -> (r: &Vec<Stmt>)
        ensures
            r@ == self.body@,
    {
        &self.body
    }

    /// The module's ports, in order.
    pub fn ports(&self) -> (r: &Vec<Port>)
        ensures
            r@ == self.ports@,
    {
        &self.ports
    }

    /// The module's parameter declarations, in order.
    pub fn params(&self) -> (r: &Vec<Decl>)
        ensures
            r@ == self.params@,
    {
        &self.params
    }
}

} // verus!
