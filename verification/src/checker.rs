//! The executable checker, verified against the rules in [`crate::semantics`].

use vstd::prelude::*;

use crate::ast::{Expr, Field, Function, Ident, Literal, Module, Pattern, PrimitiveType, Struct,
    TcResult, Type, TypeError};
use crate::model::{
    lemma_view_type_seq, view_error, view_result, view_type, view_type_option, view_type_seq,
    view_unit_result, SpecType,
};
use crate::scope::Scope;
use crate::semantics;
use crate::semantics::SpecScope;

verus! {

/// Structural type equality: the unification check.
pub fn type_eq(a: &Type, b: &Type) -> (r: bool)
    ensures
        r == (view_type(*a) == view_type(*b)),
    decreases a,
{
    match (a, b) {
        (Type::Primitive(p), Type::Primitive(q)) => *p == *q,
        (Type::Named(x), Type::Named(y)) => *x == *y,
        (Type::Function(ps, r1), Type::Function(qs, r2)) => {
            proof {
                lemma_view_type_seq(ps@);
                lemma_view_type_seq(qs@);
            }
            if ps.len() != qs.len() {
                return false;
            }
            let mut i: usize = 0;
            #[verifier::loop_isolation(false)]
            while i < ps.len()
                invariant
                    0 <= i <= ps@.len(),
                    forall|j: int| 0 <= j < i ==> view_type(ps@[j]) == view_type(qs@[j]),
                decreases ps@.len() - i,
            {
                if !type_eq(&ps[i], &qs[i]) {
                    assert(view_type_seq(ps@)[i as int] != view_type_seq(qs@)[i as int]);
                    return false;
                }
                i += 1;
            }
            let req = type_eq(&**r1, &**r2);
            proof {
                if req {
                    assert(view_type_seq(ps@) =~= view_type_seq(qs@));
                }
            }
            req
        },
        _ => false,
    }
}

/// The declared types of a parameter or field list, cloned in order.
fn collect_slot_types(fields: &Vec<Field>) -> (v: Vec<Type>)
    ensures
        view_type_seq(v@) == semantics::slot_types(fields@),
{
    let mut v: Vec<Type> = Vec::new();
    let mut i: usize = 0;
    #[verifier::loop_isolation(false)]
    while i < fields.len()
        invariant
            0 <= i <= fields@.len(),
            v@.len() == i,
            forall|j: int| 0 <= j < i ==> view_type(v@[j]) == view_type(fields@[j].typ),
        decreases fields@.len() - i,
    {
        v.push(fields[i].typ.clone());
        i += 1;
    }
    proof {
        lemma_view_type_seq(v@);
        assert(view_type_seq(v@) =~= semantics::slot_types(fields@));
    }
    v
}

/// Searches the module's declarations for a function or struct of that name
/// and synthesizes its signature: `(argument types) -> return type` for a
/// function, `(field types) -> Named(struct name)` for a struct.
fn find_type(module: &Module, name: &Ident) -> (r: Option<Type>)
    ensures
        view_type_option(r) == semantics::find_decl_type(*module, name@),
{
    let nf = module.functions.len();
    let mut i: usize = 0;
    #[verifier::loop_isolation(false)]
    while i < nf
        invariant
            0 <= i <= nf,
            semantics::find_function(module.functions@, name@, 0) == semantics::find_function(
                module.functions@,
                name@,
                i as int,
            ),
        decreases nf - i,
    {
        if module.functions[i].name == *name {
            let f = &module.functions[i];
            let params = collect_slot_types(&f.arguments);
            return Some(Type::Function(params, Box::new(f.return_type.clone())));
        }
        i += 1;
    }
    let ns = module.structs.len();
    let mut j: usize = 0;
    #[verifier::loop_isolation(false)]
    while j < ns
        invariant
            0 <= j <= ns,
            semantics::find_struct(module.structs@, name@, 0) == semantics::find_struct(
                module.structs@,
                name@,
                j as int,
            ),
        decreases ns - j,
    {
        if module.structs[j].name == *name {
            let s = &module.structs[j];
            let fields = collect_slot_types(&s.fields);
            let named = Type::Named(s.name.clone());
            proof {
                assert(view_type(named) == SpecType::Named(s.name@));
            }
            return Some(Type::Function(fields, Box::new(named)));
        }
        j += 1;
    }
    None
}

/// The checker, bound to one module for the duration of its use. It owns the
/// one mutable scope of the current function-checking pass.
pub struct Typecheck<'a> {
    module: &'a Module,
    stack: Scope,
}

impl<'a> Typecheck<'a> {
    /// The module declarations are resolved against.
    pub closed spec fn module_spec(self) -> Module {
        *self.module
    }

    /// The scope's current mapping.
    pub closed spec fn scope_map(self) -> SpecScope {
        self.stack.as_map()
    }

    /// The scope carries each name at most once.
    pub closed spec fn wf(self) -> bool {
        self.stack.wf()
    }

    /// A checker over the given module, with an empty scope.
    pub fn new(module: &'a Module) -> (tc: Typecheck<'a>)
        ensures
            tc.wf(),
            tc.module_spec() == *module,
            tc.scope_map() == Map::<Seq<char>, SpecType>::empty(),
    {
        Typecheck { module, stack: Scope::new() }
    }

    /// Resolves an identifier: the scope first (locals shadow everything),
    /// then the module's declarations.
    fn find(&self, id: &Ident) -> (r: TcResult)
        requires
            self.wf(),
        ensures
            view_result(r) == semantics::lookup(self.module_spec(), self.scope_map(), id@),
    {
        match self.stack.get(id) {
            Some(t) => Ok(t.clone()),
            None => match find_type(self.module, id) {
                Some(t) => Ok(t),
                None => Err(TypeError::UndefinedVariable(id.clone())),
            },
        }
    }

    /// The module's struct declaration of that name.
    fn find_struct(&self, id: &Ident) -> (r: Result<&'a Struct, TypeError>)
        ensures
            match r {
                Ok(s) => semantics::find_struct(self.module_spec().structs@, id@, 0) == Some(*s),
                Err(e) => semantics::find_struct(self.module_spec().structs@, id@, 0) is None
                    && view_error(e) == crate::model::SpecError::UndefinedStruct(id@),
            },
    {
        let m: &'a Module = self.module;
        let ns = m.structs.len();
        let mut i: usize = 0;
        #[verifier::loop_isolation(false)]
        while i < ns
            invariant
                0 <= i <= ns,
                semantics::find_struct(m.structs@, id@, 0) == semantics::find_struct(
                    m.structs@,
                    id@,
                    i as int,
                ),
            decreases ns - i,
        {
            if m.structs[i].name == *id {
                return Ok(&m.structs[i]);
            }
            i += 1;
        }
        Err(TypeError::UndefinedStruct(id.clone()))
    }

    /// Binds a local name for the rest of the current pass.
    fn stack_var(&mut self, id: Ident, typ: Type)
        requires
            old(self).wf(),
        ensures
            final(self).wf(),
            final(self).module_spec() == old(self).module_spec(),
            final(self).scope_map() == old(self).scope_map().insert(id@, view_type(typ)),
    {
        self.stack.insert(id, typ);
    }

    /// Unification: a structural equality check, returning the actual type
    /// or a mismatch naming expected and actual.
    fn unify(&self, expected: &Type, actual: Type) -> (r: TcResult)
        ensures
            view_result(r) == semantics::unify(view_type(*expected), view_type(actual)),
    {
        if type_eq(expected, &actual) {
            Ok(actual)
        } else {
            Err(TypeError::TypeMismatch(expected.clone(), actual))
        }
    }

    /// Infers one expression's type bottom-up, exactly as
    /// [`semantics::tc_expr`] states, leaving the scope the rules leave.
    /// Exposed so tooling can check sub-expressions in isolation.
    #[verifier::loop_isolation(false)]
    #[verifier::rlimit(60)]
    pub fn typecheck(&mut self, expr: &Expr) -> (r: TcResult)
        requires
            old(self).wf(),
            semantics::wf_expr(*expr),
        ensures
            final(self).wf(),
            final(self).module_spec() == old(self).module_spec(),
            ({
                let (rs, scs) = semantics::tc_expr(
                    old(self).module_spec(),
                    old(self).scope_map(),
                    *expr,
                );
                view_result(r) == rs && final(self).scope_map() == scs
            }),
        decreases expr,
    {
        let ghost m0 = self.module_spec();
        let ghost sc0 = self.scope_map();
        match expr {
            Expr::Identifier(id) => self.find(&id.name),
            Expr::Literal(lit) => Ok(
                match lit {
                    Literal::Int(_) => Type::Primitive(PrimitiveType::Int),
                    Literal::Float => Type::Primitive(PrimitiveType::Float),
                    Literal::Str(_) => Type::Primitive(PrimitiveType::Str),
                    Literal::Bool(_) => Type::Primitive(PrimitiveType::Bool),
                },
            ),
            Expr::Call(func, args) => {
                let func_type = match self.typecheck(&**func) {
                    Ok(t) => t,
                    Err(e) => return Err(e),
                };
                match func_type {
                    Type::Function(arg_types, return_type) => {
                        proof {
                            lemma_view_type_seq(arg_types@);
                        }
                        if arg_types.len() != args.len() {
                            return Err(
                                TypeError::WrongNumberOfArguments(arg_types.len(), args.len()),
                            );
                        }
                        let ghost ps = view_type_seq(arg_types@);
                        let ghost sc1 = self.scope_map();
                        let mut i: usize = 0;
                        while i < args.len()
                            invariant
                                self.wf(),
                                self.module_spec() == m0,
                                0 <= i <= args@.len(),
                                semantics::tc_args(m0, sc1, ps, args@, 0) == semantics::tc_args(
                                    m0,
                                    self.scope_map(),
                                    ps,
                                    args@,
                                    i as int,
                                ),
                            decreases args@.len() - i,
                        {
                            let actual = match self.typecheck(&args[i]) {
                                Ok(t) => t,
                                Err(e) => return Err(e),
                            };
                            match self.unify(&arg_types[i], actual) {
                                Ok(_) => (),
                                Err(e) => return Err(e),
                            }
                            i += 1;
                        }
                        Ok(*return_type)
                    },
                    t => Err(TypeError::NotAFunction(t)),
                }
            },
            Expr::IfElse(pred, on_true, on_false) => {
                let pred_type = match self.typecheck(&**pred) {
                    Ok(t) => t,
                    Err(e) => return Err(e),
                };
                // The predicate's unification against bool is deliberately
                // not consulted: an arm-type mismatch is preferred over a
                // non-boolean predicate (see semantics::tc_expr).
                let bool_t = Type::Primitive(PrimitiveType::Bool);
                let _ = self.unify(&bool_t, pred_type);
                let true_type = match self.typecheck(&**on_true) {
                    Ok(t) => t,
                    Err(e) => return Err(e),
                };
                let false_type = match self.typecheck(&**on_false) {
                    Ok(t) => t,
                    Err(e) => return Err(e),
                };
                self.unify(&true_type, false_type)
            },
            Expr::While(pred, body) => {
                let pred_type = match self.typecheck(&**pred) {
                    Ok(t) => t,
                    Err(e) => return Err(e),
                };
                let bool_t = Type::Primitive(PrimitiveType::Bool);
                match self.unify(&bool_t, pred_type) {
                    Ok(_) => (),
                    Err(e) => return Err(e),
                }
                match self.typecheck(&**body) {
                    Ok(_) => Ok(Type::Primitive(PrimitiveType::Unit)),
                    Err(e) => Err(e),
                }
            },
            Expr::BinOp(lhs, op, rhs) => {
                let lhs_type = match self.typecheck(&**lhs) {
                    Ok(t) => t,
                    Err(e) => return Err(e),
                };
                let rhs_type = match self.typecheck(&**rhs) {
                    Ok(t) => t,
                    Err(e) => return Err(e),
                };
                match self.unify(&lhs_type, rhs_type.clone()) {
                    Ok(_) => (),
                    Err(e) => return Err(e),
                }
                let int_t = Type::Primitive(PrimitiveType::Int);
                let float_t = Type::Primitive(PrimitiveType::Float);
                if *op == "+".to_owned() || *op == "-".to_owned() || *op == "*".to_owned() {
                    if type_eq(&lhs_type, &int_t) || type_eq(&lhs_type, &float_t) {
                        match self.unify(&int_t, rhs_type) {
                            Ok(_) => Ok(lhs_type),
                            Err(e) => Err(e),
                        }
                    } else if type_eq(&rhs_type, &int_t) || type_eq(&rhs_type, &float_t) {
                        match self.unify(&int_t, lhs_type.clone()) {
                            Ok(_) => Ok(lhs_type),
                            Err(e) => Err(e),
                        }
                    } else {
                        Err(TypeError::TypeError("expected numeric operands".to_owned()))
                    }
                } else if *op == "<".to_owned() || *op == ">".to_owned() || *op == "<=".to_owned()
                    || *op == ">=".to_owned() {
                    Ok(Type::Primitive(PrimitiveType::Bool))
                } else {
                    Err(TypeError::UndefinedVariable(op.clone()))
                }
            },
            Expr::Block(exprs) => {
                let mut typ = Type::Primitive(PrimitiveType::Unit);
                let mut i: usize = 0;
                while i < exprs.len()
                    invariant
                        self.wf(),
                        self.module_spec() == m0,
                        0 <= i <= exprs@.len(),
                        semantics::tc_block(m0, sc0, exprs@, 0, crate::model::unit_type())
                            == semantics::tc_block(
                            m0,
                            self.scope_map(),
                            exprs@,
                            i as int,
                            view_type(typ),
                        ),
                    decreases exprs@.len() - i,
                {
                    typ = match self.typecheck(&exprs[i]) {
                        Ok(t) => t,
                        Err(e) => return Err(e),
                    };
                    i += 1;
                }
                let ghost scm = self.scope_map();
                let mut j: usize = 0;
                while j < exprs.len()
                    invariant
                        self.wf(),
                        self.module_spec() == m0,
                        0 <= j <= exprs@.len(),
                        semantics::remove_block_lets(scm, exprs@, 0)
                            == semantics::remove_block_lets(self.scope_map(), exprs@, j as int),
                    decreases exprs@.len() - j,
                {
                    match &exprs[j] {
                        Expr::Let(id, _) => {
                            self.stack.remove(id);
                        },
                        _ => (),
                    }
                    j += 1;
                }
                Ok(typ)
            },
            Expr::Match(scrutinee, alts) => {
                let scrutinee_type = match self.typecheck(&**scrutinee) {
                    Ok(t) => t,
                    Err(e) => return Err(e),
                };
                match self.typecheck_pattern(&alts[0].pattern, scrutinee_type.clone()) {
                    Ok(_) => (),
                    Err(e) => return Err(e),
                }
                let alt1_type = match self.typecheck(&alts[0].expression) {
                    Ok(t) => t,
                    Err(e) => return Err(e),
                };
                let ghost st = view_type(scrutinee_type);
                let ghost t1 = view_type(alt1_type);
                let ghost sc2 = self.scope_map();
                let mut i: usize = 1;
                while i < alts.len()
                    invariant
                        self.wf(),
                        self.module_spec() == m0,
                        1 <= i <= alts@.len(),
                        semantics::tc_alts(m0, sc2, alts@, st, t1, 1) == semantics::tc_alts(
                            m0,
                            self.scope_map(),
                            alts@,
                            st,
                            t1,
                            i as int,
                        ),
                    decreases alts@.len() - i,
                {
                    match self.typecheck_pattern(&alts[i].pattern, scrutinee_type.clone()) {
                        Ok(_) => (),
                        Err(e) => return Err(e),
                    }
                    let alt_type = match self.typecheck(&alts[0].expression) {
                        Ok(t) => t,
                        Err(e) => return Err(e),
                    };
                    match self.unify(&alt1_type, alt_type) {
                        Ok(_) => (),
                        Err(e) => return Err(e),
                    }
                    i += 1;
                }
                Ok(alt1_type)
            },
            Expr::Let(id, value) => {
                let typ = match self.typecheck(&**value) {
                    Ok(t) => t,
                    Err(e) => return Err(e),
                };
                self.stack_var(id.clone(), typ);
                Ok(Type::Primitive(PrimitiveType::Unit))
            },
            Expr::Assign(target, value) => {
                let rhs_type = match self.typecheck(&**value) {
                    Ok(t) => t,
                    Err(e) => return Err(e),
                };
                let lhs_type = match self.typecheck(&**target) {
                    Ok(t) => t,
                    Err(e) => return Err(e),
                };
                self.unify(&lhs_type, rhs_type)
            },
            Expr::FieldAccess(base, fid) => {
                let typ = match self.typecheck(&**base) {
                    Ok(t) => t,
                    Err(e) => return Err(e),
                };
                match typ {
                    Type::Named(struct_id) => {
                        let s = match self.find_struct(&struct_id) {
                            Ok(s) => s,
                            Err(e) => return Err(e),
                        };
                        let nf = s.fields.len();
                        let mut i: usize = 0;
                        while i < nf
                            invariant
                                0 <= i <= nf,
                                semantics::find_field(s.fields@, fid.name@, 0)
                                    == semantics::find_field(s.fields@, fid.name@, i as int),
                            decreases nf - i,
                        {
                            if s.fields[i].name == fid.name {
                                return Ok(s.fields[i].typ.clone());
                            }
                            i += 1;
                        }
                        Err(TypeError::UndefinedField(struct_id, fid.name.clone()))
                    },
                    Type::Function(..) => Err(
                        TypeError::TypeError("field access on a function type".to_owned()),
                    ),
                    Type::Primitive(..) => Err(
                        TypeError::TypeError("field access on a primitive type".to_owned()),
                    ),
                }
            },
        }
    }

    /// Checks a pattern against the scrutinee type, as
    /// [`semantics::tc_pattern`] states. The scope is left untouched.
    fn typecheck_pattern(&mut self, pattern: &Pattern, match_type: Type) -> (r: Result<
        (),
        TypeError,
    >)
        requires
            old(self).wf(),
        ensures
            final(self).wf(),
            final(self).module_spec() == old(self).module_spec(),
            final(self).scope_map() == old(self).scope_map(),
            view_unit_result(r) == semantics::tc_pattern(
                old(self).module_spec(),
                old(self).scope_map(),
                *pattern,
                view_type(match_type),
            ),
    {
        match pattern {
            Pattern::Constructor(name, _) => {
                let ctor_type = match self.find(name) {
                    Ok(t) => t,
                    Err(e) => return Err(e),
                };
                match ctor_type {
                    Type::Function(_, return_type) => match self.unify(&*return_type, match_type) {
                        Ok(_) => Ok(()),
                        Err(e) => Err(e),
                    },
                    t => match self.unify(&t, match_type) {
                        Ok(_) => Ok(()),
                        Err(e) => Err(e),
                    },
                }
            },
            Pattern::Wildcard => Ok(()),
        }
    }

    /// Checks one function: a fresh scope holding the parameters, the body's
    /// inferred type unified against the declared return type.
    #[verifier::loop_isolation(false)]
    fn typecheck_function(&mut self, function: &Function) -> (r: Result<(), TypeError>)
        requires
            old(self).wf(),
            semantics::wf_expr(function.expression),
        ensures
            final(self).wf(),
            final(self).module_spec() == old(self).module_spec(),
            view_unit_result(r) == semantics::tc_function(old(self).module_spec(), *function),
            final(self).scope_map() == semantics::tc_expr(
                old(self).module_spec(),
                semantics::params_scope(function.arguments@),
                function.expression,
            ).1,
    {
        self.stack.clear();
        let n = function.arguments.len();
        let mut i: usize = 0;
        while i < n
            invariant
                self.wf(),
                self.module_spec() == old(self).module_spec(),
                0 <= i <= n,
                self.scope_map() == semantics::params_scope(function.arguments@.take(i as int)),
            decreases n - i,
        {
            let arg = &function.arguments[i];
            self.stack_var(arg.name.clone(), arg.typ.clone());
            proof {
                assert(function.arguments@.take(i + 1 as int).drop_last() =~= function.arguments@
                    .take(i as int));
            }
            i += 1;
        }
        proof {
            assert(function.arguments@.take(n as int) =~= function.arguments@);
        }
        let return_type = match self.typecheck(&function.expression) {
            Ok(t) => t,
            Err(e) => return Err(e),
        };
        match self.unify(&function.return_type, return_type) {
            Ok(_) => Ok(()),
            Err(e) => Err(e),
        }
    }

    /// Checks every function of `module` in declaration order, resolving
    /// names against the module this checker was built over, and stops at
    /// the first error. `Ok(())` says the whole module is well-typed.
    #[verifier::loop_isolation(false)]
    pub fn typecheck_module(&mut self, module: &Module) -> (r: Result<(), TypeError>)
        requires
            old(self).wf(),
            semantics::wf_module(*module),
        ensures
            final(self).wf(),
            final(self).module_spec() == old(self).module_spec(),
            view_unit_result(r) == semantics::tc_module(old(self).module_spec(), *module),
            final(self).scope_map() == semantics::tc_functions_scope(
                old(self).module_spec(),
                module.functions@,
                0,
                old(self).scope_map(),
            ),
    {
        let ghost m0 = self.module_spec();
        let ghost sc0 = self.scope_map();
        let n = module.functions.len();
        let mut i: usize = 0;
        while i < n
            invariant
                self.wf(),
                self.module_spec() == m0,
                0 <= i <= n,
                semantics::tc_functions(m0, module.functions@, 0) == semantics::tc_functions(
                    m0,
                    module.functions@,
                    i as int,
                ),
                semantics::tc_functions_scope(m0, module.functions@, 0, sc0)
                    == semantics::tc_functions_scope(
                    m0,
                    module.functions@,
                    i as int,
                    self.scope_map(),
                ),
            decreases n - i,
        {
            match self.typecheck_function(&module.functions[i]) {
                Ok(_) => (),
                Err(e) => return Err(e),
            }
            i += 1;
        }
        Ok(())
    }
}

} // verus!
