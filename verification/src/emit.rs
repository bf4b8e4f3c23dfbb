//! The decorated function's descriptor and the wrapped function it becomes.

use crate::attr::{roles_of, views_of_strings, MetaEntry};
use crate::params::{claims_param_name, has_claims_param, find_claims_param, params_view, Param,
    ParamV};
use vstd::prelude::*;

verus! {

/// The decorated function, reduced to what the rewrite reads and copies.
///
/// Every fragment is verbatim source text — the attribute lines, the
/// visibility qualifier, the return-type clause, the body block — except the
/// parameter list, which keeps per-parameter structure so the claims carrier
/// can be recognized. The rewrite copies every fragment unchanged; only the
/// body is wrapped.
#[derive(Debug, Clone, PartialEq, Eq)]
pub struct FnDescriptor {
    /// The function's pre-existing attributes, one verbatim line each.
    pub attrs: Vec<String>,
    /// The visibility qualifier, possibly empty.
    pub vis: String,
    /// The function's name.
    pub name: String,
    /// The parameter list, in declaration order.
    pub params: Vec<Param>,
    /// The return-type clause (`-> T`), possibly empty.
    pub ret: String,
    /// The body block, verbatim.
    pub body: String,
}

/// The mathematical value of a [`FnDescriptor`].
pub struct FnDescriptorV {
    pub attrs: Seq<Seq<char>>,
    pub vis: Seq<char>,
    pub name: Seq<char>,
    pub params: Seq<ParamV>,
    pub ret: Seq<char>,
    pub body: Seq<char>,
}

impl View for FnDescriptor {
    type V = FnDescriptorV;

    open spec fn view(&self) -> FnDescriptorV {
        FnDescriptorV {
            attrs: views_of_strings(self.attrs@),
            vis: self.vis@,
            name: self.name@,
            params: params_view(self.params@),
            ret: self.ret@,
            body: self.body@,
        }
    }
}

/// One statement of the emitted wrapper body, in emission order.
#[derive(Debug, Clone, PartialEq, Eq)]
pub enum TraceStmt {
    /// Print the declared role list, in declaration order.
    PrintRoles { roles: Vec<String> },
    /// Print an entry trace naming the function.
    PrintEntry { name: String },
    /// Print the `claims.roles` field nested in the parameter named here.
    PrintClaims { param: String },
    /// Run the original body as a value-producing sub-block and bind its
    /// value.
    RunBody { body: String },
    /// Print an exit trace naming the function and the bound value.
    PrintExit { name: String },
    /// Produce the bound value as the wrapper's own result.
    ReturnResult,
}

/// The mathematical value of a [`TraceStmt`].
pub enum TraceStmtV {
    PrintRoles { roles: Seq<Seq<char>> },
    PrintEntry { name: Seq<char> },
    PrintClaims { param: Seq<char> },
    RunBody { body: Seq<char> },
    PrintExit { name: Seq<char> },
    ReturnResult,
}

impl View for TraceStmt {
    type V = TraceStmtV;

    open spec fn view(&self) -> TraceStmtV {
        match self {
            TraceStmt::PrintRoles { roles } => (TraceStmtV::PrintRoles {
                roles: views_of_strings(roles@),
            }),
            TraceStmt::PrintEntry { name } => (TraceStmtV::PrintEntry { name: name@ }),
            TraceStmt::PrintClaims { param } => (TraceStmtV::PrintClaims { param: param@ }),
            TraceStmt::RunBody { body } => (TraceStmtV::RunBody { body: body@ }),
            TraceStmt::PrintExit { name } => (TraceStmtV::PrintExit { name: name@ }),
            TraceStmt::ReturnResult => TraceStmtV::ReturnResult,
        }
    }
}

/// The rewritten function: the original signature fragments, copied
/// unchanged, around the emitted wrapper body.
#[derive(Debug, Clone, PartialEq, Eq)]
pub struct WrappedFn {
    pub attrs: Vec<String>,
    pub vis: String,
    pub name: String,
    pub params: Vec<Param>,
    pub ret: String,
    pub body: Vec<TraceStmt>,
}

/// The mathematical value of a [`WrappedFn`].
pub struct WrappedFnV {
    pub attrs: Seq<Seq<char>>,
    pub vis: Seq<char>,
    pub name: Seq<char>,
    pub params: Seq<ParamV>,
    pub ret: Seq<char>,
    pub body: Seq<TraceStmtV>,
}

impl View for WrappedFn {
    type V = WrappedFnV;

    open spec fn view(&self) -> WrappedFnV {
        WrappedFnV {
            attrs: views_of_strings(self.attrs@),
            vis: self.vis@,
            name: self.name@,
            params: params_view(self.params@),
            ret: self.ret@,
            body: self.body@.map_values(|t: TraceStmt| t@),
        }
    }
}

/// The wrapper body emitted for a function: print the roles, print an entry
/// trace, print the claims carrier when one is present, run the original
/// body and bind its value, print an exit trace, produce the value.
pub open spec fn emitted_body(
    roles: Seq<Seq<char>>,
    name: Seq<char>,
    claims: bool,
    body: Seq<char>,
) -> Seq<TraceStmtV> {
    let entry = Seq::empty().push(TraceStmtV::PrintRoles { roles }).push(
        TraceStmtV::PrintEntry { name },
    );
    let inspected = if claims {
        entry.push(TraceStmtV::PrintClaims { param: claims_param_name() })
    } else {
        entry
    };
    inspected.push(TraceStmtV::RunBody { body }).push(TraceStmtV::PrintExit { name }).push(
        TraceStmtV::ReturnResult,
    )
}

/// Copy a vector of strings.
fn clone_strings(v: &Vec<String>) -> (r: Vec<String>)
    ensures
        r@ == v@,
{
    let mut r: Vec<String> = Vec::new();
    let mut i: usize = 0;
    while i < v.len()
        invariant
            i <= v.len(),
            r@ =~= v@.take(i as int),
        decreases v.len() - i,
    {
        r.push(v[i].clone());
        i += 1;
    }
    proof {
        assert(v@.take(v@.len() as int) =~= v@);
    }
    r
}

/// Copy one parameter.
fn clone_param(p: &Param) -> (r: Param)
    ensures
        r == *p,
{
    match p {
        Param::Receiver { tokens } => (Param::Receiver { tokens: tokens.clone() }),
        Param::Named { name, tokens } => (Param::Named {
            name: name.clone(),
            tokens: tokens.clone(),
        }),
        Param::Unnamed { tokens } => (Param::Unnamed { tokens: tokens.clone() }),
    }
}

/// Copy a parameter list.
fn clone_params(v: &Vec<Param>) -> (r: Vec<Param>)
    ensures
        r@ == v@,
{
    let mut r: Vec<Param> = Vec::new();
    let mut i: usize = 0;
    while i < v.len()
        invariant
            i <= v.len(),
            r@ =~= v@.take(i as int),
        decreases v.len() - i,
    {
        r.push(clone_param(&v[i]));
        i += 1;
    }
    proof {
        assert(v@.take(v@.len() as int) =~= v@);
    }
    r
}

/// Rewrite one decorated function.
///
/// The result keeps the original's attributes, visibility, name, parameter
/// list and return type exactly, and carries the emitted wrapper body: the
/// roles declared by the attribute's argument list in declaration order, an
/// entry trace, a claims inspection exactly when some parameter bears the
/// recognized claims-carrier name, the original body as a value-producing
/// sub-block, an exit trace, and the produced value as the result.
pub fn check_roles(entries: &Vec<MetaEntry>, func: &FnDescriptor) -> (r: WrappedFn)
    ensures
        r@.attrs == func@.attrs,
        r@.vis == func@.vis,
        r@.name == func@.name,
        r@.params == func@.params,
        r@.ret == func@.ret,
        r@.body == emitted_body(
            roles_of(entries@),
            func@.name,
            has_claims_param(func@.params),
            func@.body,
        ),
{
    let roles = crate::attr::extract_roles(entries);
    let has_claims = find_claims_param(&func.params).is_some();
    let mut body: Vec<TraceStmt> = Vec::new();
    body.push(TraceStmt::PrintRoles { roles });
    body.push(TraceStmt::PrintEntry { name: func.name.clone() });
    if has_claims {
        body.push(TraceStmt::PrintClaims { param: "jwt_guard".to_owned() });
    }
    body.push(TraceStmt::RunBody { body: func.body.clone() });
    body.push(TraceStmt::PrintExit { name: func.name.clone() });
    body.push(TraceStmt::ReturnResult);
    let r = WrappedFn {
        attrs: clone_strings(&func.attrs),
        vis: func.vis.clone(),
        name: func.name.clone(),
        params: clone_params(&func.params),
        ret: func.ret.clone(),
        body,
    };
    proof {
        assert(r@.body =~= emitted_body(
            roles_of(entries@),
            func@.name,
            has_claims_param(func@.params),
            func@.body,
        ));
    }
    r
}

} // verus!
