//! The decorated function's parameters and the claims-carrier search.

use vstd::prelude::*;

verus! {

/// One parameter of the decorated function, as the rewrite sees it.
///
/// `tokens` is the parameter's verbatim source text; the rewrite copies it
/// unchanged into the emitted signature. Only a typed parameter bound to a
/// plain identifier exposes a `name` the claims-carrier search can match.
#[derive(Debug, Clone, PartialEq, Eq)]
pub enum Param {
    /// The receiver (`self` in any of its forms).
    Receiver { tokens: String },
    /// A typed parameter whose binding pattern is a plain identifier.
    Named { name: String, tokens: String },
    /// A typed parameter with any other binding pattern.
    Unnamed { tokens: String },
}

/// The mathematical value of a [`Param`].
pub enum ParamV {
    Receiver { tokens: Seq<char> },
    Named { name: Seq<char>, tokens: Seq<char> },
    Unnamed { tokens: Seq<char> },
}

impl View for Param {
    type V = ParamV;

    open spec fn view(&self) -> ParamV {
        match self {
            Param::Receiver { tokens } => ParamV::Receiver { tokens: tokens@ },
            Param::Named { name, tokens } => ParamV::Named { name: name@, tokens: tokens@ },
            Param::Unnamed { tokens } => ParamV::Unnamed { tokens: tokens@ },
        }
    }
}

/// The recognized name of a claims-carrier parameter.
pub open spec fn claims_param_name() -> Seq<char> {
    "jwt_guard"@
}

/// Whether a parameter is a claims carrier: a typed parameter bound to a
/// plain identifier that is exactly the recognized claims-carrier name.
pub open spec fn is_claims_param(p: ParamV) -> bool {
    match p {
        ParamV::Named { name, .. } => name == claims_param_name(),
        _ => false,
    }
}

/// The views of a parameter list, in order.
pub open spec fn params_view(ps: Seq<Param>) -> Seq<ParamV> {
    ps.map_values(|p: Param| p@)
}

/// Whether some parameter of the list is a claims carrier.
pub open spec fn has_claims_param(ps: Seq<ParamV>) -> bool {
    exists|i: int| 0 <= i < ps.len() && is_claims_param(ps[i])
}

/// Find the first claims-carrier parameter, if any: the first typed parameter
/// bound to the recognized claims-carrier name. Returns its position, and
/// nothing when no parameter matches.
pub fn find_claims_param(ps: &Vec<Param>) -> (r: Option<usize>)
    ensures
        match r {
            Some(i) => i < ps@.len() && is_claims_param(ps@[i as int]@) && (forall|j: int|
                0 <= j < i ==> !is_claims_param(ps@[j]@)),
            None => forall|j: int| 0 <= j < ps@.len() ==> !is_claims_param(ps@[j]@),
        },
        (r is Some) == has_claims_param(params_view(ps@)),
{
    let carrier: String = "jwt_guard".to_owned();
    let mut i: usize = 0;
    while i < ps.len()
        invariant
            i <= ps.len(),
            carrier@ == claims_param_name(),
            forall|j: int| 0 <= j < i ==> !is_claims_param(ps@[j]@),
        decreases ps.len() - i,
    {
        match &ps[i] {
            Param::Named { name, tokens: _ } => {
                if name.eq(&carrier) {
                    proof {
                        assert(is_claims_param(params_view(ps@)[i as int]));
                    }
                    return Some(i);
                }
            },
            _ => {},
        }
        i += 1;
    }
    proof {
        assert(forall|j: int| 0 <= j < ps@.len() ==> params_view(ps@)[j] == ps@[j]@);
    }
    None
}

} // verus!
