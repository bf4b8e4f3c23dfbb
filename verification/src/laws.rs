//! Laws of the rewrite, stated and proved once over all inputs.

use crate::attr::{role_value, roles_of, MetaEntry};
use crate::emit::{emitted_body, TraceStmtV};
use crate::params::{claims_param_name, has_claims_param, ParamV};
use vstd::prelude::*;

verus! {

/// Law: the extracted role sequence is exactly the ordered filter-map of the
/// argument list — the string value of every `role = "..."` entry, in
/// declaration order, with every other entry dropped.
pub proof fn lemma_roles_are_filter_map(entries: Seq<MetaEntry>)
    ensures
        roles_of(entries) =~= entries.filter_map(|e: MetaEntry| role_value(e)),
    decreases entries.len(),
{
    if entries.len() > 0 {
        lemma_roles_are_filter_map(entries.drop_last());
        match role_value(entries.last()) {
            Some(v) => {
                assert(entries.drop_last().filter_map(|e: MetaEntry| role_value(e)).push(v)
                    =~= entries.drop_last().filter_map(|e: MetaEntry| role_value(e)) + seq![v]);
            },
            None => {},
        }
    }
}

/// Law: an argument list without a single `role = "..."` entry yields the
/// empty role sequence, and the emitted body still opens with a statement
/// that prints that (empty) role list.
pub proof fn lemma_no_role_entries(
    entries: Seq<MetaEntry>,
    name: Seq<char>,
    claims: bool,
    body: Seq<char>,
)
    requires
        forall|i: int| 0 <= i < entries.len() ==> role_value(#[trigger] entries[i]) is None,
    ensures
        roles_of(entries) =~= Seq::<Seq<char>>::empty(),
        emitted_body(roles_of(entries), name, claims, body)[0] == (TraceStmtV::PrintRoles {
            roles: Seq::<Seq<char>>::empty(),
        }),
    decreases entries.len(),
{
    if entries.len() > 0 {
        assert(forall|i: int|
            0 <= i < entries.drop_last().len() ==> role_value(
                #[trigger] entries.drop_last()[i],
            ) is None);
        lemma_no_role_entries(entries.drop_last(), name, claims, body);
        assert(role_value(entries.last()) is None);
    }
}

/// How many statements of a wrapper body are claims inspections.
pub open spec fn claims_stmt_count(stmts: Seq<TraceStmtV>) -> nat
    decreases stmts.len(),
{
    if stmts.len() == 0 {
        0
    } else {
        claims_stmt_count(stmts.drop_last()) + if stmts.last() is PrintClaims {
            1nat
        } else {
            0nat
        }
    }
}

/// Appending one statement raises the claims-inspection count exactly when
/// that statement is one.
proof fn lemma_claims_stmt_count_push(stmts: Seq<TraceStmtV>, s: TraceStmtV)
    ensures
        claims_stmt_count(stmts.push(s)) == claims_stmt_count(stmts) + if s is PrintClaims {
            1nat
        } else {
            0nat
        },
{
    assert(stmts.push(s).drop_last() =~= stmts);
    assert(stmts.push(s).last() == s);
}

/// Law: the emitted body holds exactly one claims-inspection statement when
/// some parameter bears the recognized claims-carrier name and none
/// otherwise; when present, the inspection is the third statement and names
/// the recognized carrier, so it reads that parameter's nested roles field.
pub proof fn lemma_claims_instruction(
    roles: Seq<Seq<char>>,
    name: Seq<char>,
    params: Seq<ParamV>,
    body: Seq<char>,
)
    ensures
        claims_stmt_count(emitted_body(roles, name, has_claims_param(params), body))
            == if has_claims_param(params) {
            1nat
        } else {
            0nat
        },
        has_claims_param(params) ==> emitted_body(roles, name, has_claims_param(params), body)[2]
            == (TraceStmtV::PrintClaims { param: claims_param_name() }),
        !has_claims_param(params) ==> forall|i: int|
            0 <= i < emitted_body(roles, name, has_claims_param(params), body).len()
                ==> !(#[trigger] emitted_body(roles, name, has_claims_param(params), body)[i]
                is PrintClaims),
{
    let claims = has_claims_param(params);
    let entry = Seq::empty().push(TraceStmtV::PrintRoles { roles }).push(
        TraceStmtV::PrintEntry { name },
    );
    lemma_claims_stmt_count_push(Seq::empty(), TraceStmtV::PrintRoles { roles });
    lemma_claims_stmt_count_push(
        Seq::empty().push(TraceStmtV::PrintRoles { roles }),
        TraceStmtV::PrintEntry { name },
    );
    let inspected = if claims {
        entry.push(TraceStmtV::PrintClaims { param: claims_param_name() })
    } else {
        entry
    };
    if claims {
        lemma_claims_stmt_count_push(entry, TraceStmtV::PrintClaims { param: claims_param_name() });
    }
    lemma_claims_stmt_count_push(inspected, TraceStmtV::RunBody { body });
    lemma_claims_stmt_count_push(
        inspected.push(TraceStmtV::RunBody { body }),
        TraceStmtV::PrintExit { name },
    );
    lemma_claims_stmt_count_push(
        inspected.push(TraceStmtV::RunBody { body }).push(TraceStmtV::PrintExit { name }),
        TraceStmtV::ReturnResult,
    );
}

} // verus!
