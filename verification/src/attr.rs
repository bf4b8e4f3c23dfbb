//! The attribute's argument list and the roles it declares.

use vstd::prelude::*;

verus! {

/// One entry of the attribute's comma-separated argument list.
///
/// Only an entry of the shape `key = "text"`, with a plain identifier as key
/// and a string literal as value, can contribute a role. Every other shape is
/// kept only so the extractor can skip it: unrecognized entries are ignored,
/// never rejected.
#[derive(Debug, Clone, PartialEq, Eq)]
pub enum MetaEntry {
    /// `key = "value"`: a plain identifier key paired with a string literal.
    StrPair { key: String, value: String },
    /// Any other entry shape (a bare path, a list, a non-string value, ...).
    Other,
}

/// The attribute key that declares a role.
pub open spec fn role_key() -> Seq<char> {
    "role"@
}

/// The role carried by one entry: the string value of a `role = "..."` pair,
/// nothing for an entry of any other shape or with any other key.
pub open spec fn role_value(e: MetaEntry) -> Option<Seq<char>> {
    match e {
        MetaEntry::StrPair { key, value } => if key@ == role_key() {
            Some(value@)
        } else {
            None
        },
        MetaEntry::Other => None,
    }
}

/// The ordered role sequence declared by an argument list: the values of
/// exactly the `role = "..."` entries, in declaration order, duplicates kept.
pub open spec fn roles_of(entries: Seq<MetaEntry>) -> Seq<Seq<char>>
    decreases entries.len(),
{
    if entries.len() == 0 {
        Seq::empty()
    } else {
        match role_value(entries.last()) {
            Some(v) => roles_of(entries.drop_last()).push(v),
            None => roles_of(entries.drop_last()),
        }
    }
}

/// The views of a vector of strings, in order.
pub open spec fn views_of_strings(v: Seq<String>) -> Seq<Seq<char>> {
    v.map_values(|s: String| s@)
}

/// Collect the declared roles of an argument list, in declaration order,
/// keeping duplicates and silently dropping every entry that is not a
/// string-valued `role` pair.
pub fn extract_roles(entries: &Vec<MetaEntry>) -> (r: Vec<String>)
    ensures
        views_of_strings(r@) == roles_of(entries@),
{
    let role: String = "role".to_owned();
    let mut r: Vec<String> = Vec::new();
    let mut i: usize = 0;
    while i < entries.len()
        invariant
            i <= entries.len(),
            role@ == role_key(),
            views_of_strings(r@) =~= roles_of(entries@.take(i as int)),
        decreases entries.len() - i,
    {
        let ghost prefix = entries@.take(i as int);
        match &entries[i] {
            MetaEntry::StrPair { key, value } => {
                if key.eq(&role) {
                    r.push(value.clone());
                }
            },
            MetaEntry::Other => {},
        }
        proof {
            assert(entries@.take(i + 1).drop_last() =~= prefix);
            assert(entries@.take(i + 1).last() == entries@[i as int]);
        }
        i += 1;
    }
    proof {
        assert(entries@.take(entries@.len() as int) =~= entries@);
    }
    r
}

} // verus!
