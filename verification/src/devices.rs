//! Device directory: ordering of enumerated output endpoints.
//!
//! A backend enumerates its active render endpoints as two parallel lists
//! (user-facing display names and backend-specific identifiers) plus the
//! identifier of the system default endpoint.  The directory reorders the
//! enumeration so the default endpoint comes first and fails with
//! [`Error::NoDeviceFound`] when the backend reports zero endpoints.

use vstd::prelude::*;
use crate::errors::Error;

verus! {

/// The first `k` entries of `xs`, reordered as the directory does while
/// scanning the enumeration in order: an entry whose identifier is the
/// default identifier is moved to the front, every other entry keeps the
/// enumeration order at the back.
pub open spec fn ordered_prefix(
    xs: Seq<Seq<char>>,
    ids: Seq<Seq<char>>,
    def: Seq<char>,
    k: int,
) -> Seq<Seq<char>>
    decreases k,
{
    if k <= 0 {
        Seq::empty()
    } else if ids[k - 1] == def {
        seq![xs[k - 1]] + ordered_prefix(xs, ids, def, k - 1)
    } else {
        ordered_prefix(xs, ids, def, k - 1).push(xs[k - 1])
    }
}

/// The reordering keeps the number of entries.
pub proof fn lemma_ordered_prefix_len(
    xs: Seq<Seq<char>>,
    ids: Seq<Seq<char>>,
    def: Seq<char>,
    k: int,
)
    requires
        0 <= k,
    ensures
        ordered_prefix(xs, ids, def, k).len() == k,
    decreases k,
{
    if k > 0 {
        lemma_ordered_prefix_len(xs, ids, def, k - 1);
    }
}

/// If any enumerated entry carries the default identifier, the reordered
/// identifier list starts with the default identifier: the directory places
/// the system default endpoint first.
pub proof fn lemma_default_first(ids: Seq<Seq<char>>, def: Seq<char>, k: int)
    requires
        0 <= k,
        exists|i: int| 0 <= i < k && ids[i] == def,
    ensures
        ordered_prefix(ids, ids, def, k).len() > 0,
        ordered_prefix(ids, ids, def, k)[0] == def,
    decreases k,
{
    lemma_ordered_prefix_len(ids, ids, def, k);
    if ids[k - 1] == def {
    } else {
        let i = choose|i: int| 0 <= i < k && ids[i] == def;
        assert(0 <= i < k - 1 && ids[i] == def);
        lemma_default_first(ids, def, k - 1);
    }
}

/// Reorder one enumeration so the default endpoint comes first.
///
/// Returns the reordered display names and identifiers, or
/// `Error::NoDeviceFound` when the enumeration is empty.
pub fn list_devices(names: &Vec<String>, ids: &Vec<String>, default_id: &String) -> (r: Result<
    (Vec<String>, Vec<String>),
    Error,
>)
    requires
        names@.len() == ids@.len(),
    ensures
        match r {
            Ok(p) => {
                &&& names@.len() > 0
                &&& p.0.deep_view() == ordered_prefix(
                    names.deep_view(),
                    ids.deep_view(),
                    default_id@,
                    names@.len() as int,
                )
                &&& p.1.deep_view() == ordered_prefix(
                    ids.deep_view(),
                    ids.deep_view(),
                    default_id@,
                    ids@.len() as int,
                )
                &&& p.0@.len() == names@.len()
                &&& p.1@.len() == ids@.len()
            },
            Err(e) => names@.len() == 0 && e matches Error::NoDeviceFound,
        },
{
    if names.len() == 0 {
        return Err(Error::NoDeviceFound);
    }
    let n = names.len();
    let mut out_names: Vec<String> = Vec::new();
    let mut out_ids: Vec<String> = Vec::new();
    let mut i: usize = 0;
    while i < n
        invariant
            n == names@.len() == ids@.len(),
            i <= n,
            out_names@.len() == i,
            out_ids@.len() == i,
            out_names.deep_view() == ordered_prefix(
                names.deep_view(),
                ids.deep_view(),
                default_id@,
                i as int,
            ),
            out_ids.deep_view() == ordered_prefix(
                ids.deep_view(),
                ids.deep_view(),
                default_id@,
                i as int,
            ),
        decreases n - i,
    {
        proof {
            lemma_ordered_prefix_len(
                names.deep_view(),
                ids.deep_view(),
                default_id@,
                i + 1,
            );
            lemma_ordered_prefix_len(
                ids.deep_view(),
                ids.deep_view(),
                default_id@,
                i + 1,
            );
        }
        let name = names[i].clone();
        let id = ids[i].clone();
        if id.eq(default_id) {
            out_names.insert(0, name);
            out_ids.insert(0, id);
        } else {
            out_names.push(name);
            out_ids.push(id);
        }
        assert(out_names.deep_view() =~~= ordered_prefix(
            names.deep_view(),
            ids.deep_view(),
            default_id@,
            i + 1,
        ));
        assert(out_ids.deep_view() =~~= ordered_prefix(
            ids.deep_view(),
            ids.deep_view(),
            default_id@,
            i + 1,
        ));
        i = i + 1;
    }
    Ok((out_names, out_ids))
}

/// Whether a display name occurs in a capability list.
pub fn contains_name(names: &Vec<String>, wanted: &str) -> (r: bool)
    ensures
        r == exists|i: int| 0 <= i < names@.len() && (#[trigger] names@[i])@ == wanted@,
{
    let w: String = wanted.to_owned();
    let n = names.len();
    let mut i: usize = 0;
    while i < n
        invariant
            n == names@.len(),
            i <= n,
            w@ == wanted@,
            forall|j: int| 0 <= j < i ==> (#[trigger] names@[j])@ != wanted@,
        decreases n - i,
    {
        if names[i].eq(&w) {
            return true;
        }
        i = i + 1;
    }
    false
}

/// Whether index `i` is the first enumeration entry whose display name is
/// `wanted`, and `id` is the identifier paired with it.
pub open spec fn is_first_match(
    names: Seq<Seq<char>>,
    ids: Seq<Seq<char>>,
    wanted: Seq<char>,
    id: Seq<char>,
    i: int,
) -> bool {
    &&& 0 <= i < names.len()
    &&& names[i] == wanted
    &&& ids[i] == id
    &&& forall|j: int| 0 <= j < i ==> names[j] != wanted
}

/// Whether some index is the first match for `wanted` and pairs it with `id`.
pub open spec fn has_first_match(
    names: Seq<Seq<char>>,
    ids: Seq<Seq<char>>,
    wanted: Seq<char>,
    id: Seq<char>,
) -> bool {
    exists|i: int| #[trigger] is_first_match(names, ids, wanted, id, i)
}

/// Find the identifier paired with a display name: the identifier of the
/// first enumeration entry whose name matches, or `Error::DeviceNotFound`
/// carrying the name when no entry matches.
pub fn id_for_name(names: &Vec<String>, ids: &Vec<String>, wanted: &String) -> (r: Result<
    String,
    Error,
>)
    requires
        names@.len() == ids@.len(),
    ensures
        match r {
            Ok(id) => has_first_match(names.deep_view(), ids.deep_view(), wanted@, id@),
            Err(e) => {
                &&& forall|i: int| 0 <= i < names@.len() ==> names@[i]@ != wanted@
                &&& e matches Error::DeviceNotFound(d) && d@ == wanted@
            },
        },
{
    let n = names.len();
    let mut i: usize = 0;
    while i < n
        invariant
            n == names@.len() == ids@.len(),
            i <= n,
            forall|j: int| 0 <= j < i ==> names@[j]@ != wanted@,
        decreases n - i,
    {
        if names[i].eq(wanted) {
            let id = ids[i].clone();
            proof {
                assert(is_first_match(
                    names.deep_view(),
                    ids.deep_view(),
                    wanted@,
                    id@,
                    i as int,
                ));
                assert(has_first_match(names.deep_view(), ids.deep_view(), wanted@, id@));
            }
            return Ok(id);
        }
        i = i + 1;
    }
    Err(Error::DeviceNotFound(wanted.clone()))
}

} // verus!
