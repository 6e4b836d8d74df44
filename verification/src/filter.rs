//! Field filter: restricts a component's per-field entries to a requested
//! subset of field names. An empty request keeps everything; otherwise an
//! entry is kept exactly when its name occurs in the request (case-sensitive),
//! the original relative order is preserved, and duplicates in the request
//! do not duplicate matches.

use vstd::prelude::*;

use crate::snapshot::{FieldBytes, FieldBytesV};

verus! {

/// Views of the requested field names.
pub open spec fn names_of(requested: Seq<String>) -> Seq<Seq<char>> {
    requested.map_values(|s: String| s@)
}

/// Whether an entry named `name` survives a filter for `requested`: an empty
/// request retains everything, otherwise exact membership decides.
pub open spec fn retained(requested: Seq<Seq<char>>, name: Seq<char>) -> bool {
    requested.len() == 0 || requested.contains(name)
}

/// The retained subsequence of `available`, in its original order.
pub open spec fn spec_filter_fields(
    available: Seq<FieldBytesV>,
    requested: Seq<Seq<char>>,
) -> Seq<FieldBytesV> {
    available.filter(|fb: FieldBytesV| retained(requested, fb.field_name))
}

/// Whether `name` occurs in `requested`, by exact case-sensitive equality.
fn contains_name(requested: &Vec<String>, name: &String) -> (r: bool)
    ensures
        r == names_of(requested@).contains(name@),
{
    let ghost names = names_of(requested@);
    let n = requested.len();
    for j in 0..n
        invariant
            n == requested@.len(),
            names == names_of(requested@),
            forall|k: int| 0 <= k < j ==> names[k] != name@,
    {
        if requested[j] == *name {
            assert(names[j as int] == name@);
            return true;
        }
    }
    assert(!names.contains(name@));
    false
}

/// Restrict `available` to the entries whose name the caller requested.
/// With an empty request the result is `available` unchanged; otherwise it is
/// the subsequence of `available` whose names are members of `requested`.
pub fn filter_fields(available: &Vec<FieldBytes>, requested: &Vec<String>) -> (r: Vec<FieldBytes>)
    ensures
        r@.map_values(|f: FieldBytes| f@) == spec_filter_fields(
            available@.map_values(|f: FieldBytes| f@),
            names_of(requested@),
        ),
        forall|i: int|
            0 <= i < r@.len() ==> available@.map_values(|f: FieldBytes| f@).contains(
                #[trigger] r@[i]@,
            ),
{
    let ghost avail = available@.map_values(|f: FieldBytes| f@);
    let ghost names = names_of(requested@);
    let ghost pred = |fb: FieldBytesV| retained(names, fb.field_name);
    let mut r: Vec<FieldBytes> = Vec::new();
    let n = available.len();
    for i in 0..n
        invariant
            n == available@.len(),
            avail == available@.map_values(|f: FieldBytes| f@),
            names == names_of(requested@),
            pred == (|fb: FieldBytesV| retained(names, fb.field_name)),
            r@.map_values(|f: FieldBytes| f@) == avail.take(i as int).filter(pred),
            forall|k: int| 0 <= k < r@.len() ==> avail.contains(#[trigger] r@[k]@),
    {
        let keep = if requested.len() == 0 {
            true
        } else {
            contains_name(requested, &available[i].field_name)
        };
        proof {
            assert(avail[i as int] == available@[i as int]@);
            assert(keep == pred(avail[i as int]));
            reveal(Seq::filter);
            assert(avail.take(i + 1).drop_last() =~= avail.take(i as int));
            assert(avail.take(i + 1).last() == avail[i as int]);
        }
        if keep {
            r.push(
                FieldBytes { field_name: available[i].field_name.clone(), bytes: available[i].bytes },
            );
            proof {
                assert(r@.map_values(|f: FieldBytes| f@) =~= avail.take(i as int).filter(
                    pred,
                ).push(avail[i as int]));
                assert(avail.contains(avail[i as int]));
            }
        }
    }
    proof {
        assert(avail.take(n as int) =~= avail);
    }
    r
}

/// Every entry of a filter's result is an entry of `available`.
pub proof fn lemma_filter_elements_from(
    available: Seq<FieldBytesV>,
    requested: Seq<Seq<char>>,
    k: int,
)
    requires
        0 <= k < spec_filter_fields(available, requested).len(),
    ensures
        available.contains(spec_filter_fields(available, requested)[k]),
    decreases available.len(),
{
    reveal(Seq::filter);
    let kept = spec_filter_fields(available, requested);
    if available.len() > 0 {
        let sub = spec_filter_fields(available.drop_last(), requested);
        if retained(requested, available.last().field_name) && k == kept.len() - 1 {
            assert(kept[k] == available.last());
            assert(available[available.len() - 1] == available.last());
        } else {
            lemma_filter_elements_from(available.drop_last(), requested, k);
            let j = choose|j: int|
                0 <= j < available.drop_last().len() && available.drop_last()[j] == sub[k];
            assert(available[j] == sub[k]);
        }
    }
}

/// Filtering with a request that names every field actually present yields
/// exactly the same entries as filtering with an empty request: everything,
/// in its original order.
pub proof fn lemma_filter_all_present(available: Seq<FieldBytesV>, requested: Seq<Seq<char>>)
    requires
        forall|i: int|
            0 <= i < available.len() ==> requested.contains(
                (#[trigger] available[i]).field_name,
            ),
    ensures
        spec_filter_fields(available, requested) == available,
        spec_filter_fields(available, requested) == spec_filter_fields(
            available,
            Seq::<Seq<char>>::empty(),
        ),
    decreases available.len(),
{
    reveal(Seq::filter);
    if available.len() > 0 {
        lemma_filter_all_present(available.drop_last(), requested);
        assert(spec_filter_fields(available, requested) =~= available);
        assert(spec_filter_fields(available, Seq::<Seq<char>>::empty()) =~= available);
    } else {
        assert(spec_filter_fields(available, requested) =~= available);
        assert(spec_filter_fields(available, Seq::<Seq<char>>::empty()) =~= available);
    }
}

/// Filtering with a non-empty request none of whose names occurs in
/// `available` retains nothing, and is not an error.
pub proof fn lemma_filter_absent(available: Seq<FieldBytesV>, requested: Seq<Seq<char>>)
    requires
        requested.len() > 0,
        forall|i: int|
            0 <= i < available.len() ==> !requested.contains(
                (#[trigger] available[i]).field_name,
            ),
    ensures
        spec_filter_fields(available, requested).len() == 0,
    decreases available.len(),
{
    reveal(Seq::filter);
    if available.len() > 0 {
        lemma_filter_absent(available.drop_last(), requested);
    }
}

} // verus!
