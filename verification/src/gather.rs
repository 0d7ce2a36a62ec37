//! Folding a run of results into one.
use vstd::prelude::*;

verus! {

/// Whether every result is a success.
pub open spec fn all_ok<T, E>(results: Seq<Result<T, E>>) -> bool {
    forall|i: int| 0 <= i < results.len() ==> (#[trigger] results[i]) is Ok
}

/// Whether the result at `i` is the first failure.
pub open spec fn first_failure<T, E>(results: Seq<Result<T, E>>, i: int) -> bool {
    &&& 0 <= i < results.len()
    &&& results[i] is Err
    &&& forall|j: int| 0 <= j < i ==> (#[trigger] results[j]) is Ok
}

/// The values of the successes, each at the place of its result.
pub open spec fn values<T, E>(results: Seq<Result<T, E>>) -> Seq<T> {
    Seq::new(results.len(), |i: int| results[i]->Ok_0)
}

/// The first failure among the results, if there is one.
pub open spec fn failure<T, E>(results: Seq<Result<T, E>>) -> Option<E> {
    if exists|i: int| first_failure(results, i) {
        Some(results[choose|i: int| first_failure(results, i)]->Err_0)
    } else {
        None
    }
}

/// Results fail at one place first, if they fail at all.
pub proof fn lemma_first_failure_unique<T, E>(results: Seq<Result<T, E>>, i: int, j: int)
    requires
        first_failure(results, i),
        first_failure(results, j),
    ensures
        i == j,
{
    if i < j {
        assert(results[i] is Ok);
    } else if j < i {
        assert(results[j] is Ok);
    }
}

/// Results either all succeed or have a first failure.
pub proof fn lemma_ok_or_failure<T, E>(results: Seq<Result<T, E>>)
    ensures
        all_ok(results) != (exists|i: int| first_failure(results, i)),
    decreases results.len(),
{
    if results.len() > 0 {
        let front = results.drop_last();
        lemma_ok_or_failure(front);
        if all_ok(front) {
            if results.last() is Ok {
                assert forall|i: int| 0 <= i < results.len() implies (#[trigger] results[i]) is Ok by {
                    if i < front.len() {
                        assert(front[i] is Ok);
                    }
                }
                assert forall|i: int| !first_failure(results, i) by {
                    if first_failure(results, i) {
                        assert(results[i] is Ok);
                    }
                }
            } else {
                let last = results.len() - 1;
                assert forall|j: int| 0 <= j < last implies (#[trigger] results[j]) is Ok by {
                    assert(front[j] is Ok);
                }
                assert(first_failure(results, last));
                assert(!(results[last] is Ok));
            }
        } else {
            let i = choose|i: int| first_failure(front, i);
            assert(front[i] is Err);
            assert forall|j: int| 0 <= j < i implies (#[trigger] results[j]) is Ok by {
                assert(front[j] is Ok);
            }
            assert(first_failure(results, i));
            assert(!(results[i] is Ok));
        }
    } else {
        assert forall|i: int| !first_failure(results, i) by {}
    }
}

/// The failure of a run of results is the one at the place where they fail
/// first, and there is none where every result is a success.
pub proof fn lemma_failure<T, E>(results: Seq<Result<T, E>>)
    ensures
        all_ok(results) ==> failure(results) is None,
        forall|i: int| #[trigger]
            first_failure(results, i) ==> failure(results) == Some(results[i]->Err_0),
{
    lemma_ok_or_failure(results);
    assert forall|i: int| #[trigger] first_failure(results, i) implies failure(results) == Some(
        results[i]->Err_0,
    ) by {
        let chosen = choose|k: int| first_failure(results, k);
        lemma_first_failure_unique(results, i, chosen);
    }
}

/// Takes the values out of a run of results: all of them where every result
/// is a success, and otherwise the first failure with its place.
pub fn gather<T, E>(results: Vec<Result<T, E>>) -> (folded: Result<Vec<T>, (usize, E)>)
    ensures
        match folded {
            Ok(found) => all_ok(results@) && failure(results@) is None && found@ == values(
                results@,
            ),
            Err((i, error)) => first_failure(results@, i as int) && results@[i as int] == Err::<
                T,
                E,
            >(error) && failure(results@) == Some(error),
        },
{
    proof {
        lemma_failure(results@);
    }
    let mut found: Vec<T> = Vec::new();
    let ghost all = results@;
    for item in iter: results
        invariant
            iter.seq() == all,
            found@.len() == iter.index(),
            forall|j: int| 0 <= j < iter.index() ==> (#[trigger] all[j]) == Ok::<T, E>(found@[j]),
    {
        match item {
            Ok(value) => {
                found.push(value);
            },
            Err(error) => {
                return Err((found.len(), error));
            },
        }
    }
    proof {
        assert(found@ =~= values(all));
    }
    Ok(found)
}

} // verus!
