//! All-or-nothing conversion of a list of records.

use vstd::prelude::*;

verus! {

/// The outcome of converting every record of a list, given the outcome for
/// each: the converted records in order if every one succeeded, else the
/// failure of the first that did not. A failure is the token that was
/// refused.
pub open spec fn all_or_first_error<T>(outcomes: Seq<Result<T, Seq<char>>>) -> Result<
    Seq<T>,
    Seq<char>,
>
    decreases outcomes.len(),
{
    if outcomes.len() == 0 {
        Ok(Seq::empty())
    } else {
        match all_or_first_error(outcomes.drop_last()) {
            Err(token) => Err(token),
            Ok(items) => match outcomes.last() {
                Ok(item) => Ok(items.push(item)),
                Err(token) => Err(token),
            },
        }
    }
}

/// A failure among the first `k` outcomes is the failure of the whole list.
pub proof fn lemma_error_persists<T>(outcomes: Seq<Result<T, Seq<char>>>, k: int)
    requires
        0 <= k <= outcomes.len(),
        all_or_first_error(outcomes.take(k)) is Err,
    ensures
        all_or_first_error(outcomes) == all_or_first_error(outcomes.take(k)),
    decreases outcomes.len() - k,
{
    if k < outcomes.len() {
        assert(outcomes.take(k + 1).drop_last() =~= outcomes.take(k));
        lemma_error_persists(outcomes, k + 1);
    } else {
        assert(outcomes.take(k) =~= outcomes);
    }
}

/// The conversion succeeds exactly if every record does, and then keeps
/// number and order; it fails with the failure of the first record that
/// fails.
pub proof fn lemma_all_or_first_error<T>(outcomes: Seq<Result<T, Seq<char>>>)
    ensures
        match all_or_first_error(outcomes) {
            Ok(items) => {
                &&& items.len() == outcomes.len()
                &&& forall|i: int| 0 <= i < outcomes.len() ==> outcomes[i] == Ok::<T, Seq<char>>(items[i])
            },
            Err(token) => exists|i: int|
                {
                    &&& 0 <= i < outcomes.len()
                    &&& #[trigger] outcomes[i] == Err::<T, Seq<char>>(token)
                    &&& forall|j: int| 0 <= j < i ==> (#[trigger] outcomes[j]) is Ok
                },
        },
    decreases outcomes.len(),
{
    if outcomes.len() > 0 {
        let front = outcomes.drop_last();
        lemma_all_or_first_error(front);
        match all_or_first_error(front) {
            Err(token) => {
                let i = choose|i: int|
                    {
                        &&& 0 <= i < front.len()
                        &&& #[trigger] front[i] == Err::<T, Seq<char>>(token)
                        &&& forall|j: int| 0 <= j < i ==> (#[trigger] front[j]) is Ok
                    };
                assert(outcomes[i] == front[i]);
                assert forall|j: int| 0 <= j < i implies (#[trigger] outcomes[j]) is Ok by {
                    assert(outcomes[j] == front[j]);
                }
            },
            Ok(items) => {
                match outcomes.last() {
                    Ok(item) => {
                        assert forall|i: int| 0 <= i < outcomes.len() implies outcomes[i] == Ok::<
                            T,
                            Seq<char>,
                        >(items.push(item)[i]) by {
                            if i < front.len() {
                                assert(outcomes[i] == front[i]);
                            }
                        }
                    },
                    Err(token) => {
                        let i = outcomes.len() - 1;
                        assert(outcomes[i] == Err::<T, Seq<char>>(token));
                        assert forall|j: int| 0 <= j < i implies (#[trigger] outcomes[j]) is Ok by {
                            assert(outcomes[j] == front[j]);
                        }
                    },
                }
            },
        }
    }
}

} // verus!
