use vstd::prelude::*;

verus! {

/// The position of the first `true` in `marks`, or `None` when there is none.
pub open spec fn first_true(marks: Seq<bool>) -> Option<int>
    decreases marks.len(),
{
    if marks.len() == 0 {
        None
    } else {
        match first_true(marks.drop_last()) {
            Some(i) => Some(i),
            None => if marks.last() {
                Some(marks.len() - 1)
            } else {
                None
            },
        }
    }
}

/// `first_true` gives the earliest marked position, and `None` only when
/// nothing is marked.
pub proof fn lemma_first_true(marks: Seq<bool>)
    ensures
        match first_true(marks) {
            Some(i) => 0 <= i < marks.len() && marks[i] && forall|j: int|
                0 <= j < i ==> !#[trigger] marks[j],
            None => forall|j: int| 0 <= j < marks.len() ==> !#[trigger] marks[j],
        },
    decreases marks.len(),
{
    if marks.len() > 0 {
        let rest = marks.drop_last();
        lemma_first_true(rest);
        assert forall|j: int| 0 <= j < rest.len() implies rest[j] == marks[j] by {}
    }
}

/// Any earliest marked position is the one `first_true` gives.
pub proof fn lemma_first_true_is(marks: Seq<bool>, i: int)
    requires
        0 <= i < marks.len(),
        marks[i],
        forall|j: int| 0 <= j < i ==> !#[trigger] marks[j],
    ensures
        first_true(marks) == Some(i),
{
    lemma_first_true(marks);
    match first_true(marks) {
        Some(k) => {
            if k < i {
                assert(!marks[k]);
            } else if k > i {
                assert(!marks[i]);
            }
        },
        None => {
            assert(!marks[i]);
        },
    }
}

/// Looking at one more element: the first mark of `marks.take(k + 1)`.
pub proof fn lemma_first_true_step(marks: Seq<bool>, k: int)
    requires
        0 <= k < marks.len(),
    ensures
        first_true(marks.take(k + 1)) == match first_true(marks.take(k)) {
            Some(i) => Some(i),
            None => if marks[k] {
                Some(k)
            } else {
                None
            },
        },
{
    assert(marks.take(k + 1).drop_last() =~= marks.take(k));
}

/// Once a prefix holds a mark, the rest of the sequence does not change the answer.
pub proof fn lemma_first_true_prefix(marks: Seq<bool>, k: int)
    requires
        0 <= k <= marks.len(),
        first_true(marks.take(k)) is Some,
    ensures
        first_true(marks) == first_true(marks.take(k)),
{
    let p = marks.take(k);
    lemma_first_true(p);
    let i = first_true(p)->0;
    assert(p[i] == marks[i]);
    assert forall|j: int| 0 <= j < i implies !#[trigger] marks[j] by {
        assert(p[j] == marks[j]);
    }
    lemma_first_true_is(marks, i);
}

/// The whole sequence is its own longest prefix.
pub proof fn lemma_first_true_full(marks: Seq<bool>)
    ensures
        first_true(marks.take(marks.len() as int)) == first_true(marks),
{
    assert(marks.take(marks.len() as int) =~= marks);
}

} // verus!
