//! What the order of protocol versions and their negotiation come to, character
//! by character and date by date.

use vstd::prelude::*;
use crate::version::{
    best_mutual, best_version, lemma_best_version_exists, lemma_text_order_reflexive, lists,
    mutual, text_at_most,
};

verus! {

/// The first difference decides which of two texts comes first: the one with the
/// smaller character there.
pub proof fn law_first_difference_decides(a: Seq<char>, b: Seq<char>, i: int)
    requires
        0 <= i < a.len(),
        i < b.len(),
        forall|j: int| 0 <= j < i ==> a[j] == b[j],
        (a[i] as int) < (b[i] as int),
    ensures
        text_at_most(a, b),
        !text_at_most(b, a),
    decreases i,
{
    if i > 0 {
        let (x, y) = (a.drop_first(), b.drop_first());
        assert forall|j: int| 0 <= j < i - 1 implies x[j] == y[j] by {
            assert(x[j] == a[j + 1] && y[j] == b[j + 1]);
        }
        law_first_difference_decides(x, y, i - 1);
    }
}

/// A text comes before every longer text that begins with it.
pub proof fn law_beginning_comes_first(a: Seq<char>, b: Seq<char>)
    requires
        a.len() < b.len(),
        forall|j: int| 0 <= j < a.len() ==> a[j] == b[j],
    ensures
        text_at_most(a, b),
        !text_at_most(b, a),
    decreases a.len(),
{
    if a.len() > 0 {
        let (x, y) = (a.drop_first(), b.drop_first());
        assert forall|j: int| 0 <= j < x.len() implies x[j] == y[j] by {
            assert(x[j] == a[j + 1] && y[j] == b[j + 1]);
        }
        law_beginning_comes_first(x, y);
    }
}

/// A date: four digits of the year, two of the month and two of the day, with a
/// hyphen between them.
pub open spec fn is_date(s: Seq<char>) -> bool {
    &&& s.len() == 10
    &&& s[4] == '-' && s[7] == '-'
    &&& '0' <= s[0] <= '9' && '0' <= s[1] <= '9' && '0' <= s[2] <= '9' && '0' <= s[3] <= '9'
    &&& '0' <= s[5] <= '9' && '0' <= s[6] <= '9' && '0' <= s[8] <= '9' && '0' <= s[9] <= '9'
}

/// The number that a digit stands for.
pub open spec fn digit_at(s: Seq<char>, i: int) -> int {
    s[i] as int - '0' as int
}

/// The year of a date.
pub open spec fn year_of(s: Seq<char>) -> int {
    1000 * digit_at(s, 0) + 100 * digit_at(s, 1) + 10 * digit_at(s, 2) + digit_at(s, 3)
}

/// The month of a date.
pub open spec fn month_of(s: Seq<char>) -> int {
    10 * digit_at(s, 5) + digit_at(s, 6)
}

/// The day of a date.
pub open spec fn day_of(s: Seq<char>) -> int {
    10 * digit_at(s, 8) + digit_at(s, 9)
}

/// A date is not after another: its year is earlier, or the year is the same and
/// its month is earlier, or both are the same and its day is not later.
pub open spec fn is_not_after(a: Seq<char>, b: Seq<char>) -> bool {
    ||| year_of(a) < year_of(b)
    ||| year_of(a) == year_of(b) && month_of(a) < month_of(b)
    ||| year_of(a) == year_of(b) && month_of(a) == month_of(b) && day_of(a) <= day_of(b)
}

/// Where two texts differ first, if they have the same length and differ.
proof fn lemma_first_difference(a: Seq<char>, b: Seq<char>, from: int) -> (i: int)
    requires
        a.len() == b.len(),
        0 <= from <= a.len(),
        forall|j: int| 0 <= j < from ==> a[j] == b[j],
        a != b,
    ensures
        from <= i < a.len(),
        a[i] != b[i],
        forall|j: int| 0 <= j < i ==> a[j] == b[j],
    decreases a.len() - from,
{
    if from == a.len() {
        assert(a =~= b);
        from
    } else if a[from] != b[from] {
        from
    } else {
        lemma_first_difference(a, b, from + 1)
    }
}

/// Versions that are dates are in the order of time.
pub proof fn law_dates_are_in_the_order_of_time(a: Seq<char>, b: Seq<char>)
    requires
        is_date(a),
        is_date(b),
    ensures
        text_at_most(a, b) <==> is_not_after(a, b),
{
    if a == b {
        lemma_text_order_reflexive(a);
    } else {
        let i = lemma_first_difference(a, b, 0);
        if (a[i] as int) < (b[i] as int) {
            law_first_difference_decides(a, b, i);
        } else {
            law_first_difference_decides(b, a, i);
        }
        assert(a[0] == b[0] || i == 0);
        assert(a[1] == b[1] || i <= 1);
        assert(a[2] == b[2] || i <= 2);
        assert(a[3] == b[3] || i <= 3);
        assert(a[5] == b[5] || i <= 5);
        assert(a[6] == b[6] || i <= 6);
        assert(a[8] == b[8] || i <= 8);
        assert(a[9] == b[9] || i <= 9);
    }
}

/// The version that is negotiated is on the list of the server and on that of the
/// client, and every other version on both comes before it.
pub proof fn law_negotiated_version_is_the_highest(
    theirs: Seq<String>,
    ours: Seq<String>,
    version: Seq<char>,
    k: int,
    l: int,
)
    requires
        best_version(theirs, ours) == Some(version),
        0 <= k < theirs.len(),
        0 <= l < ours.len(),
        theirs[k]@ == ours[l]@,
    ensures
        exists|i: int| 0 <= i < theirs.len() && (#[trigger] theirs[i])@ == version,
        exists|i: int| 0 <= i < ours.len() && (#[trigger] ours[i])@ == version,
        forall|i: int|
            0 <= i < version.len() && i < theirs[k]@.len() && (forall|j: int|
                0 <= j < i ==> version[j] == theirs[k]@[j]) && version[i] != theirs[k]@[i]
                ==> (theirs[k]@[i] as int) <= (#[trigger] version[i] as int),
        !(version.len() < theirs[k]@.len() && forall|j: int|
            0 <= j < version.len() ==> version[j] == theirs[k]@[j]),
        is_date(version) && is_date(theirs[k]@) ==> is_not_after(theirs[k]@, version),
{
    let other = theirs[k]@;
    assert(lists(theirs, other));
    assert(ours[l]@ == other);
    assert(lists(ours, other));
    assert(mutual(theirs, ours, other));
    lemma_best_version_exists(theirs, ours, other);
    assert(best_mutual(theirs, ours, version));
    assert(text_at_most(other, version));
    assert forall|i: int|
        0 <= i < version.len() && i < other.len() && (forall|j: int|
            0 <= j < i ==> version[j] == other[j]) && version[i] != other[i] implies (other[i] as int) <= (
    #[trigger] version[i] as int) by {
        if (version[i] as int) < (other[i] as int) {
            law_first_difference_decides(version, other, i);
        }
    }
    if version.len() < other.len() && forall|j: int|
        0 <= j < version.len() ==> version[j] == other[j] {
        law_beginning_comes_first(version, other);
    }
    if is_date(version) && is_date(other) {
        law_dates_are_in_the_order_of_time(other, version);
    }
}

/// Two sides that share a version agree on one, and two that share none do not.
pub proof fn law_version_is_negotiated_where_one_is_shared(theirs: Seq<String>, ours: Seq<String>)
    ensures
        best_version(theirs, ours) is Some <==> exists|k: int, l: int|
            0 <= k < theirs.len() && 0 <= l < ours.len() && (#[trigger] theirs[k])@
                == (#[trigger] ours[l])@,
{
    if exists|k: int, l: int|
        0 <= k < theirs.len() && 0 <= l < ours.len() && (#[trigger] theirs[k])@
            == (#[trigger] ours[l])@ {
        let (k, l) = choose|k: int, l: int|
            0 <= k < theirs.len() && 0 <= l < ours.len() && (#[trigger] theirs[k])@
                == (#[trigger] ours[l])@;
        assert(lists(theirs, theirs[k]@));
        assert(lists(ours, ours[l]@));
        lemma_best_version_exists(theirs, ours, theirs[k]@);
    }
    if best_version(theirs, ours) is Some {
        let version = best_version(theirs, ours)->0;
        assert(mutual(theirs, ours, version));
        let k = choose|k: int| 0 <= k < theirs.len() && (#[trigger] theirs[k])@ == version;
        let l = choose|l: int| 0 <= l < ours.len() && (#[trigger] ours[l])@ == version;
        assert(theirs[k]@ == ours[l]@);
    }
}

} // verus!
