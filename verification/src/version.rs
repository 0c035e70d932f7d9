//! Protocol versions: which one two sides can agree on.

use vstd::prelude::*;
use crate::json::opt_view;
use crate::text::same_text;

verus! {

/// The order of texts by their first difference. Protocol versions are dates
/// with the year first, so that this is their order too.
pub open spec fn text_at_most(a: Seq<char>, b: Seq<char>) -> bool
    decreases a.len(),
{
    if a.len() == 0 {
        true
    } else if b.len() == 0 {
        false
    } else if a[0] == b[0] {
        text_at_most(a.drop_first(), b.drop_first())
    } else {
        a[0] < b[0]
    }
}

/// A list names that version.
pub open spec fn lists(versions: Seq<String>, version: Seq<char>) -> bool {
    exists|i: int| 0 <= i < versions.len() && (#[trigger] versions[i])@ == version
}

/// The version is on both lists.
pub open spec fn mutual(theirs: Seq<String>, ours: Seq<String>, version: Seq<char>) -> bool {
    lists(theirs, version) && lists(ours, version)
}

/// The version is on both lists, and no later one is.
pub open spec fn best_mutual(theirs: Seq<String>, ours: Seq<String>, version: Seq<char>) -> bool {
    &&& mutual(theirs, ours, version)
    &&& forall|other: Seq<char>| #[trigger]
        mutual(theirs, ours, other) ==> text_at_most(other, version)
}

/// The latest version that is on both lists; `None` where they share none.
pub open spec fn best_version(theirs: Seq<String>, ours: Seq<String>) -> Option<Seq<char>> {
    if exists|version: Seq<char>| best_mutual(theirs, ours, version) {
        Some(choose|version: Seq<char>| best_mutual(theirs, ours, version))
    } else {
        None
    }
}

/// No two versions can both be the latest on both lists.
pub proof fn lemma_best_version_unique(theirs: Seq<String>, ours: Seq<String>, version: Seq<char>)
    requires
        best_mutual(theirs, ours, version),
    ensures
        best_version(theirs, ours) == Some(version),
{
    let chosen = best_version(theirs, ours)->0;
    lemma_text_order_antisymmetric(chosen, version);
}

/// Every text is at most itself.
pub proof fn lemma_text_order_reflexive(a: Seq<char>)
    ensures
        text_at_most(a, a),
    decreases a.len(),
{
    if a.len() > 0 {
        lemma_text_order_reflexive(a.drop_first());
    }
}

/// Of two texts, one is at most the other.
pub proof fn lemma_text_order_total(a: Seq<char>, b: Seq<char>)
    ensures
        text_at_most(a, b) || text_at_most(b, a),
    decreases a.len(),
{
    if a.len() > 0 && b.len() > 0 && a[0] == b[0] {
        lemma_text_order_total(a.drop_first(), b.drop_first());
    }
}

/// The order carries over from text to text.
pub proof fn lemma_text_order_transitive(a: Seq<char>, b: Seq<char>, c: Seq<char>)
    requires
        text_at_most(a, b),
        text_at_most(b, c),
    ensures
        text_at_most(a, c),
    decreases a.len(),
{
    if a.len() > 0 && b.len() > 0 && c.len() > 0 && a[0] == b[0] && b[0] == c[0] {
        lemma_text_order_transitive(a.drop_first(), b.drop_first(), c.drop_first());
    }
}

/// Two texts that are each at most the other are the same.
pub proof fn lemma_text_order_antisymmetric(a: Seq<char>, b: Seq<char>)
    requires
        text_at_most(a, b),
        text_at_most(b, a),
    ensures
        a == b,
    decreases a.len(),
{
    if a.len() > 0 {
        let (a_rest, b_rest) = (a.drop_first(), b.drop_first());
        assert(b.len() > 0 && a[0] == b[0]);
        lemma_text_order_antisymmetric(a_rest, b_rest);
        assert(a.len() == b.len()) by {
            assert(a_rest.len() == b_rest.len());
        }
        assert forall|i: int| 0 <= i < a.len() implies a[i] == b[i] by {
            if i > 0 {
                assert(a_rest[i - 1] == b_rest[i - 1]);
            }
        }
    }
    assert(a =~= b);
}

/// Of the first `count` versions of a list that the other side lists too, one is
/// the latest.
proof fn lemma_latest_of_prefix(
    theirs: Seq<String>,
    ours: Seq<String>,
    count: int,
    some: int,
) -> (best: int)
    requires
        0 <= some < count <= ours.len(),
        lists(theirs, ours[some]@),
    ensures
        0 <= best < count,
        lists(theirs, ours[best]@),
        forall|j: int|
            0 <= j < count && lists(theirs, (#[trigger] ours[j])@) ==> text_at_most(
                ours[j]@,
                ours[best]@,
            ),
    decreases count,
{
    let last = count - 1;
    lemma_text_order_reflexive(ours[last]@);
    if !lists(theirs, ours[last]@) {
        lemma_latest_of_prefix(theirs, ours, last, some)
    } else if exists|j: int| 0 <= j < last && lists(theirs, (#[trigger] ours[j])@) {
        let earlier = choose|j: int| 0 <= j < last && lists(theirs, (#[trigger] ours[j])@);
        let before = lemma_latest_of_prefix(theirs, ours, last, earlier);
        lemma_text_order_total(ours[before]@, ours[last]@);
        if text_at_most(ours[before]@, ours[last]@) {
            assert forall|j: int| 0 <= j < count && lists(theirs, (#[trigger] ours[j])@) implies
                text_at_most(ours[j]@, ours[last]@) by {
                if j < last {
                    lemma_text_order_transitive(ours[j]@, ours[before]@, ours[last]@);
                }
            }
            last
        } else {
            before
        }
    } else {
        last
    }
}

/// Two sides that share a version have a latest one that they share.
pub proof fn lemma_best_version_exists(theirs: Seq<String>, ours: Seq<String>, version: Seq<char>)
    requires
        mutual(theirs, ours, version),
    ensures
        best_version(theirs, ours) matches Some(best) && best_mutual(theirs, ours, best),
{
    let some = choose|i: int| 0 <= i < ours.len() && (#[trigger] ours[i])@ == version;
    let index = lemma_latest_of_prefix(theirs, ours, ours.len() as int, some);
    let best = ours[index]@;
    assert forall|other: Seq<char>| #[trigger] mutual(theirs, ours, other) implies text_at_most(
        other,
        best,
    ) by {
        let j = choose|j: int| 0 <= j < ours.len() && (#[trigger] ours[j])@ == other;
        assert(lists(theirs, ours[j]@));
    }
    assert(lists(ours, best));
    assert(best_mutual(theirs, ours, best));
    lemma_best_version_unique(theirs, ours, best);
}

/// Whether a text is at most another.
fn is_at_most(a: &str, b: &str) -> (holds: bool)
    ensures
        holds == text_at_most(a@, b@),
{
    let a_len: usize = a.unicode_len();
    let b_len: usize = b.unicode_len();
    let mut i: usize = 0;
    assert(a@.skip(0) == a@);
    assert(b@.skip(0) == b@);
    while i < a_len && i < b_len
        invariant
            i <= a_len,
            i <= b_len,
            a_len == a@.len(),
            b_len == b@.len(),
            text_at_most(a@, b@) == text_at_most(a@.skip(i as int), b@.skip(i as int)),
        decreases a_len - i,
    {
        assert(a@.skip(i as int).drop_first() == a@.skip(i + 1));
        assert(b@.skip(i as int).drop_first() == b@.skip(i + 1));
        let x: char = a.get_char(i);
        let y: char = b.get_char(i);
        if x != y {
            return x < y;
        }
        i += 1;
    }
    i == a_len
}

/// Whether a list names a version.
fn is_listed(versions: &Vec<String>, version: &str) -> (listed: bool)
    ensures
        listed == lists(versions@, version@),
{
    let mut i: usize = 0;
    while i < versions.len()
        invariant
            i <= versions.len(),
            forall|j: int| 0 <= j < i ==> (#[trigger] versions@[j])@ != version@,
        decreases versions.len() - i,
    {
        if same_text(versions[i].as_str(), version) {
            return true;
        }
        i += 1;
    }
    false
}

/// The latest version that both sides support, if they share one.
pub fn negotiate_best_version(server_versions: &Vec<String>, supported: &Vec<String>) -> (best:
    Option<String>)
    ensures
        opt_view(best) == best_version(server_versions@, supported@),
        match best {
            Some(version) => best_mutual(server_versions@, supported@, version@),
            None => forall|version: Seq<char>| !mutual(server_versions@, supported@, version),
        },
{
    let mut best: Option<String> = None;
    let mut i: usize = 0;
    while i < supported.len()
        invariant
            i <= supported.len(),
            match best {
                Some(b) => {
                    &&& mutual(server_versions@, supported@, b@)
                    &&& forall|j: int|
                        0 <= j < i && lists(server_versions@, (#[trigger] supported@[j])@)
                            ==> text_at_most(supported@[j]@, b@)
                },
                None => forall|j: int|
                    0 <= j < i ==> !lists(server_versions@, (#[trigger] supported@[j])@),
            },
        decreases supported.len() - i,
    {
        let candidate: &String = &supported[i];
        if is_listed(server_versions, candidate.as_str()) {
            assert(lists(supported@, candidate@)) by {
                assert(supported@[i as int]@ == candidate@);
            }
            proof {
                lemma_text_order_reflexive(candidate@);
            }
            let better: bool = match &best {
                Some(b) => {
                    proof {
                        lemma_text_order_total(b@, candidate@);
                        if text_at_most(b@, candidate@) {
                            assert forall|j: int|
                                0 <= j < i && lists(
                                    server_versions@,
                                    (#[trigger] supported@[j])@,
                                ) implies text_at_most(supported@[j]@, candidate@) by {
                                lemma_text_order_transitive(supported@[j]@, b@, candidate@);
                            }
                        }
                    }
                    is_at_most(b.as_str(), candidate.as_str())
                },
                None => true,
            };
            if better {
                best = Some(candidate.clone());
            }
        }
        i += 1;
    }
    proof {
        if best is Some {
            let version = best->0@;
            assert(best_mutual(server_versions@, supported@, version));
            lemma_best_version_unique(server_versions@, supported@, version);
        }
    }
    best
}

} // verus!
