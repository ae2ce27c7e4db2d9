//! Lexicographic order on identifiers, and sorting tasks by identifier.
use crate::model::Task;
use vstd::prelude::*;

verus! {

/// `a` comes no later than `b` in lexicographic order of code points.
pub open spec fn text_le(a: Seq<char>, b: Seq<char>) -> bool
    decreases a.len(),
{
    if a.len() == 0 {
        true
    } else if b.len() == 0 {
        false
    } else if a[0] != b[0] {
        (a[0] as int) < (b[0] as int)
    } else {
        text_le(a.drop_first(), b.drop_first())
    }
}

/// Any two texts are ordered one way or the other.
pub proof fn lemma_text_le_total(a: Seq<char>, b: Seq<char>)
    ensures
        text_le(a, b) || text_le(b, a),
    decreases a.len(),
{
    if a.len() > 0 && b.len() > 0 {
        if a[0] == b[0] {
            lemma_text_le_total(a.drop_first(), b.drop_first());
        }
    }
}

/// The order is transitive.
pub proof fn lemma_text_le_transitive(a: Seq<char>, b: Seq<char>, c: Seq<char>)
    requires
        text_le(a, b),
        text_le(b, c),
    ensures
        text_le(a, c),
    decreases a.len(),
{
    if a.len() > 0 && b.len() > 0 && c.len() > 0 && a[0] == b[0] && b[0] == c[0] {
        lemma_text_le_transitive(a.drop_first(), b.drop_first(), c.drop_first());
    }
}

/// Tasks in order of their identifiers.
pub open spec fn sorted_by_name(s: Seq<Task>) -> bool {
    forall|i: int, j: int| 0 <= i < j < s.len() ==> text_le(#[trigger] s[i].name@, #[trigger] s[j].name@)
}

/// Compares two texts lexicographically by code point.
pub fn text_le_exec(a: &str, b: &str) -> (r: bool)
    ensures
        r == text_le(a@, b@),
{
    let n = a.unicode_len();
    let m = b.unicode_len();
    let mut i: usize = 0;
    assert(a@.subrange(0, n as int) =~= a@);
    assert(b@.subrange(0, m as int) =~= b@);
    while i < n && i < m
        invariant
            n == a@.len(),
            m == b@.len(),
            i <= n,
            i <= m,
            text_le(a@, b@) == text_le(a@.subrange(i as int, n as int), b@.subrange(i as int, m as int)),
        decreases n - i,
    {
        let x = a.get_char(i);
        let y = b.get_char(i);
        if x != y {
            return (x as u32) < (y as u32);
        }
        assert(a@.subrange(i as int, n as int).drop_first() =~= a@.subrange(i + 1, n as int));
        assert(b@.subrange(i as int, m as int).drop_first() =~= b@.subrange(i + 1, m as int));
        i = i + 1;
    }
    i == n
}

/// The first position in `sorted` whose identifier comes strictly after
/// `name`; `sorted.len()` when there is none.
fn insertion_point(sorted: &Vec<Task>, name: &str) -> (pos: usize)
    ensures
        pos <= sorted@.len(),
        forall|k: int| 0 <= k < pos ==> text_le(#[trigger] sorted@[k].name@, name@),
        pos < sorted@.len() ==> !text_le(sorted@[pos as int].name@, name@),
{
    let mut pos: usize = 0;
    while pos < sorted.len()
        invariant
            pos <= sorted@.len(),
            forall|k: int| 0 <= k < pos ==> text_le(#[trigger] sorted@[k].name@, name@),
        decreases sorted@.len() - pos,
    {
        if !text_le_exec(sorted[pos].name.as_str(), name) {
            return pos;
        }
        pos = pos + 1;
    }
    pos
}

/// Sorts tasks by identifier, keeping every task. Identifiers are unique
/// when they come from distinct file names, and then the order is unique.
pub fn sort_by_identifier(tasks: Vec<Task>) -> (r: Vec<Task>)
    ensures
        r@.to_multiset() == tasks@.to_multiset(),
        sorted_by_name(r@),
{
    broadcast use vstd::seq_lib::group_to_multiset_ensures;

    let ghost all = tasks@;
    let mut rest = tasks;
    let mut sorted: Vec<Task> = Vec::new();
    assert(sorted@.to_multiset().add(rest@.to_multiset()) =~= all.to_multiset());
    while rest.len() > 0
        invariant
            sorted@.to_multiset().add(rest@.to_multiset()) == all.to_multiset(),
            sorted_by_name(sorted@),
        decreases rest@.len(),
    {
        let ghost before = rest@;
        let ghost old_sorted = sorted@;
        let t = rest.pop().unwrap();
        assert(before =~= rest@.push(t));
        let pos = insertion_point(&sorted, t.name.as_str());
        proof {
            assert forall|k: int| pos <= k < old_sorted.len() implies text_le(
                t.name@,
                #[trigger] old_sorted[k].name@,
            ) by {
                lemma_text_le_total(old_sorted[pos as int].name@, t.name@);
                if k > pos {
                    lemma_text_le_transitive(
                        t.name@,
                        old_sorted[pos as int].name@,
                        old_sorted[k].name@,
                    );
                }
            }
        }
        sorted.insert(pos, t);
        proof {
            let s = sorted@;
            assert(s == old_sorted.insert(pos as int, t));
            assert forall|i: int, j: int| 0 <= i < j < s.len() implies text_le(
                #[trigger] s[i].name@,
                #[trigger] s[j].name@,
            ) by {
                if j < pos {
                    assert(s[i] == old_sorted[i] && s[j] == old_sorted[j]);
                } else if j == pos {
                    assert(s[i] == old_sorted[i]);
                } else if i < pos {
                    assert(s[i] == old_sorted[i] && s[j] == old_sorted[j - 1]);
                    lemma_text_le_transitive(s[i].name@, t.name@, s[j].name@);
                } else if i == pos {
                    assert(s[j] == old_sorted[j - 1]);
                } else {
                    assert(s[i] == old_sorted[i - 1] && s[j] == old_sorted[j - 1]);
                }
            }
            vstd::seq_lib::to_multiset_insert(old_sorted, pos as int, t);
            vstd::seq_lib::to_multiset_build(rest@, t);
            assert(sorted@.to_multiset().add(rest@.to_multiset()) =~= all.to_multiset());
        }
    }
    assert(rest@.to_multiset() =~= vstd::multiset::Multiset::empty());
    assert(sorted@.to_multiset() =~= all.to_multiset());
    sorted
}

} // verus!
