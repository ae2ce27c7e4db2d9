//! Properties of the documents, stated over the models of `page` and
//! `palette` and proved from their definitions.
use crate::grid::{cell_markup, color_class};
use crate::model::{Example, Task};
use crate::page::{
    example_block, index_head, index_page, index_tiles, numbered_blocks, page_tail, task_head,
    task_page, task_tile,
};
use crate::palette::{color_rule, palette_rules, style_sheet, STYLE_BASE};
use crate::order::{lemma_text_le_total, sorted_by_name, text_le};
use crate::text::decimal;
use vstd::prelude::*;

verus! {

/// The blocks of `exs` as a sequence: block `i` is example `i` under its index.
pub open spec fn labelled_blocks(exs: Seq<Example>) -> Seq<Seq<char>> {
    Seq::new(exs.len(), |i: int| example_block(decimal(i as nat), exs[i]))
}

/// The tasks that have at least one example, in order.
pub open spec fn nonempty_tasks(tasks: Seq<Task>) -> Seq<Task> {
    tasks.filter(|t: Task| t.examples@.len() > 0)
}

/// The tiles of the index as a sequence, one per task with examples.
pub open spec fn tiles(tasks: Seq<Task>) -> Seq<Seq<char>> {
    nonempty_tasks(tasks).map_values(|t: Task| task_tile(t))
}

proof fn lemma_numbered_blocks_flat(exs: Seq<Example>)
    ensures
        numbered_blocks(exs) == labelled_blocks(exs).flatten_alt(),
    decreases exs.len(),
{
    if exs.len() > 0 {
        lemma_numbered_blocks_flat(exs.drop_last());
        assert(labelled_blocks(exs).drop_last() =~= labelled_blocks(exs.drop_last()));
    }
}

/// A task's page holds exactly one block per example, in file order, the
/// block of example `i` labelled with `i` in decimal, between the head and
/// the closing tags.
pub proof fn task_page_lists_every_example(name: Seq<char>, exs: Seq<Example>)
    ensures
        task_page(name, exs) == task_head(name, exs.len()) + labelled_blocks(exs).flatten()
            + page_tail(),
        labelled_blocks(exs).len() == exs.len(),
        forall|i: int|
            0 <= i < exs.len() ==> #[trigger] labelled_blocks(exs)[i] == example_block(
                decimal(i as nat),
                exs[i],
            ),
{
    lemma_numbered_blocks_flat(exs);
    labelled_blocks(exs).lemma_flatten_and_flatten_alt_are_equivalent();
}

proof fn lemma_index_tiles_flat(tasks: Seq<Task>)
    ensures
        index_tiles(tasks) == tiles(tasks).flatten_alt(),
    decreases tasks.len(),
{
    if tasks.len() > 0 {
        let init = tasks.drop_last();
        let pred = |t: Task| t.examples@.len() > 0;
        lemma_index_tiles_flat(init);
        assert(tasks =~= init.push(tasks.last()));
        init.lemma_filter_push(tasks.last(), pred);
        if pred(tasks.last()) {
            assert(tiles(tasks).drop_last() =~= tiles(init));
            assert(tiles(tasks).last() == task_tile(tasks.last()));
        } else {
            assert(tiles(tasks) =~= tiles(init));
        }
    }
}

/// The index holds exactly one tile per task that has examples, in the
/// order given; each tile shows that task's first example, and only it,
/// under the label `example`, whatever the number of examples.
pub proof fn index_shows_one_example_per_task(tasks: Seq<Task>)
    ensures
        index_page(tasks) == index_head() + tiles(tasks).flatten() + page_tail(),
        tiles(tasks).len() == nonempty_tasks(tasks).len(),
        forall|i: int|
            0 <= i < tiles(tasks).len() ==> #[trigger] tiles(tasks)[i] == task_tile(
                nonempty_tasks(tasks)[i],
            ),
        forall|t: Task| #[trigger]
            task_tile(t) == "<div class=\"task\"><h3><a href=\""@ + t.name@ + ".html\">"@ + t.name@
                + "</a> (<a href=\"https://arcprize.org/play?task="@ + t.name@
                + "\">original</a>)</h3><center><p>("@ + decimal(t.examples@.len())
                + " examples)</p></center>"@ + example_block("example"@, t.examples@[0])
                + "</div>\n"@,
{
    lemma_index_tiles_flat(tasks);
    tiles(tasks).lemma_flatten_and_flatten_alt_are_equivalent();
}

proof fn lemma_tiles_skip_empty(tasks: Seq<Task>, i: int)
    requires
        0 <= i < tasks.len(),
        tasks[i].examples@.len() == 0,
    ensures
        index_tiles(tasks) == index_tiles(tasks.remove(i)),
    decreases tasks.len(),
{
    if i == tasks.len() - 1 {
        assert(tasks.remove(i) =~= tasks.drop_last());
    } else {
        lemma_tiles_skip_empty(tasks.drop_last(), i);
        assert(tasks.remove(i).drop_last() =~= tasks.drop_last().remove(i));
        assert(tasks.remove(i).last() == tasks.last());
    }
}

/// A task without examples leaves the index as if it were absent, and its
/// own page is the head and the closing tags with nothing between.
pub proof fn tasks_without_examples_stay_off_the_index(tasks: Seq<Task>, i: int)
    requires
        0 <= i < tasks.len(),
        tasks[i].examples@.len() == 0,
    ensures
        index_page(tasks) == index_page(tasks.remove(i)),
        task_page(tasks[i].name@, tasks[i].examples@) == task_head(tasks[i].name@, 0)
            + page_tail(),
{
    lemma_tiles_skip_empty(tasks, i);
    assert(task_head(tasks[i].name@, 0) + Seq::<char>::empty() =~= task_head(tasks[i].name@, 0));
}

proof fn lemma_palette_prefix(m: nat, n: nat)
    requires
        m <= n,
    ensures
        palette_rules(m).len() <= palette_rules(n).len(),
        palette_rules(m) =~= palette_rules(n).subrange(0, palette_rules(m).len() as int),
    decreases n - m,
{
    if m < n {
        lemma_palette_prefix(m, (n - 1) as nat);
    }
}

/// Every colour index from 0 to 9 has a fixed rule in the style sheet that
/// every document embeds; the rule's selector is the class that the markup
/// of every cell of that value carries.
pub proof fn palette_covers_every_color(v: int)
    requires
        0 <= v <= 9,
    ensures
        exists|k: int|
            0 <= k && k + color_rule(v as nat).len() <= style_sheet().len() && #[trigger]
            style_sheet().subrange(k, k + color_rule(v as nat).len()) == color_rule(v as nat),
        color_rule(v as nat).subrange(1, 1 + color_class(v).len() as int) == color_class(v),
        cell_markup(v) == "<div class=\"cell "@ + color_class(v) + "\"></div>"@,
{
    let d = v as nat;
    lemma_palette_prefix(d + 1, 10);
    let k: int = (STYLE_BASE@.len() + palette_rules(d).len()) as int;
    let rule = color_rule(d);
    assert(palette_rules(d + 1) == palette_rules(d) + rule);
    let all = palette_rules(10);
    let pre = palette_rules(d + 1);
    assert(pre.len() == palette_rules(d).len() + rule.len());
    assert forall|j: int| 0 <= j < rule.len() implies style_sheet()[k + j] == rule[j] by {
        assert(all[palette_rules(d).len() + j] == pre[palette_rules(d).len() + j]);
    }
    assert(style_sheet().subrange(k, k + rule.len() as int) =~= rule);
    reveal_strlit(".");
    assert(rule.subrange(1, 1 + color_class(v).len() as int) =~= color_class(v));
}

/// No two tasks share an identifier, as when each comes from its own file.
pub open spec fn names_distinct(s: Seq<Task>) -> bool {
    forall|i: int, j: int|
        0 <= i < s.len() && 0 <= j < s.len() && i != j ==> #[trigger] s[i].name@ != #[trigger] s[j].name@
}

proof fn lemma_text_le_antisymmetric(a: Seq<char>, b: Seq<char>)
    requires
        text_le(a, b),
        text_le(b, a),
    ensures
        a == b,
    decreases a.len(),
{
    if a.len() > 0 && b.len() > 0 {
        lemma_text_le_antisymmetric(a.drop_first(), b.drop_first());
        assert forall|i: int| 0 <= i < a.len() implies a[i] == b[i] by {
            if i > 0 {
                assert(a[i] == a.drop_first()[i - 1]);
            }
        }
    }
    assert(a =~= b);
}

/// With distinct identifiers, one order of a set of tasks is sorted by
/// identifier: the index built from any two sorted arrangements of the same
/// tasks is the same document.
pub proof fn sorted_order_is_unique(a: Seq<Task>, b: Seq<Task>)
    requires
        a.to_multiset() == b.to_multiset(),
        sorted_by_name(a),
        sorted_by_name(b),
        names_distinct(a),
    ensures
        a == b,
        index_page(a) == index_page(b),
    decreases a.len(),
{
    vstd::seq_lib::to_multiset_len(a);
    vstd::seq_lib::to_multiset_len(b);
    if a.len() == 0 {
        assert(b.len() == 0);
        assert(a =~= b);
    } else {
        assert(b.len() == a.len());
        vstd::seq_lib::to_multiset_contains(a, a[0]);
        vstd::seq_lib::to_multiset_contains(b, a[0]);
        vstd::seq_lib::to_multiset_contains(a, b[0]);
        vstd::seq_lib::to_multiset_contains(b, b[0]);
        assert(a.contains(a[0]));
        assert(b.contains(a[0]));
        let j = choose|j: int| 0 <= j < b.len() && b[j] == a[0];
        assert(b.contains(b[0]));
        assert(a.contains(b[0]));
        let i = choose|i: int| 0 <= i < a.len() && a[i] == b[0];
        if i != 0 {
            assert(text_le(a[0].name@, a[i].name@));
        }
        if j != 0 {
            assert(text_le(b[0].name@, b[j].name@));
        }
        lemma_text_le_total(a[0].name@, a[0].name@);
        lemma_text_le_total(b[0].name@, b[0].name@);
        lemma_text_le_antisymmetric(a[0].name@, b[0].name@);
        assert(i == 0);
        let a1 = a.drop_first();
        let b1 = b.drop_first();
        assert(a.remove(0) =~= a1);
        assert(b.remove(0) =~= b1);
        vstd::seq_lib::to_multiset_remove(a, 0);
        vstd::seq_lib::to_multiset_remove(b, 0);
        assert forall|x: int, y: int| 0 <= x < y < a1.len() implies text_le(
            #[trigger] a1[x].name@,
            #[trigger] a1[y].name@,
        ) by {
            assert(a1[x] == a[x + 1] && a1[y] == a[y + 1]);
        }
        assert forall|x: int, y: int| 0 <= x < y < b1.len() implies text_le(
            #[trigger] b1[x].name@,
            #[trigger] b1[y].name@,
        ) by {
            assert(b1[x] == b[x + 1] && b1[y] == b[y + 1]);
        }
        assert forall|x: int, y: int|
            0 <= x < a1.len() && 0 <= y < a1.len() && x != y implies #[trigger] a1[x].name@
            != #[trigger] a1[y].name@ by {
            assert(a1[x] == a[x + 1] && a1[y] == a[y + 1]);
        }
        sorted_order_is_unique(a1, b1);
        assert(a[0] == b[0]);
        assert forall|k: int| 0 <= k < a.len() implies a[k] == b[k] by {
            if k > 0 {
                assert(a[k] == a1[k - 1] && b[k] == b1[k - 1]);
            }
        }
        assert(a =~= b);
    }
}

} // verus!
