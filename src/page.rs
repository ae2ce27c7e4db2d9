//! Documents: the block of one example, the page of one task, the index.
use crate::grid::{create_2d_grid_html, get_size_string, grid_markup, size_label};
use crate::model::{Example, Task};
use crate::palette::{style_sheet, style_sheet_text};
use crate::text::{decimal, decimal_text};
use vstd::prelude::*;

verus! {

/// Every grid of every example has at least one row, so that its column
/// count and size label exist.
pub open spec fn grids_have_rows(exs: Seq<Example>) -> bool {
    forall|i: int|
        0 <= i < exs.len() ==> #[trigger] exs[i].input@.len() > 0 && exs[i].output@.len() > 0
}

/// The block of one example under `label`: the title with both size labels,
/// then the input grid above the output grid.
pub open spec fn example_block(label: Seq<char>, e: Example) -> Seq<char> {
    "\n<div class=\"subtask\">\n<div class=\"task-title\">"@ + label + " ("@ + size_label(e.input@)
        + " → "@ + size_label(e.output@)
        + ")</div>\n<div class=\"grid-container\" style=\"flex-direction: column; gap: 20px;\">\n"@
        + grid_markup(e.input@) + "\n"@ + grid_markup(e.output@) + "\n</div>\n</div>\n"@
}

/// The blocks of all examples, in order, each labelled with its index.
pub open spec fn numbered_blocks(exs: Seq<Example>) -> Seq<char>
    decreases exs.len(),
{
    if exs.len() == 0 {
        Seq::empty()
    } else {
        numbered_blocks(exs.drop_last()) + example_block(
            decimal((exs.len() - 1) as nat),
            exs.last(),
        )
    }
}

/// The head of a task's page: title, style, links and example count.
pub open spec fn task_head(name: Seq<char>, count: nat) -> Seq<char> {
    "<!DOCTYPE html>\n<html>\n<head>\n<title>RE-ARC "@ + name + "</title>\n<style>"@ + style_sheet()
        + "</style>\n</head>\n<body>\n<a href=\"index.html\">go back to all tasks</a>\n<h1>"@ + name
        + " (<a href=\"https://arcprize.org/play?task="@ + name + "\">original</a>)</h1>\n<h3>("@
        + decimal(count) + " examples)</h3>\n<div class=\"task-container\">\n"@
}

/// What closes every document.
pub open spec fn page_tail() -> Seq<char> {
    "</div>\n</body>\n</html>\n"@
}

/// The page of one task.
pub open spec fn task_page(name: Seq<char>, exs: Seq<Example>) -> Seq<char> {
    task_head(name, exs.len()) + numbered_blocks(exs) + page_tail()
}

/// The head of the index page.
pub open spec fn index_head() -> Seq<char> {
    "<!DOCTYPE html>\n<html>\n<head>\n<title>RE-ARC dataset visualization</title>\n<style>"@
        + style_sheet()
        + "</style>\n</head>\n<body>\n<h1><a href=\"https://github.com/michaelhodel/re-arc/\">RE-ARC</a> dataset visualization</h1>\n<div class=\"task-container\">\n"@
}

/// The index tile of a task: its links, its example count and its first
/// example under the label `example`.
pub open spec fn task_tile(t: Task) -> Seq<char> {
    "<div class=\"task\"><h3><a href=\""@ + t.name@ + ".html\">"@ + t.name@
        + "</a> (<a href=\"https://arcprize.org/play?task="@ + t.name@
        + "\">original</a>)</h3><center><p>("@ + decimal(t.examples@.len())
        + " examples)</p></center>"@ + example_block("example"@, t.examples@[0]) + "</div>\n"@
}

/// The tiles of the tasks that have examples, in order.
pub open spec fn index_tiles(tasks: Seq<Task>) -> Seq<char>
    decreases tasks.len(),
{
    if tasks.len() == 0 {
        Seq::empty()
    } else if tasks.last().examples@.len() > 0 {
        index_tiles(tasks.drop_last()) + task_tile(tasks.last())
    } else {
        index_tiles(tasks.drop_last())
    }
}

/// The index page over `tasks`, in the order given.
pub open spec fn index_page(tasks: Seq<Task>) -> Seq<char> {
    index_head() + index_tiles(tasks) + page_tail()
}

/// Every task's grids have rows.
pub open spec fn tasks_have_rows(tasks: Seq<Task>) -> bool {
    forall|i: int| 0 <= i < tasks.len() ==> #[trigger] grids_have_rows(tasks[i].examples@)
}

/// The block of one example under the label `task_name`.
pub fn create_task_html(puzzle: &Example, task_name: &str) -> (r: String)
    requires
        puzzle.input@.len() > 0,
        puzzle.output@.len() > 0,
    ensures
        r@ == example_block(task_name@, *puzzle),
{
    let mut r = String::from_str("\n<div class=\"subtask\">\n<div class=\"task-title\">");
    r.append(task_name);
    r.append(" (");
    let size_in = get_size_string(puzzle.input.as_slice());
    r.append(size_in.as_str());
    r.append(" → ");
    let size_out = get_size_string(puzzle.output.as_slice());
    r.append(size_out.as_str());
    r.append(
        ")</div>\n<div class=\"grid-container\" style=\"flex-direction: column; gap: 20px;\">\n",
    );
    let grid_in = create_2d_grid_html(puzzle.input.as_slice());
    r.append(grid_in.as_str());
    r.append("\n");
    let grid_out = create_2d_grid_html(puzzle.output.as_slice());
    r.append(grid_out.as_str());
    r.append("\n</div>\n</div>\n");
    r
}

/// The head of a task's page.
pub fn task_head_html(name: &str, count: usize) -> (r: String)
    ensures
        r@ == task_head(name@, count as nat),
{
    let mut r = String::from_str("<!DOCTYPE html>\n<html>\n<head>\n<title>RE-ARC ");
    r.append(name);
    let style = style_sheet_text();
    r.append("</title>\n<style>");
    r.append(style.as_str());
    r.append(
        "</style>\n</head>\n<body>\n<a href=\"index.html\">go back to all tasks</a>\n<h1>",
    );
    r.append(name);
    r.append(" (<a href=\"https://arcprize.org/play?task=");
    r.append(name);
    r.append("\">original</a>)</h1>\n<h3>(");
    let n = decimal_text(count as u64);
    r.append(n.as_str());
    r.append(" examples)</h3>\n<div class=\"task-container\">\n");
    r
}

/// The page of one task: its head, one block per example labelled with the
/// example's index, and the closing tags.
pub fn task_page_html(name: &str, examples: &Vec<Example>) -> (r: String)
    requires
        grids_have_rows(examples@),
    ensures
        r@ == task_page(name@, examples@),
{
    let mut page = task_head_html(name, examples.len());
    let ghost head = page@;
    let mut j: usize = 0;
    while j < examples.len()
        invariant
            j <= examples@.len(),
            grids_have_rows(examples@),
            page@ == head + numbered_blocks(examples@.subrange(0, j as int)),
        decreases examples@.len() - j,
    {
        let label = decimal_text(j as u64);
        assert(examples@[j as int].input@.len() > 0 && examples@[j as int].output@.len() > 0);
        let block = create_task_html(&examples[j], label.as_str());
        proof {
            vstd::seq_lib::lemma_concat_associative(
                head,
                numbered_blocks(examples@.subrange(0, j as int)),
                block@,
            );
            assert(examples@.subrange(0, j + 1).drop_last() =~= examples@.subrange(0, j as int));
        }
        page.append(block.as_str());
        j = j + 1;
    }
    assert(examples@.subrange(0, j as int) =~= examples@);
    page.append("</div>\n</body>\n</html>\n");
    page
}

/// The index tile of a task that has examples.
pub fn task_tile_html(t: &Task) -> (r: String)
    requires
        t.examples@.len() > 0,
        grids_have_rows(t.examples@),
    ensures
        r@ == task_tile(*t),
{
    let name = t.name.as_str();
    let mut r = String::from_str("<div class=\"task\"><h3><a href=\"");
    r.append(name);
    r.append(".html\">");
    r.append(name);
    r.append("</a> (<a href=\"https://arcprize.org/play?task=");
    r.append(name);
    r.append("\">original</a>)</h3><center><p>(");
    let n = decimal_text(t.examples.len() as u64);
    r.append(n.as_str());
    r.append(" examples)</p></center>");
    assert(t.examples@[0].input@.len() > 0 && t.examples@[0].output@.len() > 0);
    let block = create_task_html(&t.examples[0], "example");
    r.append(block.as_str());
    r.append("</div>\n");
    r
}

/// The head of the index page.
pub fn index_head_html() -> (r: String)
    ensures
        r@ == index_head(),
{
    let mut r = String::from_str(
        "<!DOCTYPE html>\n<html>\n<head>\n<title>RE-ARC dataset visualization</title>\n<style>",
    );
    let style = style_sheet_text();
    r.append(style.as_str());
    r.append(
        "</style>\n</head>\n<body>\n<h1><a href=\"https://github.com/michaelhodel/re-arc/\">RE-ARC</a> dataset visualization</h1>\n<div class=\"task-container\">\n",
    );
    r
}

/// The index page over `tasks` in the order given: one tile per task that
/// has examples.
pub fn index_page_html(tasks: &Vec<Task>) -> (r: String)
    requires
        tasks_have_rows(tasks@),
    ensures
        r@ == index_page(tasks@),
{
    let mut page = index_head_html();
    let ghost head = page@;
    let mut i: usize = 0;
    while i < tasks.len()
        invariant
            i <= tasks@.len(),
            tasks_have_rows(tasks@),
            page@ == head + index_tiles(tasks@.subrange(0, i as int)),
        decreases tasks@.len() - i,
    {
        proof {
            assert(tasks@.subrange(0, i + 1).drop_last() =~= tasks@.subrange(0, i as int));
            assert(tasks@.subrange(0, i + 1).last() == tasks@[i as int]);
        }
        if tasks[i].examples.len() > 0 {
            assert(grids_have_rows(tasks@[i as int].examples@));
            let tile = task_tile_html(&tasks[i]);
            proof {
                vstd::seq_lib::lemma_concat_associative(
                    head,
                    index_tiles(tasks@.subrange(0, i as int)),
                    tile@,
                );
            }
            page.append(tile.as_str());
        }
        i = i + 1;
    }
    assert(tasks@.subrange(0, i as int) =~= tasks@);
    page.append("</div>\n</body>\n</html>\n");
    page
}

} // verus!
