//! The steps of a site build that decide: naming, checking and composing.
//! Reading and writing files is left to the caller.
use crate::model::{
    check_examples, example_is_wellformed, examples_are_wellformed, examples_fault, identifier_of, task_identifier, Example, ExampleFault, Task,
};
use crate::order::{sort_by_identifier, sorted_by_name};
use crate::page::{
grids_have_rows, index_page, index_page_html, task_page, task_page_html};
use vstd::prelude::*;

verus! {

/// Why a build stopped. Every error ends the whole run.
#[derive(Debug)]
pub enum BuildError {
    /// A directory or file could not be read, created or written.
    FileSystemError { path: String },
    /// A task file's content or name does not describe a task.
    MalformedTaskFile { file: String },
    /// A grid of a task file is empty or not rectangular.
    StructuralGridError { file: String, fault: ExampleFault },
}

/// Every task's examples are well formed.
pub open spec fn tasks_are_wellformed(tasks: Seq<Task>) -> bool {
    forall|i: int| 0 <= i < tasks.len() ==> #[trigger] examples_are_wellformed(tasks[i].examples@)
}

proof fn lemma_wellformed_have_rows(exs: Seq<Example>)
    requires
        examples_are_wellformed(exs),
    ensures
        grids_have_rows(exs),
{
    assert forall|i: int| 0 <= i < exs.len() implies #[trigger] exs[i].input@.len() > 0
        && exs[i].output@.len() > 0 by {
        assert(example_is_wellformed(exs[i]));
    }
}

/// Turns one decoded task file into its task and its page. The file name
/// must end in `.json`, and every grid must be non-empty and rectangular.
pub fn render_task(file_name: &str, examples: Vec<Example>) -> (r: Result<(Task, String), BuildError>)
    ensures
        identifier_of(file_name@) is None ==> (r matches Err(BuildError::MalformedTaskFile { file })
            && file@ == file_name@),
        identifier_of(file_name@) matches Some(id) ==> if examples_are_wellformed(examples@) {
            r matches Ok((t, page)) && t.name@ == id && t.examples@ == examples@ && page@ == task_page(
                id,
                examples@,
            )
        } else {
            r matches Err(BuildError::StructuralGridError { file, fault }) && file@ == file_name@
                && examples_fault(examples@, fault)
        },
{
    let name = match task_identifier(file_name) {
        Some(name) => name,
        None => {
            return Err(BuildError::MalformedTaskFile { file: String::from_str(file_name) });
        },
    };
    match check_examples(&examples) {
        Err(fault) => {
            return Err(
                BuildError::StructuralGridError { file: String::from_str(file_name), fault },
            );
        },
        Ok(()) => {},
    }
    proof {
        lemma_wellformed_have_rows(examples@);
    }
    let page = task_page_html(name.as_str(), &examples);
    Ok((Task { name, examples }, page))
}

/// The index page over all tasks, ordered by identifier. Fails on the
/// first task, in the order given, that holds a malformed grid.
pub fn render_index(tasks: Vec<Task>) -> (r: Result<String, BuildError>)
    ensures
        r is Ok <==> tasks_are_wellformed(tasks@),
        r matches Ok(doc) ==> exists|s: Seq<Task>|
            s.to_multiset() == tasks@.to_multiset() && sorted_by_name(s) && doc@ == index_page(s),
        r matches Err(e) ==> exists|i: int|
            #![trigger tasks@[i]]
            0 <= i < tasks@.len() && (forall|k: int|
                0 <= k < i ==> #[trigger] examples_are_wellformed(tasks@[k].examples@)) && (
            e matches BuildError::StructuralGridError { file, fault } && file@ == tasks@[i].name@
                && examples_fault(tasks@[i].examples@, fault)),
{
    let mut i: usize = 0;
    while i < tasks.len()
        invariant
            i <= tasks@.len(),
            forall|k: int| 0 <= k < i ==> #[trigger] examples_are_wellformed(tasks@[k].examples@),
        decreases tasks@.len() - i,
    {
        match check_examples(&tasks[i].examples) {
            Err(fault) => {
                let file = tasks[i].name.clone();
                assert(!examples_are_wellformed(tasks@[i as int].examples@));
                return Err(BuildError::StructuralGridError { file, fault });
            },
            Ok(()) => {},
        }
        i = i + 1;
    }
    let ghost all = tasks@;
    let sorted = sort_by_identifier(tasks);
    proof {
        broadcast use vstd::seq_lib::group_to_multiset_ensures;

        assert forall|k: int| 0 <= k < sorted@.len() implies #[trigger] grids_have_rows(
            sorted@[k].examples@,
        ) by {
            let t = sorted@[k];
            assert(sorted@.contains(t));
            assert(sorted@.to_multiset().count(t) > 0);
            assert(all.contains(t));
            let j = choose|j: int| 0 <= j < all.len() && all[j] == t;
            lemma_wellformed_have_rows(all[j].examples@);
        }
    }
    let doc = index_page_html(&sorted);
    Ok(doc)
}

} // verus!
