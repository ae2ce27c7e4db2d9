//! The puzzle data model and its structural checks.
use vstd::prelude::*;

verus! {

/// One input/output pair of grids. A grid is a sequence of rows of colour
/// indices.
pub struct Example {
    pub input: Vec<Vec<i64>>,
    pub output: Vec<Vec<i64>>,
}

/// A task: its identifier and its examples, in file order.
pub struct Task {
    pub name: String,
    pub examples: Vec<Example>,
}

/// Why a grid is not well formed.
#[derive(Clone, Copy, Debug, PartialEq, Eq, Structural)]
pub enum GridError {
    /// The grid has no rows, or its first row has no values.
    Empty,
    /// `row` is the first row whose length differs from the first row's.
    Ragged { row: usize },
}

/// Which grid of an example a fault was found in.
#[derive(Clone, Copy, Debug, PartialEq, Eq, Structural)]
pub enum Side {
    Input,
    Output,
}

/// The first structural fault among a task's examples.
#[derive(Clone, Copy, Debug, PartialEq, Eq, Structural)]
pub struct ExampleFault {
    pub example: usize,
    pub side: Side,
    pub error: GridError,
}

/// A grid is well formed when it has at least one row, its first row at
/// least one value, and all rows the same length.
pub open spec fn grid_is_wellformed(g: Seq<Vec<i64>>) -> bool {
    &&& g.len() > 0
    &&& g[0]@.len() > 0
    &&& forall|i: int| 0 <= i < g.len() ==> #[trigger] g[i]@.len() == g[0]@.len()
}

/// `e` is the fault reported for grid `g`: emptiness first, else the
/// first row whose length differs from the first row's.
pub open spec fn grid_fault(g: Seq<Vec<i64>>, e: GridError) -> bool {
    match e {
        GridError::Empty => g.len() == 0 || g[0]@.len() == 0,
        GridError::Ragged { row } => {
            &&& g.len() > 0
            &&& g[0]@.len() > 0
            &&& row < g.len()
            &&& g[row as int]@.len() != g[0]@.len()
            &&& forall|k: int| 0 <= k < row ==> #[trigger] g[k]@.len() == g[0]@.len()
        },
    }
}

/// Both grids of an example are well formed.
pub open spec fn example_is_wellformed(e: Example) -> bool {
    grid_is_wellformed(e.input@) && grid_is_wellformed(e.output@)
}

/// Every grid of every example is well formed.
pub open spec fn examples_are_wellformed(exs: Seq<Example>) -> bool {
    forall|i: int| 0 <= i < exs.len() ==> #[trigger] example_is_wellformed(exs[i])
}

/// `f` is the first structural fault of `exs`, input grid before output grid.
pub open spec fn examples_fault(exs: Seq<Example>, f: ExampleFault) -> bool {
    &&& f.example < exs.len()
    &&& forall|k: int| 0 <= k < f.example ==> #[trigger] example_is_wellformed(exs[k])
    &&& match f.side {
        Side::Input => grid_fault(exs[f.example as int].input@, f.error),
        Side::Output => grid_is_wellformed(exs[f.example as int].input@) && grid_fault(
            exs[f.example as int].output@,
            f.error,
        ),
    }
}

/// Checks that a grid is non-empty and rectangular.
pub fn check_grid(g: &Vec<Vec<i64>>) -> (r: Result<(), GridError>)
    ensures
        r is Ok <==> grid_is_wellformed(g@),
        r matches Err(e) ==> grid_fault(g@, e),
{
    if g.len() == 0 || g[0].len() == 0 {
        return Err(GridError::Empty);
    }
    let width = g[0].len();
    let mut i: usize = 1;
    while i < g.len()
        invariant
            1 <= i <= g@.len(),
            width == g@[0]@.len(),
            width > 0,
            forall|k: int| 0 <= k < i ==> #[trigger] g@[k]@.len() == width,
        decreases g@.len() - i,
    {
        if g[i].len() != width {
            return Err(GridError::Ragged { row: i });
        }
        i = i + 1;
    }
    Ok(())
}

/// Checks every grid of every example, reporting the first fault.
pub fn check_examples(exs: &Vec<Example>) -> (r: Result<(), ExampleFault>)
    ensures
        r is Ok <==> examples_are_wellformed(exs@),
        r matches Err(f) ==> examples_fault(exs@, f),
{
    let mut i: usize = 0;
    while i < exs.len()
        invariant
            i <= exs@.len(),
            forall|k: int| 0 <= k < i ==> #[trigger] example_is_wellformed(exs@[k]),
        decreases exs@.len() - i,
    {
        match check_grid(&exs[i].input) {
            Err(error) => {
                assert(!example_is_wellformed(exs@[i as int]));
                return Err(ExampleFault { example: i, side: Side::Input, error });
            },
            Ok(()) => {},
        }
        match check_grid(&exs[i].output) {
            Err(error) => {
                assert(!example_is_wellformed(exs@[i as int]));
                return Err(ExampleFault { example: i, side: Side::Output, error });
            },
            Ok(()) => {},
        }
        i = i + 1;
    }
    Ok(())
}

/// The identifier of a task file: its name without the `.json` suffix.
pub open spec fn identifier_of(file_name: Seq<char>) -> Option<Seq<char>> {
    if file_name.len() >= 5 && file_name.subrange(file_name.len() - 5, file_name.len() as int)
        == ".json"@ {
        Some(file_name.subrange(0, file_name.len() - 5))
    } else {
        None
    }
}

/// Strips the `.json` suffix of a task file name; `None` when it has none.
pub fn task_identifier(file_name: &str) -> (r: Option<String>)
    ensures
        r matches Some(s) ==> identifier_of(file_name@) == Some(s@),
        r is None ==> identifier_of(file_name@) is None,
{
    proof {
        reveal_strlit(".json");
    }
    let n = file_name.unicode_len();
    if n < 5 {
        return None;
    }
    let expected = [ '.', 'j', 's', 'o', 'n' ];
    let mut k: usize = 0;
    while k < 5
        invariant
            n == file_name@.len(),
            n >= 5,
            k <= 5,
            expected@ == ".json"@,
            forall|m: int| 0 <= m < k ==> #[trigger] file_name@[n - 5 + m] == ".json"@[m],
        decreases 5 - k,
    {
        let c = file_name.get_char(n - 5 + k);
        if c != expected[k] {
            assert(file_name@.subrange(n - 5, n as int)[k as int] != ".json"@[k as int]);
            return None;
        }
        k = k + 1;
    }
    assert(".json"@.len() == 5);
    assert forall|m: int| 0 <= m < 5 implies file_name@.subrange(n - 5, n as int)[m]
        == ".json"@[m] by {
        assert(file_name@[n - 5 + m] == ".json"@[m]);
    }
    assert(file_name@.subrange(n - 5, n as int) =~= ".json"@);
    let stem = file_name.substring_char(0, n - 5);
    Some(String::from_str(stem))
}

} // verus!
