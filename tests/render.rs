use arc_gallery::grid::{cell_html, create_2d_grid_html, get_size_string};
use arc_gallery::model::{
    check_examples, check_grid, task_identifier, Example, ExampleFault, GridError, Side, Task,
};
use arc_gallery::order::{sort_by_identifier, text_le_exec};
use arc_gallery::page::{create_task_html, index_page_html, task_page_html};
use arc_gallery::palette::style_sheet_text;
use arc_gallery::site::{render_index, render_task, BuildError};
use arc_gallery::text::{decimal_text, signed_decimal_text};

fn example(input: Vec<Vec<i64>>, output: Vec<Vec<i64>>) -> Example {
    Example { input, output }
}

fn task(name: &str, examples: Vec<Example>) -> Task {
    Task { name: name.to_string(), examples }
}

#[test]
fn decimal_text_values() {
    assert_eq!(decimal_text(0), "0");
    assert_eq!(decimal_text(7), "7");
    assert_eq!(decimal_text(10), "10");
    assert_eq!(decimal_text(1234), "1234");
    assert_eq!(decimal_text(u64::MAX), u64::MAX.to_string());
    assert_eq!(signed_decimal_text(-5), "-5");
    assert_eq!(signed_decimal_text(i64::MIN), i64::MIN.to_string());
    assert_eq!(signed_decimal_text(42), "42");
}

#[test]
fn size_label_rows_by_columns() {
    assert_eq!(get_size_string(&[vec![0, 1], vec![1, 0]]), "2×2");
    assert_eq!(get_size_string(&[vec![1, 2, 3, 4], vec![1, 2, 3, 4], vec![0, 0, 0, 0]]), "3×4");
    assert_eq!(get_size_string(&[vec![5]]), "1×1");
}

#[test]
fn cell_markup_uses_color_class() {
    assert_eq!(cell_html(0), "<div class=\"cell color-0\"></div>");
    assert_eq!(cell_html(9), "<div class=\"cell color-9\"></div>");
    assert_eq!(cell_html(3), cell_html(3));
}

#[test]
fn grid_markup_exact() {
    let html = create_2d_grid_html(&[vec![0, 1], vec![1, 0]]);
    assert_eq!(
        html,
        "<div class=\"grid\" style=\"grid-template-columns: repeat(2, 10px);\">\
<div class=\"cell color-0\"></div><div class=\"cell color-1\"></div>\
<div class=\"cell color-1\"></div><div class=\"cell color-0\"></div></div>"
    );
}

#[test]
fn style_sheet_holds_palette() {
    let css = style_sheet_text();
    assert!(css.contains(".color-0 { background-color: var(--black); }"));
    assert!(css.contains(".color-3 { background-color: var(--green); }"));
    assert!(css.contains(".color-5 { background-color: var(--gray-light); }"));
    assert!(css.contains(".color-9 { background-color: var(--maroon); }"));
    assert_eq!(css.matches("background-color: var(--blue);").count(), 1);
}

#[test]
fn example_block_round_trip() {
    let ex = example(vec![vec![0, 1], vec![1, 0]], vec![vec![1, 1], vec![1, 1]]);
    let page = task_page_html("t1", &vec![ex]);
    assert!(page.contains("<div class=\"task-title\">0 (2×2 → 2×2)</div>"));
    let cells: Vec<&str> = page.match_indices("class=\"cell color-").map(|(i, _)| &page[i + 18..i + 19]).collect();
    assert_eq!(cells, vec!["0", "1", "1", "0", "1", "1", "1", "1"]);
    assert!(page.contains("<title>RE-ARC t1</title>"));
    assert!(page.contains("https://arcprize.org/play?task=t1"));
    assert!(page.contains("<h3>(1 examples)</h3>"));
}

#[test]
fn task_page_numbers_blocks_in_order() {
    let exs = vec![
        example(vec![vec![1]], vec![vec![2]]),
        example(vec![vec![3, 3]], vec![vec![4]]),
        example(vec![vec![5]], vec![vec![6], vec![6]]),
    ];
    let page = task_page_html("abc", &exs);
    assert_eq!(page.matches("class=\"subtask\"").count(), 3);
    let first = page.find(">0 (1×1 → 1×1)<").unwrap();
    let second = page.find(">1 (1×2 → 1×1)<").unwrap();
    let third = page.find(">2 (1×1 → 2×1)<").unwrap();
    assert!(first < second && second < third);
}

#[test]
fn task_page_without_examples() {
    let page = task_page_html("empty", &vec![]);
    assert_eq!(page.matches("class=\"subtask\"").count(), 0);
    assert!(page.contains("<h3>(0 examples)</h3>"));
    assert!(page.ends_with("</div>\n</body>\n</html>\n"));
}

#[test]
fn example_block_label() {
    let ex = example(vec![vec![7, 8, 9]], vec![vec![1]]);
    let block = create_task_html(&ex, "example");
    assert!(block.contains("<div class=\"task-title\">example (1×3 → 1×1)</div>"));
}

#[test]
fn index_one_tile_per_nonempty_task() {
    let tasks = vec![
        task("a", vec![example(vec![vec![1]], vec![vec![2]]), example(vec![vec![3]], vec![vec![4]])]),
        task("b", vec![]),
    ];
    let page = index_page_html(&tasks);
    assert_eq!(page.matches("<div class=\"task\">").count(), 1);
    assert_eq!(page.matches("class=\"subtask\"").count(), 1);
    assert!(page.contains(">example (1×1 → 1×1)<"));
    assert!(page.contains("<p>(2 examples)</p>"));
    assert!(page.contains("href=\"a.html\""));
    assert!(!page.contains("b.html"));
}

#[test]
fn directory_of_two_files() {
    let (a, a_page) = render_task("a.json", vec![example(vec![vec![0]], vec![vec![1]])]).unwrap();
    let (b, b_page) = render_task("b.json", vec![]).unwrap();
    assert_eq!(a.name, "a");
    assert_eq!(b.name, "b");
    assert!(a_page.contains("<title>RE-ARC a</title>"));
    assert!(b_page.contains("<h3>(0 examples)</h3>"));
    let index = render_index(vec![b, a]).unwrap();
    assert_eq!(index.matches("<div class=\"task\">").count(), 1);
    assert!(index.contains("href=\"a.html\""));
    assert!(!index.contains("b.html"));
}

#[test]
fn index_is_sorted_by_identifier() {
    let one = || vec![example(vec![vec![0]], vec![vec![0]])];
    let index = render_index(vec![task("c", one()), task("a", one()), task("b", one())]).unwrap();
    let a = index.find("href=\"a.html\"").unwrap();
    let b = index.find("href=\"b.html\"").unwrap();
    let c = index.find("href=\"c.html\"").unwrap();
    assert!(a < b && b < c);
}

#[test]
fn sort_orders_names() {
    let sorted = sort_by_identifier(vec![
        task("b2", vec![]),
        task("a", vec![]),
        task("b", vec![]),
        task("ab", vec![]),
    ]);
    let names: Vec<String> = sorted.into_iter().map(|t| t.name).collect();
    assert_eq!(names, vec!["a", "ab", "b", "b2"]);
}

#[test]
fn text_order() {
    assert!(text_le_exec("", ""));
    assert!(text_le_exec("a", "b"));
    assert!(!text_le_exec("b", "a"));
    assert!(text_le_exec("ab", "abc"));
    assert!(!text_le_exec("abc", "ab"));
    assert!(text_le_exec("Z", "a"));
}

#[test]
fn identifier_strips_suffix() {
    assert_eq!(task_identifier("007bbfc7.json"), Some("007bbfc7".to_string()));
    assert_eq!(task_identifier(".json"), Some(String::new()));
    assert_eq!(task_identifier("notes.txt"), None);
    assert_eq!(task_identifier("json"), None);
    assert_eq!(task_identifier("é.json"), Some("é".to_string()));
}

#[test]
fn grid_checks() {
    assert_eq!(check_grid(&vec![vec![0, 1], vec![1, 0]]), Ok(()));
    assert_eq!(check_grid(&vec![]), Err(GridError::Empty));
    assert_eq!(check_grid(&vec![vec![]]), Err(GridError::Empty));
    assert_eq!(check_grid(&vec![vec![1, 2], vec![1, 2], vec![3], vec![]]), Err(GridError::Ragged { row: 2 }));
}

#[test]
fn example_checks() {
    let good = example(vec![vec![1]], vec![vec![2]]);
    let bad_out = example(vec![vec![1]], vec![vec![2, 2], vec![2]]);
    assert_eq!(check_examples(&vec![]), Ok(()));
    assert_eq!(
        check_examples(&vec![good, bad_out]),
        Err(ExampleFault { example: 1, side: Side::Output, error: GridError::Ragged { row: 1 } })
    );
    let bad_in = example(vec![], vec![vec![2]]);
    assert_eq!(
        check_examples(&vec![bad_in]),
        Err(ExampleFault { example: 0, side: Side::Input, error: GridError::Empty })
    );
}

#[test]
fn render_task_errors() {
    match render_task("task.txt", vec![]) {
        Err(BuildError::MalformedTaskFile { file }) => assert_eq!(file, "task.txt"),
        other => panic!("unexpected {:?}", other.map(|_| ())),
    }
    match render_task("c.json", vec![example(vec![vec![1, 2], vec![3]], vec![vec![1]])]) {
        Err(BuildError::StructuralGridError { file, fault }) => {
            assert_eq!(file, "c.json");
            assert_eq!(fault, ExampleFault { example: 0, side: Side::Input, error: GridError::Ragged { row: 1 } });
        }
        other => panic!("unexpected {:?}", other.map(|_| ())),
    }
}

#[test]
fn render_index_reports_faulty_task() {
    let tasks = vec![
        task("ok", vec![example(vec![vec![1]], vec![vec![1]])]),
        task("bad", vec![example(vec![vec![1]], vec![])]),
    ];
    match render_index(tasks) {
        Err(BuildError::StructuralGridError { file, fault }) => {
            assert_eq!(file, "bad");
            assert_eq!(fault, ExampleFault { example: 0, side: Side::Output, error: GridError::Empty });
        }
        other => panic!("unexpected {:?}", other),
    }
}

#[test]
fn index_does_not_depend_on_input_order() {
    let one = |v: i64| vec![example(vec![vec![v]], vec![vec![v]])];
    let first = render_index(vec![task("x", one(1)), task("m", one(2)), task("q", vec![])]).unwrap();
    let second = render_index(vec![task("q", vec![]), task("m", one(2)), task("x", one(1))]).unwrap();
    assert_eq!(first, second);
}
