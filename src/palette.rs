//! The style sheet shared by every document, and the colour palette.
use crate::grid::{color_class, color_class_text};
use vstd::prelude::*;

verus! {

/// Layout and typography rules; the palette rules follow them.
pub const STYLE_BASE: &'static str = r#"
@import url("https://fonts.googleapis.com/css2?family=Anonymous+Pro:ital,wght@0,400;0,700;1,400;1,700");

@font-face {
    font-family: 'AtariClassicChunky';
    src: url('https://arcprize.org/media/fonts/AtariClassicChunky.eot');
    src: url('https://arcprize.org/media/fonts/AtariClassicChunky.eot?#iefix') format('embedded-opentype'),
        url('https://arcprize.org/media/fonts/AtariClassicChunky.woff2') format('woff2'),
        url('https://arcprize.org/media/fonts/AtariClassicChunky.woff') format('woff'),
        url('https://arcprize.org/media/fonts/AtariClassicChunky.svg#AtariClassicChunky') format('svg');
    font-weight: normal;
    font-style: normal;
    font-display: swap;
}
:root {
    --white: #EEEEEE;
    --offwhite: #C0C0C0;
    --black: #000000;
    --magenta: #E53AA3;
    --magenta-light: #ff7bcc;
    --red: #F93C31;
    --blue: #1E93FF;
    --blue-light: #87D8F1;
    --yellow: #FFDC00;
    --orange: #FF851B;
    --maroon: #921231;
    --green: #4FCC30;
    --gray: #555555;
    --gray-light: #999999;
}

body {
    background-color: var(--black);
    color: var(--white);
    font-family: 'Anonymous Pro', monospace;
    display: flex;
    flex-direction: column;
    align-items: center;
    margin: 0;
    padding: 20px;
}

h1 {
    font-family: 'AtariClassicChunky', monospace;
    color: var(--magenta);
    margin-bottom: 30px;
}

h3 {
    word-break: break-all;
    word-wrap: anywhere;
    white-space: normal;
    height: 35pt;
    margin: 0px;
}

.task-container {
    display: flex;
    flex-wrap: wrap;
    gap: 20px;
    width: 100%;
    max-width: 2200px;
    justify-content: center;
}

.task {
    flex: 0 1 auto;
    min-width: 200px;

    background-color: var(--black);
    padding: 10px;

    border: 0.5px solid var(--gray);
}

.subtask {
    flex: 0 1 auto;
    min-width: 200px;
    // max-width: 400px;

    background-color: var(--black);
    padding: 10px;
}

.task-title {
    color: var(--offwhite);
    margin-bottom: 3px;
    font-size: 14px;
}

.grid-container {
    display: flex;
    flex-direction: column;
    gap: 3px;
}

.grid {
    display: grid;
}

.cell {
    width: 10px;
    height: 10px;
    border: 0.2px solid var(--gray);
}


a {
    color: var(--blue);
    text-decoration: none;
}

a:hover {
    color: var(--blue-light);
}

p {
    margin: 0px;
}

.invariants-container {
    margin-top: 10px;
    padding: 10px;
    border: 1px solid #ddd;
    border-radius: 4px;
}

.invariant {
    display: inline-block;
    margin: 2px 5px;
    padding: 2px 6px;
    background-color: #262626;
    border-radius: 3px;
    font-size: 0.9em;
}

.palette-container {
    margin-top: 10px;
}

.palette {
    display: flex;
    gap: 2px;
    margin: 5px 0;
}
"#;

/// The style variable that names the colour of index `d`.
pub open spec fn palette_var(d: nat) -> Seq<char> {
    if d == 0 {
        "black"@
    } else if d == 1 {
        "blue"@
    } else if d == 2 {
        "red"@
    } else if d == 3 {
        "green"@
    } else if d == 4 {
        "yellow"@
    } else if d == 5 {
        "gray-light"@
    } else if d == 6 {
        "magenta"@
    } else if d == 7 {
        "orange"@
    } else if d == 8 {
        "blue-light"@
    } else {
        "maroon"@
    }
}

/// The rule that gives cells of colour index `d` their colour.
pub open spec fn color_rule(d: nat) -> Seq<char> {
    "."@ + color_class(d as int) + " { background-color: var(--"@ + palette_var(d) + "); }\n"@
}

/// The rules for colour indices `0..n`, in order.
pub open spec fn palette_rules(n: nat) -> Seq<char>
    decreases n,
{
    if n == 0 {
        Seq::empty()
    } else {
        palette_rules((n - 1) as nat) + color_rule((n - 1) as nat)
    }
}

/// The whole style sheet: layout rules, then one rule per colour index.
pub open spec fn style_sheet() -> Seq<char> {
    STYLE_BASE@ + palette_rules(10)
}

/// The style variable of a colour index.
pub fn palette_var_text(d: u8) -> (r: &'static str)
    requires
        d < 10,
    ensures
        r@ == palette_var(d as nat),
{
    if d == 0 {
        "black"
    } else if d == 1 {
        "blue"
    } else if d == 2 {
        "red"
    } else if d == 3 {
        "green"
    } else if d == 4 {
        "yellow"
    } else if d == 5 {
        "gray-light"
    } else if d == 6 {
        "magenta"
    } else if d == 7 {
        "orange"
    } else if d == 8 {
        "blue-light"
    } else {
        "maroon"
    }
}

/// The colour rule of a colour index.
pub fn color_rule_text(d: u8) -> (r: String)
    requires
        d < 10,
    ensures
        r@ == color_rule(d as nat),
{
    let mut r = String::from_str(".");
    let class = color_class_text(d as i64);
    r.append(class.as_str());
    r.append(" { background-color: var(--");
    r.append(palette_var_text(d));
    r.append("); }\n");
    r
}

/// The style sheet embedded in every document.
pub fn style_sheet_text() -> (r: String)
    ensures
        r@ == style_sheet(),
{
    let mut r = String::from_str(STYLE_BASE);
    let mut d: u8 = 0;
    while d < 10
        invariant
            d <= 10,
            r@ == STYLE_BASE@ + palette_rules(d as nat),
        decreases 10 - d,
    {
        let rule = color_rule_text(d);
        r.append(rule.as_str());
        proof {
            vstd::seq_lib::lemma_concat_associative(STYLE_BASE@, palette_rules(d as nat), rule@);
        }
        d = d + 1;
    }
    r
}

} // verus!
