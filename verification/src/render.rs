//! The exact text the menu controller prints.
//!
//! Every piece of controller output — the welcome banner, the numbered
//! topic menu, the prompt, the two error messages, the divider and the
//! goodbye banner — is built here as a value, pinned down by a
//! specification, and handed to the caller to write out. The menu lists
//! each topic as `"<index>. <name>"`, two entries per line, with the index
//! right-aligned to two columns and the name padded to twenty characters.

use vstd::prelude::*;
use vstd::string::StringExecFns;
use vstd::string::StrSliceExecFns;

verus! {

/// `n` copies of `piece`, concatenated.
pub open spec fn spec_repeat(piece: Seq<char>, n: nat) -> Seq<char>
    decreases n,
{
    if n == 0 {
        Seq::empty()
    } else {
        spec_repeat(piece, (n - 1) as nat) + piece
    }
}

/// Build the concatenation of `count` copies of `piece`.
fn repeat_str(piece: &str, count: usize) -> (repeated: String)
    ensures
        repeated@ == spec_repeat(piece@, count as nat),
{
    let mut repeated = String::new();
    let mut i: usize = 0;
    while i < count
        invariant
            0 <= i <= count,
            repeated@ == spec_repeat(piece@, i as nat),
        decreases count - i,
    {
        repeated.append(piece);
        proof {
            assert(repeated@ =~= spec_repeat(piece@, i as nat + 1));
        }
        i = i + 1;
    }
    repeated
}

/// `s` padded with spaces on the right to `width` characters; a longer
/// `s` is kept whole.
pub open spec fn spec_pad_right(s: Seq<char>, width: nat) -> Seq<char>
    decreases width,
{
    if s.len() >= width {
        s
    } else {
        spec_pad_right(s, (width - 1) as nat).push(' ')
    }
}

/// Pad `s` with spaces on the right to `width` characters.
fn pad_right(s: &str, width: usize) -> (padded: String)
    ensures
        padded@ == spec_pad_right(s@, width as nat),
{
    let mut padded = s.to_owned();
    let mut n = s.unicode_len();
    while n < width
        invariant
            n >= s@.len(),
            n <= width || n == s@.len(),
            padded@ == spec_pad_right(s@, n as nat),
        decreases width - n,
    {
        padded.append(" ");
        proof {
            reveal_strlit(" ");
            assert(padded@ =~= spec_pad_right(s@, n as nat + 1));
        }
        n = n + 1;
    }
    padded
}

/// The ASCII digit character for `d`.
pub open spec fn spec_digit_char(d: nat) -> char {
    if d == 0 {
        '0'
    } else if d == 1 {
        '1'
    } else if d == 2 {
        '2'
    } else if d == 3 {
        '3'
    } else if d == 4 {
        '4'
    } else if d == 5 {
        '5'
    } else if d == 6 {
        '6'
    } else if d == 7 {
        '7'
    } else if d == 8 {
        '8'
    } else {
        '9'
    }
}

/// The one-character string for the digit `d`.
fn digit_str(d: usize) -> (digit: &'static str)
    requires
        d <= 9,
    ensures
        digit@.len() == 1,
        digit@[0] == spec_digit_char(d as nat),
{
    proof {
        reveal_strlit("0");
        reveal_strlit("1");
        reveal_strlit("2");
        reveal_strlit("3");
        reveal_strlit("4");
        reveal_strlit("5");
        reveal_strlit("6");
        reveal_strlit("7");
        reveal_strlit("8");
        reveal_strlit("9");
    }
    match d {
        0 => "0",
        1 => "1",
        2 => "2",
        3 => "3",
        4 => "4",
        5 => "5",
        6 => "6",
        7 => "7",
        8 => "8",
        _ => "9",
    }
}

/// A menu index printed right-aligned in two columns: a space before a
/// single digit, both digits otherwise.
pub open spec fn spec_index_width2(i: nat) -> Seq<char> {
    if i < 10 {
        seq![' ', spec_digit_char(i)]
    } else {
        seq![spec_digit_char(i / 10), spec_digit_char(i % 10)]
    }
}

/// Format a menu index right-aligned to two columns.
fn index_width2(i: usize) -> (formatted: String)
    requires
        i <= 99,
    ensures
        formatted@ == spec_index_width2(i as nat),
{
    proof {
        reveal_strlit(" ");
    }
    if i < 10 {
        let mut formatted = String::from_str(" ");
        formatted.append(digit_str(i));
        proof {
            assert(formatted@ =~= spec_index_width2(i as nat));
        }
        formatted
    } else {
        let mut formatted = digit_str(i / 10).to_owned();
        formatted.append(digit_str(i % 10));
        proof {
            assert(formatted@ =~= spec_index_width2(i as nat));
        }
        formatted
    }
}

/// The display name of the topic at the given 1-based menu index.
pub open spec fn spec_topic_name(index: nat) -> Seq<char> {
    if index == 1 {
        "Variables"@
    } else if index == 2 {
        "Data Types"@
    } else if index == 3 {
        "Operators"@
    } else if index == 4 {
        "Conditions"@
    } else if index == 5 {
        "Loops"@
    } else if index == 6 {
        "Functions"@
    } else if index == 7 {
        "Strings"@
    } else if index == 8 {
        "Ownership"@
    } else if index == 9 {
        "Borrowing"@
    } else if index == 10 {
        "Arrays"@
    } else if index == 11 {
        "Vectors"@
    } else if index == 12 {
        "Tuples"@
    } else if index == 13 {
        "Hash Maps"@
    } else if index == 14 {
        "Structs"@
    } else {
        "Enums"@
    }
}

/// Look up the display name of the topic at a 1-based menu index.
pub fn topic_name(index: usize) -> (name: &'static str)
    requires
        1 <= index <= 15,
    ensures
        name@ == spec_topic_name(index as nat),
{
    match index {
        1 => "Variables",
        2 => "Data Types",
        3 => "Operators",
        4 => "Conditions",
        5 => "Loops",
        6 => "Functions",
        7 => "Strings",
        8 => "Ownership",
        9 => "Borrowing",
        10 => "Arrays",
        11 => "Vectors",
        12 => "Tuples",
        13 => "Hash Maps",
        14 => "Structs",
        _ => "Enums",
    }
}

/// One formatted menu entry: two spaces, the index in two columns, a dot,
/// a space, and the topic name padded to twenty characters.
pub open spec fn spec_menu_entry(index: nat, name: Seq<char>) -> Seq<char> {
    "  "@ + spec_index_width2(index) + ". "@ + spec_pad_right(name, 20)
}

/// Format one menu entry.
fn menu_entry(index: usize, name: &str) -> (entry: String)
    requires
        index <= 99,
    ensures
        entry@ == spec_menu_entry(index as nat, name@),
{
    let mut entry = String::from_str("  ");
    entry.append(index_width2(index).as_str());
    entry.append(". ");
    entry.append(pad_right(name, 20).as_str());
    proof {
        assert(entry@ =~= spec_menu_entry(index as nat, name@));
    }
    entry
}

/// One piece of the heavy rule drawn above and below the banner and menu.
pub open spec fn spec_heavy_bar() -> Seq<char> {
    "â•"@
}

/// One piece of the light rule drawn between menu rounds.
pub open spec fn spec_light_bar() -> Seq<char> {
    "â”€"@
}

/// The lines above the topic entries: a blank line, a heavy rule, the
/// menu title, another heavy rule, and a blank line.
pub open spec fn spec_menu_header() -> Seq<Seq<char>> {
    seq![
        Seq::<char>::empty(),
        spec_repeat(spec_heavy_bar(), 60),
        "ğŸ“š  AVAILABLE TOPICS"@,
        spec_repeat(spec_heavy_bar(), 60),
        Seq::<char>::empty(),
    ]
}

/// One row of topic entries: two per row, except the last topic, which
/// stands alone.
pub open spec fn spec_menu_row(row: nat) -> Seq<char> {
    if row < 7 {
        spec_menu_entry(2 * row + 1, spec_topic_name(2 * row + 1)) + spec_menu_entry(
            2 * row + 2,
            spec_topic_name(2 * row + 2),
        )
    } else {
        spec_menu_entry(15, spec_topic_name(15))
    }
}

/// The lines below the topic entries: a blank line, a light rule, the
/// exit option, and a closing heavy rule.
pub open spec fn spec_menu_footer() -> Seq<Seq<char>> {
    seq![
        Seq::<char>::empty(),
        spec_repeat(spec_light_bar(), 60),
        "   0. Exit Tutorial"@,
        spec_repeat(spec_heavy_bar(), 60),
    ]
}

/// Every line of the rendered topic menu, in print order.
pub open spec fn spec_menu_lines() -> Seq<Seq<char>> {
    spec_menu_header() + Seq::new(8, |row: int| spec_menu_row(row as nat)) + spec_menu_footer()
}

/// Render the topic menu: the title between heavy rules, the fifteen
/// numbered entries two per line, and the exit option.
pub fn menu_lines() -> (lines: Vec<String>)
    ensures
        lines.deep_view() == spec_menu_lines(),
{
    let mut lines: Vec<String> = Vec::new();
    lines.push(String::new());
    lines.push(repeat_str("â•", 60));
    lines.push("ğŸ“š  AVAILABLE TOPICS".to_owned());
    lines.push(repeat_str("â•", 60));
    lines.push(String::new());
    proof {
        assert(lines.deep_view() =~~= spec_menu_header() + Seq::new(
            0,
            |row: int| spec_menu_row(row as nat),
        ));
    }
    let mut row: usize = 0;
    while row < 8
        invariant
            0 <= row <= 8,
            lines.deep_view() == spec_menu_header() + Seq::new(
                row as nat,
                |r: int| spec_menu_row(r as nat),
            ),
        decreases 8 - row,
    {
        let line = if row < 7 {
            let mut line = menu_entry(2 * row + 1, topic_name(2 * row + 1));
            line.append(menu_entry(2 * row + 2, topic_name(2 * row + 2)).as_str());
            proof {
                assert(line@ =~= spec_menu_row(row as nat));
            }
            line
        } else {
            menu_entry(15, topic_name(15))
        };
        proof {
            assert(line@ == spec_menu_row(row as nat));
        }
        let ghost prev = lines.deep_view();
        lines.push(line);
        proof {
            assert(lines.deep_view() =~~= prev.push(line@));
            assert(prev.push(line@) =~~= spec_menu_header() + Seq::new(
                row as nat + 1,
                |r: int| spec_menu_row(r as nat),
            ));
        }
        row = row + 1;
    }
    lines.push(String::new());
    lines.push(repeat_str("â”€", 60));
    lines.push("   0. Exit Tutorial".to_owned());
    lines.push(repeat_str("â•", 60));
    proof {
        assert(lines.deep_view() =~~= spec_menu_lines());
    }
    lines
}

/// Every line of the welcome banner, blank lines included.
pub open spec fn spec_banner_lines() -> Seq<Seq<char>> {
    seq![
        Seq::<char>::empty(),
        spec_repeat(spec_heavy_bar(), 60),
        "â•”â•â•â•â•â•â•â•â•â•â•â•â•â•â•â•â•â•â•â•â•â•â•â•â•â•â•â•â•â•â•â•â•â•â•â•â•â•â•â•â•â•â•â•â•â•â•â•â•â•â•â•â•â•â•â•â•â•—"@,
        "â•‘                                                        â•‘"@,
        "â•‘          ğŸš€  WELCOME TO RUST TUTORIAL  ğŸš€             â•‘"@,
        "â•‘                                                        â•‘"@,
        "â•‘        Learn Rust Programming Step by Step            â•‘"@,
        "â•‘                                                        â•‘"@,
        "â•šâ•â•â•â•â•â•â•â•â•â•â•â•â•â•â•â•â•â•â•â•â•â•â•â•â•â•â•â•â•â•â•â•â•â•â•â•â•â•â•â•â•â•â•â•â•â•â•â•â•â•â•â•â•â•â•â•â•"@,
        spec_repeat(spec_heavy_bar(), 60),
        Seq::<char>::empty(),
    ]
}

/// Render the welcome banner shown once at startup.
pub fn banner_lines() -> (lines: Vec<String>)
    ensures
        lines.deep_view() == spec_banner_lines(),
{
    let mut lines: Vec<String> = Vec::new();
    lines.push(String::new());
    lines.push(repeat_str("â•", 60));
    lines.push("â•”â•â•â•â•â•â•â•â•â•â•â•â•â•â•â•â•â•â•â•â•â•â•â•â•â•â•â•â•â•â•â•â•â•â•â•â•â•â•â•â•â•â•â•â•â•â•â•â•â•â•â•â•â•â•â•â•â•—".to_owned());
    lines.push("â•‘                                                        â•‘".to_owned());
    lines.push("â•‘          ğŸš€  WELCOME TO RUST TUTORIAL  ğŸš€             â•‘".to_owned());
    lines.push("â•‘                                                        â•‘".to_owned());
    lines.push("â•‘        Learn Rust Programming Step by Step            â•‘".to_owned());
    lines.push("â•‘                                                        â•‘".to_owned());
    lines.push("â•šâ•â•â•â•â•â•â•â•â•â•â•â•â•â•â•â•â•â•â•â•â•â•â•â•â•â•â•â•â•â•â•â•â•â•â•â•â•â•â•â•â•â•â•â•â•â•â•â•â•â•â•â•â•â•â•â•â•".to_owned());
    lines.push(repeat_str("â•", 60));
    lines.push(String::new());
    proof {
        assert(lines.deep_view() =~~= spec_banner_lines());
    }
    lines
}

/// Every line of the goodbye banner, blank lines included.
pub open spec fn spec_goodbye_lines() -> Seq<Seq<char>> {
    seq![
        Seq::<char>::empty(),
        spec_repeat(spec_heavy_bar(), 60),
        "â•”â•â•â•â•â•â•â•â•â•â•â•â•â•â•â•â•â•â•â•â•â•â•â•â•â•â•â•â•â•â•â•â•â•â•â•â•â•â•â•â•â•â•â•â•â•â•â•â•â•â•â•â•â•â•â•â•â•—"@,
        "â•‘                                                        â•‘"@,
        "â•‘          âœ¨  Thank You for Learning Rust!  âœ¨         â•‘"@,
        "â•‘                                                        â•‘"@,
        "â•‘              Keep Coding and Have Fun! ğŸ¦€             â•‘"@,
        "â•‘                                                        â•‘"@,
        "â•šâ•â•â•â•â•â•â•â•â•â•â•â•â•â•â•â•â•â•â•â•â•â•â•â•â•â•â•â•â•â•â•â•â•â•â•â•â•â•â•â•â•â•â•â•â•â•â•â•â•â•â•â•â•â•â•â•â•"@,
        spec_repeat(spec_heavy_bar(), 60),
        Seq::<char>::empty(),
    ]
}

/// Render the goodbye banner shown when the session ends.
pub fn goodbye_lines() -> (lines: Vec<String>)
    ensures
        lines.deep_view() == spec_goodbye_lines(),
{
    let mut lines: Vec<String> = Vec::new();
    lines.push(String::new());
    lines.push(repeat_str("â•", 60));
    lines.push("â•”â•â•â•â•â•â•â•â•â•â•â•â•â•â•â•â•â•â•â•â•â•â•â•â•â•â•â•â•â•â•â•â•â•â•â•â•â•â•â•â•â•â•â•â•â•â•â•â•â•â•â•â•â•â•â•â•â•—".to_owned());
    lines.push("â•‘                                                        â•‘".to_owned());
    lines.push("â•‘          âœ¨  Thank You for Learning Rust!  âœ¨         â•‘".to_owned());
    lines.push("â•‘                                                        â•‘".to_owned());
    lines.push("â•‘              Keep Coding and Have Fun! ğŸ¦€             â•‘".to_owned());
    lines.push("â•‘                                                        â•‘".to_owned());
    lines.push("â•šâ•â•â•â•â•â•â•â•â•â•â•â•â•â•â•â•â•â•â•â•â•â•â•â•â•â•â•â•â•â•â•â•â•â•â•â•â•â•â•â•â•â•â•â•â•â•â•â•â•â•â•â•â•â•â•â•â•".to_owned());
    lines.push(repeat_str("â•", 60));
    lines.push(String::new());
    proof {
        assert(lines.deep_view() =~~= spec_goodbye_lines());
    }
    lines
}

/// The light rule printed after a dispatched choice, before the menu is
/// shown again.
pub fn divider_line() -> (line: String)
    ensures
        line@ == spec_repeat(spec_light_bar(), 60),
{
    repeat_str("â”€", 60)
}

/// The input prompt, printed without a trailing newline.
pub open spec fn spec_prompt() -> Seq<char> {
    "ğŸ‘‰ Enter your choice: "@
}

/// Render the input prompt.
pub fn prompt_line() -> (line: String)
    ensures
        line@ == spec_prompt(),
{
    "ğŸ‘‰ Enter your choice: ".to_owned()
}

/// The message reported when a line of input does not parse as a number.
pub open spec fn spec_parse_error_message() -> Seq<char> {
    "âŒ Invalid input! Please enter a number."@
}

/// Render the parse-error message.
pub fn parse_error_line() -> (line: String)
    ensures
        line@ == spec_parse_error_message(),
{
    "âŒ Invalid input! Please enter a number.".to_owned()
}

/// The message reported when a parsed choice is outside the menu.
pub open spec fn spec_invalid_choice_message() -> Seq<char> {
    "âŒ Invalid choice! Please enter a number between 0 and 15."@
}

/// Render the invalid-choice message.
pub fn invalid_choice_line() -> (line: String)
    ensures
        line@ == spec_invalid_choice_message(),
{
    "âŒ Invalid choice! Please enter a number between 0 and 15.".to_owned()
}

} // verus!
