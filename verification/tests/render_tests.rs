use rust_tutorial::render::banner_lines;
use rust_tutorial::render::divider_line;
use rust_tutorial::render::goodbye_lines;
use rust_tutorial::render::invalid_choice_line;
use rust_tutorial::render::menu_lines;
use rust_tutorial::render::parse_error_line;
use rust_tutorial::render::prompt_line;
use rust_tutorial::render::topic_name;

const TOPIC_NAMES: [&str; 15] = [
    "Variables",
    "Data Types",
    "Operators",
    "Conditions",
    "Loops",
    "Functions",
    "Strings",
    "Ownership",
    "Borrowing",
    "Arrays",
    "Vectors",
    "Tuples",
    "Hash Maps",
    "Structs",
    "Enums",
];

#[test]
fn topic_names_match_the_menu_order() {
    for (i, expected) in TOPIC_NAMES.iter().enumerate() {
        assert_eq!(topic_name(i + 1), *expected);
    }
}

#[test]
fn banner_has_the_expected_lines() {
    let lines = banner_lines();
    let expected: Vec<String> = vec![
        String::new(),
        "â•".repeat(60),
        "â•”â•â•â•â•â•â•â•â•â•â•â•â•â•â•â•â•â•â•â•â•â•â•â•â•â•â•â•â•â•â•â•â•â•â•â•â•â•â•â•â•â•â•â•â•â•â•â•â•â•â•â•â•â•â•â•â•â•—".to_string(),
        "â•‘                                                        â•‘".to_string(),
        "â•‘          ğŸš€  WELCOME TO RUST TUTORIAL  ğŸš€             â•‘".to_string(),
        "â•‘                                                        â•‘".to_string(),
        "â•‘        Learn Rust Programming Step by Step            â•‘".to_string(),
        "â•‘                                                        â•‘".to_string(),
        "â•šâ•â•â•â•â•â•â•â•â•â•â•â•â•â•â•â•â•â•â•â•â•â•â•â•â•â•â•â•â•â•â•â•â•â•â•â•â•â•â•â•â•â•â•â•â•â•â•â•â•â•â•â•â•â•â•â•â•".to_string(),
        "â•".repeat(60),
        String::new(),
    ];
    assert_eq!(lines, expected);
}

#[test]
fn goodbye_has_the_expected_lines() {
    let lines = goodbye_lines();
    let expected: Vec<String> = vec![
        String::new(),
        "â•".repeat(60),
        "â•”â•â•â•â•â•â•â•â•â•â•â•â•â•â•â•â•â•â•â•â•â•â•â•â•â•â•â•â•â•â•â•â•â•â•â•â•â•â•â•â•â•â•â•â•â•â•â•â•â•â•â•â•â•â•â•â•â•—".to_string(),
        "â•‘                                                        â•‘".to_string(),
        "â•‘          âœ¨  Thank You for Learning Rust!  âœ¨         â•‘".to_string(),
        "â•‘                                                        â•‘".to_string(),
        "â•‘              Keep Coding and Have Fun! ğŸ¦€             â•‘".to_string(),
        "â•‘                                                        â•‘".to_string(),
        "â•šâ•â•â•â•â•â•â•â•â•â•â•â•â•â•â•â•â•â•â•â•â•â•â•â•â•â•â•â•â•â•â•â•â•â•â•â•â•â•â•â•â•â•â•â•â•â•â•â•â•â•â•â•â•â•â•â•â•".to_string(),
        "â•".repeat(60),
        String::new(),
    ];
    assert_eq!(lines, expected);
}

#[test]
fn menu_matches_the_two_column_format() {
    let lines = menu_lines();
    let mut expected: Vec<String> = vec![
        String::new(),
        "â•".repeat(60),
        "ğŸ“š  AVAILABLE TOPICS".to_string(),
        "â•".repeat(60),
        String::new(),
    ];
    let mut row = String::new();
    for (i, topic) in TOPIC_NAMES.iter().enumerate() {
        row.push_str(&format!("  {:2}. {:<20}", i + 1, topic));
        if (i + 1) % 2 == 0 {
            expected.push(row.clone());
            row.clear();
        }
    }
    expected.push(row);
    expected.push(String::new());
    expected.push("â”€".repeat(60));
    expected.push("   0. Exit Tutorial".to_string());
    expected.push("â•".repeat(60));
    assert_eq!(lines, expected);
}

#[test]
fn menu_rendering_is_identical_across_calls() {
    assert_eq!(menu_lines(), menu_lines());
    assert_eq!(banner_lines(), banner_lines());
    assert_eq!(goodbye_lines(), goodbye_lines());
}

#[test]
fn divider_is_sixty_light_bars() {
    assert_eq!(divider_line(), "â”€".repeat(60));
}

#[test]
fn prompt_and_messages_match() {
    assert_eq!(prompt_line(), "ğŸ‘‰ Enter your choice: ");
    assert_eq!(parse_error_line(), "âŒ Invalid input! Please enter a number.");
    assert_eq!(invalid_choice_line(), "âŒ Invalid choice! Please enter a number between 0 and 15.");
    assert!(invalid_choice_line().contains("between 0 and 15"));
}
