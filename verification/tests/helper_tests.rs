use rust_tutorial::borrowing;
use rust_tutorial::functions::add_one;
use rust_tutorial::functions::get_five;
use rust_tutorial::hash_map::final_scores;
use rust_tutorial::hash_map::initial_scores;
use rust_tutorial::hash_map::updated_scores;
use rust_tutorial::ownership;
use rust_tutorial::tuples::divide;

#[test]
fn calculate_length_counts_bytes() {
    let s1 = String::from("Hello");
    assert_eq!(borrowing::calculate_length(&s1), 5);
    // the string is still usable afterwards: it was only borrowed
    assert_eq!(s1, "Hello");

    let s5 = String::from("Rust");
    assert_eq!(ownership::calculate_length(&s5), 4);
    assert_eq!(s5, "Rust");

    assert_eq!(borrowing::calculate_length(&String::new()), 0);
}

#[test]
fn change_appends_through_a_mutable_borrow() {
    let mut s = String::from("Hello");
    borrowing::change(&mut s);
    assert_eq!(s, "Hello, world");
}

#[test]
fn get_five_returns_five() {
    assert_eq!(get_five(), 5);
}

#[test]
fn add_one_increments() {
    assert_eq!(add_one(get_five()), 6);
    assert_eq!(add_one(-1), 0);
    assert_eq!(add_one(i32::MAX - 1), i32::MAX);
}

#[test]
fn divide_returns_quotient_and_remainder() {
    assert_eq!(divide(10, 3), (3, 1));
    assert_eq!(divide(9, 3), (3, 0));
    assert_eq!(divide(1, 5), (0, 1));
}

#[test]
fn score_lists_hold_the_scripted_states_in_insertion_order() {
    assert_eq!(initial_scores(), vec![("Blue", 10), ("Red", 50)]);
    assert_eq!(updated_scores(), vec![("Blue", 25), ("Red", 50), ("Yellow", 50)]);
    assert_eq!(final_scores(), vec![("Blue", 25), ("Yellow", 50)]);
}

#[test]
fn score_lists_agree_with_a_real_map_run_of_the_script() {
    let mut scores = std::collections::HashMap::new();
    scores.insert("Blue", 10);
    scores.insert("Red", 50);
    assert_eq!(scores.len(), initial_scores().len());
    for (key, value) in initial_scores() {
        assert_eq!(scores.get(key), Some(&value));
    }

    scores.insert("Blue", 25);
    scores.entry("Yellow").or_insert(50);
    scores.entry("Blue").or_insert(50);
    assert_eq!(scores.len(), updated_scores().len());
    for (key, value) in updated_scores() {
        assert_eq!(scores.get(key), Some(&value));
    }

    scores.remove("Red");
    assert_eq!(scores.len(), final_scores().len());
    for (key, value) in final_scores() {
        assert_eq!(scores.get(key), Some(&value));
    }
}

#[test]
fn divide_truncates_toward_zero() {
    assert_eq!(divide(-7, 2), (-3, -1));
    assert_eq!(divide(7, -2), (-3, 1));
    assert_eq!(divide(-7, -2), (3, -1));
    assert_eq!(divide(i32::MIN, 2), (i32::MIN / 2, 0));
    assert_eq!(divide(i32::MIN, -2), (i32::MIN / -2, 0));
}
