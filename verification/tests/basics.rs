use crash_course::basics::{find_largest_char, find_largest_i32, greet};

#[test]
fn add_sums_two_numbers() {
    assert_eq!(crash_course::basics::add(5, 3), 8);
    assert_eq!(crash_course::basics::add(-7, 7), 0);
    assert_eq!(crash_course::basics::add(i32::MAX, -1), 2147483646);
    assert_eq!(crash_course::basics::add(i32::MIN, i32::MAX), -1);
}

#[test]
fn largest_number_of_a_list() {
    let numbers: Vec<i32> = vec![34, 50, 25, 100, 65];
    assert_eq!(find_largest_i32(&numbers), 100);
}

#[test]
fn largest_number_of_one_element() {
    assert_eq!(find_largest_i32(&[-3]), -3);
}

#[test]
fn largest_number_among_negatives_and_repeats() {
    assert_eq!(find_largest_i32(&[-5, -2, -9, -2]), -2);
    assert_eq!(find_largest_i32(&[i32::MIN, i32::MIN]), i32::MIN);
    assert_eq!(find_largest_i32(&[1, i32::MAX, 0]), i32::MAX);
}

#[test]
fn largest_number_stands_first_or_last() {
    assert_eq!(find_largest_i32(&[9, 1, 2]), 9);
    assert_eq!(find_largest_i32(&[1, 2, 9]), 9);
}

#[test]
fn largest_char_of_a_list() {
    let chars: Vec<char> = vec!['y', 'm', 'a', 'q'];
    assert_eq!(find_largest_char(&chars), 'y');
}

#[test]
fn largest_char_goes_by_code_point() {
    assert_eq!(find_largest_char(&['Z', 'a']), 'a');
    assert_eq!(find_largest_char(&['a', 'é', 'z']), 'é');
    assert_eq!(find_largest_char(&['x']), 'x');
}

#[test]
fn greeting_names_the_one_greeted() {
    assert_eq!(greet("Alice"), "Hello, Alice!");
    assert_eq!(greet("Rust"), "Hello, Rust!");
}

#[test]
fn greeting_of_nobody_keeps_the_frame() {
    assert_eq!(greet(""), "Hello, !");
}

#[test]
fn greeting_keeps_any_characters() {
    assert_eq!(greet("Zoë & Ødipus"), "Hello, Zoë & Ødipus!");
}
