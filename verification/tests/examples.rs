use tauri_blazor_demo::examples::{
    emit_random_number, open_example_window, random_number_event, TestData, RANDOM_NUMBER_EVENT,
    RAND_NUM_MAX, RAND_NUM_MIN,
};

#[test]
fn random_number_bounds_are_one_and_a_hundred() {
    assert_eq!(RAND_NUM_MIN, 1);
    assert_eq!(RAND_NUM_MAX, 100);
}

#[test]
fn random_number_never_leaves_the_range() {
    let mut round: u32 = 0;
    while round < 20_000 {
        let event = emit_random_number();
        assert!(event.payload.rand_num >= 1, "drew {}", event.payload.rand_num);
        assert!(event.payload.rand_num <= 100, "drew {}", event.payload.rand_num);
        round += 1;
    }
}

#[test]
fn random_number_reaches_both_ends_of_the_range() {
    let mut seen = vec![false; 101];
    let mut round: u32 = 0;
    while round < 20_000 {
        let drawn: i32 = emit_random_number().payload.rand_num;
        assert!((1..=100).contains(&drawn));
        seen[usize::try_from(drawn).unwrap()] = true;
        round += 1;
    }
    assert!(!seen[0]);
    assert!(seen[1], "1 was never drawn");
    assert!(seen[100], "100 was never drawn");
}

#[test]
fn random_number_is_not_one_of_its_bounds_every_time() {
    let first: i32 = emit_random_number().payload.rand_num;
    let mut differs = false;
    let mut round: u32 = 0;
    while round < 1_000 {
        if emit_random_number().payload.rand_num != first {
            differs = true;
        }
        round += 1;
    }
    assert!(differs, "a thousand draws all gave {}", first);
}

#[test]
fn emitted_event_is_named_and_signed() {
    let event = emit_random_number();
    assert_eq!(event.name, "random-number");
    assert_eq!(event.name, RANDOM_NUMBER_EVENT);
    assert_eq!(event.payload.name, "Rust");
}

#[test]
fn random_number_event_carries_the_number_it_was_given() {
    let lowest = random_number_event(1);
    assert_eq!(lowest.name, "random-number");
    assert_eq!(lowest.payload.name, "Rust");
    assert_eq!(lowest.payload.rand_num, 1);

    let middle = random_number_event(42);
    assert_eq!(middle.name, "random-number");
    assert_eq!(middle.payload.name, "Rust");
    assert_eq!(middle.payload.rand_num, 42);

    let highest = random_number_event(100);
    assert_eq!(highest.name, "random-number");
    assert_eq!(highest.payload.name, "Rust");
    assert_eq!(highest.payload.rand_num, 100);
}

#[test]
fn test_data_clone_keeps_both_fields() {
    let data = TestData { name: "Rust".to_string(), rand_num: 57 };
    let copy = data.clone();
    assert_eq!(copy.name, "Rust");
    assert_eq!(copy.rand_num, 57);
    assert_eq!(data.name, "Rust");
    assert_eq!(data.rand_num, 57);
}

#[test]
fn example_window_has_the_configured_title_and_size() {
    let window = open_example_window();
    assert_eq!(window.label, "examples");
    assert_eq!(window.path, "/Examples");
    assert_eq!(window.title, "Examples");
    assert_eq!(window.width, 600);
    assert_eq!(window.height, 450);
}

#[test]
fn example_window_is_the_same_every_time() {
    let first = open_example_window();
    let second = open_example_window();
    assert_eq!(first.label, second.label);
    assert_eq!(first.path, second.path);
    assert_eq!(first.title, second.title);
    assert_eq!(first.width, second.width);
    assert_eq!(first.height, second.height);
}
