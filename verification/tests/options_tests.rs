use cmdpick::options::{extract_payload, generate_options, reverse_string};

#[test]
fn generate_hello_world() {
    let opts = generate_options("Hello World");
    assert_eq!(opts.len(), 3);
    assert_eq!(opts[0], "Option 1: ls -la");
    assert_eq!(opts[1], "Option 2: hello world");
    assert_eq!(opts[2], "Option 3: dlroW olleH");
}

#[test]
fn generate_empty_input() {
    let opts = generate_options("");
    assert_eq!(opts.len(), 3);
    assert_eq!(opts[0], "Option 1: ls -la");
    assert_eq!(opts[1], "Option 2: ");
    assert_eq!(opts[2], "Option 3: ");
}

#[test]
fn labels_are_distinct_prefixes() {
    let opts = generate_options("anything");
    assert!(opts[0].starts_with("Option 1: "));
    assert!(opts[1].starts_with("Option 2: "));
    assert!(opts[2].starts_with("Option 3: "));
}

#[test]
fn lowercase_payload() {
    let opts = generate_options("Hello World");
    assert_eq!(extract_payload(&opts[1]), "hello world");
}

#[test]
fn reverse_payload() {
    let opts = generate_options("Hello World");
    assert_eq!(extract_payload(&opts[2]), "dlroW olleH");
}

#[test]
fn reverse_round_trip() {
    let once = reverse_string("Hello World");
    assert_eq!(once, "dlroW olleH");
    assert_eq!(reverse_string(&once), "Hello World");
}

#[test]
fn reverse_multibyte_characters() {
    assert_eq!(reverse_string("héllo"), "olléh");
}

#[test]
fn payload_takes_first_delimiter() {
    assert_eq!(extract_payload("a: b: c"), "b: c");
}

#[test]
fn payload_without_delimiter_is_whole_string() {
    assert_eq!(extract_payload("no delimiter here"), "no delimiter here");
}

#[test]
fn payload_of_fixed_option() {
    assert_eq!(extract_payload("Option 1: ls -la"), "ls -la");
}
