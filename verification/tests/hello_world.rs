use hello_world::{exit_status, hello_message, hello_str, STDOUT_FD, STD_OUTPUT_HANDLE};

#[test]
fn message_bytes_are_exact() {
    let expected: Vec<u8> = vec![
        72, 101, 108, 108, 111, 44, 32, 119, 111, 114, 108, 100, 33, 10,
    ];
    assert_eq!(hello_message(), expected);
}

#[test]
fn message_bytes_spell_the_greeting() {
    assert_eq!(hello_message(), b"Hello, world!\n".to_vec());
}

#[test]
fn message_text_is_exact() {
    assert_eq!(hello_str(), "Hello, world!\n");
}

#[test]
fn text_and_bytes_agree() {
    assert_eq!(hello_str().as_bytes(), hello_message().as_slice());
}

#[test]
fn success_exits_with_zero() {
    assert_eq!(exit_status(true), 0);
}

#[test]
fn failure_exits_with_one() {
    assert_eq!(exit_status(false), 1);
}

#[test]
fn stdout_identifiers_are_the_well_known_ones() {
    assert_eq!(STDOUT_FD, 1);
    assert_eq!(STD_OUTPUT_HANDLE, (-11i32) as u32);
    assert_eq!(STD_OUTPUT_HANDLE, 4294967285);
}
