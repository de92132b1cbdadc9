use zeno::cstr::is_null_terminated;
use zeno::cstr::make_c_string;
use zeno::file::entry_message;
use zeno::file::read_entire_file;
use zeno::slice::Slice;

fn bytes_of(s: &Slice<u8>) -> Vec<u8> {
    let mut out: Vec<u8> = Vec::new();
    let mut i: usize = 0;
    while i < s.len() {
        out.push(*s.index(i));
        i += 1;
    }
    out
}

#[test]
fn successful_open_yields_the_content() {
    let path = make_c_string(b"zeno.rs".to_vec());
    let outcome = read_entire_file(&path, true);
    let content = outcome.expect("an opened file reads successfully");
    assert_eq!(bytes_of(&content), b"Hello, world!".to_vec());
    assert!(is_null_terminated(&content));
}

#[test]
fn failed_open_yields_the_opaque_error() {
    let path = make_c_string(b"no-such-file".to_vec());
    let outcome = read_entire_file(&path, false);
    assert!(outcome.is_err());
}

#[test]
fn entry_point_prints_content_on_success() {
    let path = make_c_string(b"zeno.rs".to_vec());
    let outcome = read_entire_file(&path, true);
    let message = entry_message(outcome);
    assert_eq!(bytes_of(&message), b"Hello, world!".to_vec());
    assert!(is_null_terminated(&message));
}

#[test]
fn entry_point_prints_the_fallback_on_failure() {
    let path = make_c_string(Vec::new());
    let outcome = read_entire_file(&path, false);
    let message = entry_message(outcome);
    assert_eq!(bytes_of(&message), b"FREE".to_vec());
    assert!(is_null_terminated(&message));
}
