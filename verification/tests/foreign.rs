use anaconda_rust::configuration::EntryPoint;
use anaconda_rust::foreign::{
    c_str_to_safe_string, free_c_char_mem, get_version, to_c_str, version_text,
    InteriorNul, OwnedForeignString, UNKNOWN_VERSION,
};
use anaconda_rust::location::Location;
use anaconda_rust::session::{Pending, Session};

fn root() -> Location {
    Location::new(Some("/".to_string()), Vec::new())
}

#[test]
fn owned_string_holds_the_text_and_an_ending_zero() {
    let string = OwnedForeignString::new("abc").expect("no zero byte inside");
    assert_eq!(string.as_bytes_with_nul(), &b"abc\0"[..]);
    assert_eq!(string.allocation_len(), 4);
}

#[test]
fn empty_text_is_a_single_zero() {
    let string = OwnedForeignString::new("").expect("no zero byte inside");
    assert_eq!(string.as_bytes_with_nul(), &[0u8][..]);
    assert_eq!(string.allocation_len(), 1);
}

#[test]
fn text_beyond_ascii_goes_out_as_utf8() {
    let string = OwnedForeignString::new("é").expect("no zero byte inside");
    assert_eq!(string.into_bytes_with_nul(), vec![0xc3, 0xa9, 0]);
}

#[test]
fn text_with_a_zero_byte_is_refused_with_its_place() {
    assert_eq!(OwnedForeignString::new("ab\0cd\0"), Err(InteriorNul { position: 2 }));
    assert_eq!(OwnedForeignString::new("\0"), Err(InteriorNul { position: 0 }));
}

#[test]
fn to_c_str_terminates_the_text() {
    assert_eq!(to_c_str("1.2.3".to_string()).into_bytes_with_nul(), b"1.2.3\0".to_vec());
}

#[test]
fn memory_given_up_is_taken_back_whole() {
    let bytes = to_c_str("hello".to_string()).into_bytes_with_nul();
    assert_eq!(bytes.len(), 6);
    let again = OwnedForeignString::from_bytes_with_nul(bytes).expect("ends in its only zero");
    assert_eq!(again.as_bytes_with_nul(), &b"hello\0"[..]);
    assert_eq!(free_c_char_mem(Some(again)), 6);
}

#[test]
fn bytes_that_are_no_terminated_string_are_refused() {
    assert_eq!(OwnedForeignString::from_bytes_with_nul(Vec::new()), None);
    assert_eq!(OwnedForeignString::from_bytes_with_nul(b"abc".to_vec()), None);
    assert_eq!(OwnedForeignString::from_bytes_with_nul(b"a\0c\0".to_vec()), None);
    assert_eq!(OwnedForeignString::from_bytes_with_nul(b"\0\0".to_vec()), None);
    assert!(OwnedForeignString::from_bytes_with_nul(b"\0".to_vec()).is_some());
}

#[test]
fn releasing_null_does_nothing() {
    assert_eq!(free_c_char_mem(None), 0);
}

#[test]
fn releasing_a_string_releases_text_and_terminator() {
    assert_eq!(free_c_char_mem(Some(to_c_str("".to_string()))), 1);
    assert_eq!(free_c_char_mem(Some(to_c_str("0.1.0".to_string()))), 6);
}

#[test]
fn version_is_the_build_version() {
    assert_eq!(version_text(Some("0.3.1")), "0.3.1");
    assert_eq!(get_version(Some("0.3.1")).into_bytes_with_nul(), b"0.3.1\0".to_vec());
}

#[test]
fn version_is_unknown_without_a_build_version() {
    assert_eq!(UNKNOWN_VERSION, "unknown");
    assert_eq!(version_text(None), "unknown");
    assert_eq!(get_version(None).into_bytes_with_nul(), b"unknown\0".to_vec());
}

#[test]
fn valid_text_is_decoded_as_it_is() {
    assert_eq!(c_str_to_safe_string(Some(&b"fn main() {}"[..])), "fn main() {}");
    assert_eq!(c_str_to_safe_string(Some(&[0xc3, 0xa9][..])), "é");
    assert_eq!(c_str_to_safe_string(Some(&[][..])), "");
}

#[test]
fn invalid_bytes_are_replaced_and_never_fail() {
    assert_eq!(c_str_to_safe_string(Some(&[b'a', 0xff, b'b'][..])), "a\u{fffd}b");
    assert_eq!(c_str_to_safe_string(Some(&[0xc3][..])), "\u{fffd}");
}

#[test]
fn format_starts_an_embedded_call_on_the_decoded_strings() {
    let session: Session<u32> =
        anaconda_rust::foreign::format(Some(&b"fn main() {}"[..]), Some(&b"/work/project"[..]), root());
    assert_eq!(session.buffer, "fn main() {}");
    assert_eq!(session.pending, Pending::Inspect { path: "/work/project".to_string() });
    assert_eq!(session.entry, EntryPoint::Embedded);
    assert!(!session.skip_children);
    assert_eq!(session.working_dir, root());
}

#[test]
fn format_replaces_invalid_bytes_in_both_strings() {
    let session: Session<u32> =
        anaconda_rust::foreign::format(Some(&[b'x', 0x80][..]), Some(&[0xfe, b'p'][..]), root());
    assert_eq!(session.buffer, "x\u{fffd}");
    assert_eq!(session.pending, Pending::Inspect { path: "\u{fffd}p".to_string() });
}
