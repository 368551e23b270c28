//! The strings of the foreign-call boundary.
//!
//! Two kinds of string cross the boundary. A string that comes in belongs to
//! the foreign caller: it is read for the length of the call, decoded into a
//! string of the library's own, and never kept or freed. A string that goes
//! out is an [`OwnedForeignString`]: it is made here, handed over whole, and
//! lives until the caller gives it back to [`free_c_char_mem`], once.
//!
//! Pointers are the host's business. A pointer that may be null is an
//! `Option` here, and the memory behind it a slice of bytes.

use vstd::prelude::*;
use vstd::string::*;
use vstd::utf8::*;
use crate::configuration::EntryPoint;
use crate::location::Location;
use crate::session::{execute, spec_execute, Session};

verus! {

/// The text that stands for a version nobody knows.
pub const UNKNOWN_VERSION: &'static str = "unknown";

/// True for a run of bytes that ends in a zero and holds no other.
pub open spec fn is_terminated(bytes: Seq<u8>) -> bool {
    &&& bytes.len() >= 1
    &&& bytes.last() == 0
    &&& forall|i: int| 0 <= i < bytes.len() - 1 ==> bytes[i] != 0
}

/// A text cannot go out: it holds a zero byte before its end.
#[derive(Clone, Copy, Debug, PartialEq, Eq)]
pub struct InteriorNul {
    /// Where the first zero byte stands.
    pub position: usize,
}

/// A string made for the foreign caller: the bytes of a text and the zero
/// that ends them, as they lie in memory. Whoever holds the value owns that
/// memory; releasing takes the value, so a string is released once.
#[derive(Debug, PartialEq, Eq)]
pub struct OwnedForeignString {
    bytes: Vec<u8>,
}

impl View for OwnedForeignString {
    type V = Seq<u8>;

    /// The bytes in memory, the ending zero included.
    closed spec fn view(&self) -> Seq<u8> {
        self.bytes@
    }
}

impl OwnedForeignString {
    #[verifier::type_invariant]
    spec fn terminated(self) -> bool {
        is_terminated(self.bytes@)
    }

    /// Makes the string that holds `text`. A text with a zero byte in it
    /// cannot be told from a shorter one on the other side: it is refused,
    /// with the place of its first zero byte.
    pub fn new(text: &str) -> (made: Result<OwnedForeignString, InteriorNul>)
        ensures
            match made {
                Ok(string) => {
                    &&& !encode_utf8(text@).contains(0u8)
                    &&& string@ == encode_utf8(text@).push(0u8)
                    &&& is_terminated(string@)
                },
                Err(error) => {
                    &&& error.position < encode_utf8(text@).len()
                    &&& encode_utf8(text@)[error.position as int] == 0
                    &&& forall|j: int| 0 <= j < error.position ==> encode_utf8(text@)[j] != 0
                },
            },
    {
        let source = text.as_bytes();
        let mut bytes: Vec<u8> = Vec::new();
        let mut i: usize = 0;
        while i < source.len()
            invariant
                source@ == encode_utf8(text@),
                i <= source@.len(),
                bytes@ == source@.take(i as int),
                forall|j: int| 0 <= j < i ==> source@[j] != 0,
            decreases source@.len() - i,
        {
            let byte: u8 = source[i];
            if byte == 0 {
                return Err(InteriorNul { position: i });
            }
            bytes.push(byte);
            assert(bytes@ == source@.take(i + 1));
            i = i + 1;
        }
        assert(source@.take(i as int) == source@);
        bytes.push(0u8);
        Ok(OwnedForeignString { bytes })
    }

    /// The number of bytes that the string takes in memory: those of its
    /// text and the ending zero.
    pub fn allocation_len(&self) -> (len: usize)
        ensures
            len == self@.len(),
            len >= 1,
    {
        proof {
            use_type_invariant(self);
        }
        self.bytes.len()
    }

    /// The bytes in memory, the ending zero included.
    pub fn as_bytes_with_nul(&self) -> (bytes: &[u8])
        ensures
            bytes@ == self@,
            is_terminated(bytes@),
    {
        proof {
            use_type_invariant(self);
        }
        self.bytes.as_slice()
    }

    /// Gives up the string for its memory: the bytes, the ending zero
    /// included, in an allocation of exactly that length.
    pub fn into_bytes_with_nul(self) -> (bytes: Vec<u8>)
        ensures
            bytes@ == self@,
            is_terminated(bytes@),
    {
        proof {
            use_type_invariant(&self);
        }
        self.bytes
    }

    /// Takes back the memory of a string that was given up. Bytes that do
    /// not end in their only zero are no such memory, and are refused.
    pub fn from_bytes_with_nul(bytes: Vec<u8>) -> (taken: Option<OwnedForeignString>)
        ensures
            taken is Some <==> is_terminated(bytes@),
            taken matches Some(string) ==> string@ == bytes@,
    {
        let len = bytes.len();
        if len == 0 {
            return None;
        }
        let mut i: usize = 0;
        while i < len - 1
            invariant
                len == bytes@.len(),
                len >= 1,
                i <= len - 1,
                forall|j: int| 0 <= j < i ==> bytes@[j] != 0,
            decreases len - i,
        {
            if bytes[i] == 0 {
                return None;
            }
            i = i + 1;
        }
        if bytes[len - 1] != 0 {
            return None;
        }
        Some(OwnedForeignString { bytes })
    }
}

/// Turns a text into a string for the foreign caller.
pub fn to_c_str(s: String) -> (string: OwnedForeignString)
    requires
        !encode_utf8(s@).contains(0u8),
    ensures
        string@ == encode_utf8(s@).push(0u8),
        is_terminated(string@),
{
    match OwnedForeignString::new(s.as_str()) {
        Ok(string) => string,
        Err(error) => {
            assert(encode_utf8(s@).contains(encode_utf8(s@)[error.position as int]));
            unreached()
        },
    }
}

/// What decoding `bytes` as text gives when each sequence of bytes that is
/// no valid UTF-8 is replaced by the replacement character.
pub uninterp spec fn lossy_text(bytes: Seq<u8>) -> Seq<char>;

/// `String::from_utf8_lossy` of the standard library, with its result made a
/// `String`. The decoding never fails. The contract names the result, and
/// says of it what the documentation says: bytes that are valid UTF-8 give
/// the text they encode.
#[verifier::external_body]
fn decode_lossy(bytes: &[u8]) -> (text: String)
    ensures
        text@ == lossy_text(bytes@),
        valid_utf8(bytes@) ==> text@ == decode_utf8(bytes@),
{
    String::from_utf8_lossy(bytes).into_owned()
}

/// Decodes a string of the foreign caller into a text of the library's own.
/// `c_str` is the memory behind the caller's pointer up to its ending zero,
/// or none for a null pointer. A caller that passes null breaks its side of
/// the boundary; the host must stop such a call before it gets here.
pub fn c_str_to_safe_string(c_str: Option<&[u8]>) -> (text: String)
    requires
        c_str is Some,
    ensures
        text@ == lossy_text(c_str.unwrap()@),
        valid_utf8(c_str.unwrap()@) ==> text@ == decode_utf8(c_str.unwrap()@),
{
    match c_str {
        Some(bytes) => decode_lossy(bytes),
        None => unreached(),
    }
}

/// The text of a version: the version itself, or [`UNKNOWN_VERSION`] where
/// the build knows none.
pub open spec fn spec_version_text(pkg_version: Option<Seq<char>>) -> Seq<char> {
    match pkg_version {
        Some(version) => version,
        None => UNKNOWN_VERSION@,
    }
}

/// The text of a version: the version itself, or [`UNKNOWN_VERSION`] where
/// the build knows none.
pub fn version_text<'a>(pkg_version: Option<&'a str>) -> (text: &'a str)
    ensures
        text@ == spec_version_text(pkg_version.deep_view()),
{
    match pkg_version {
        Some(version) => version,
        None => UNKNOWN_VERSION,
    }
}

/// The text for an unknown version holds no zero byte.
proof fn lemma_unknown_version_goes_out()
    ensures
        !encode_utf8(UNKNOWN_VERSION@).contains(0u8),
{
    reveal_strlit("unknown");
    let chars = UNKNOWN_VERSION@;
    assert(is_ascii_chars(chars));
    is_ascii_chars_encode_utf8(chars);
    let bytes = encode_utf8(UNKNOWN_VERSION@);
    assert forall|i: int| 0 <= i < bytes.len() implies bytes[i] != 0 by {
        assert(chars[i] as u8 == bytes[i]);
    }
}

/// The version of the build as a string for the foreign caller, or the text
/// "unknown" where the build knows none.
pub fn get_version(pkg_version: Option<&str>) -> (string: OwnedForeignString)
    requires
        pkg_version matches Some(version) ==> !encode_utf8(version@).contains(0u8),
    ensures
        string@ == encode_utf8(spec_version_text(pkg_version.deep_view())).push(0u8),
        pkg_version is None ==> string@ == encode_utf8(UNKNOWN_VERSION@).push(0u8),
        pkg_version matches Some(version) ==> string@ == encode_utf8(version@).push(0u8),
        is_terminated(string@),
{
    proof {
        lemma_unknown_version_goes_out();
    }
    let text = version_text(pkg_version);
    match OwnedForeignString::new(text) {
        Ok(string) => string,
        Err(error) => {
            assert(encode_utf8(text@).contains(encode_utf8(text@)[error.position as int]));
            unreached()
        },
    }
}

/// Releases a string that the foreign caller gives back: takes it, and with
/// it its memory. None stands for a null pointer, for which nothing is done.
/// Returns the number of bytes released, which is the whole of what was
/// allocated for the string: its text and the ending zero.
pub fn free_c_char_mem(c: Option<OwnedForeignString>) -> (released: usize)
    ensures
        released == (match c {
            Some(string) => string@.len(),
            None => 0,
        }),
{
    match c {
        Some(string) => {
            let bytes = string.into_bytes_with_nul();
            bytes.len()
        },
        None => 0,
    }
}

/// Starts an embedded formatting call from the foreign caller's two strings:
/// `code`, the text to format, and `path`, the file or directory from which
/// the configuration is searched first. Both are decoded, invalid bytes
/// replaced; neither may be null.
pub fn format<C>(code: Option<&[u8]>, path: Option<&[u8]>, working_dir: Location) -> (session:
    Session<C>)
    requires
        code is Some,
        path is Some,
    ensures
        session@ == spec_execute::<C>(
            lossy_text(code.unwrap()@),
            Some(lossy_text(path.unwrap()@)),
            working_dir@,
            EntryPoint::Embedded,
            false,
        ),
{
    let config_path: Option<String> = Some(c_str_to_safe_string(path));
    let buffer = c_str_to_safe_string(code);
    execute(buffer, config_path, working_dir, EntryPoint::Embedded, false)
}

} // verus!
