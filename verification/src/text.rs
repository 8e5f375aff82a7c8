//! Text handling at the C boundary: decoding the bytes of a C string and
//! composing the diagnostic lines that the bindings print.
use vstd::prelude::*;
use vstd::string::*;
use vstd::utf8::*;

verus! {

/// Decodes the bytes of a C string (the bytes before its terminating NUL).
///
/// Trusted wrapper around `std::str::from_utf8`: its documentation says that
/// it fails exactly when the bytes are not well-formed UTF-8 and that on
/// success the returned string slice is made of the very same bytes.
#[verifier::external_body]
fn utf8_str(bytes: &[u8]) -> (r: Option<&str>)
    ensures
        r is Some <==> valid_utf8(bytes@),
        r matches Some(s) ==> s.spec_bytes() == bytes@,
{
    std::str::from_utf8(bytes).ok()
}

/// The text that a well-formed UTF-8 byte sequence denotes, or `None`.
pub open spec fn c_text(bytes: Seq<u8>) -> Option<Seq<char>> {
    if valid_utf8(bytes) {
        Some(decode_utf8(bytes))
    } else {
        None
    }
}

/// Decodes the bytes of a C string into an owned `String`; `None` when the
/// bytes are not UTF-8 (the bindings then report "Invalid UTF-8").
pub fn decode_c_string(bytes: &[u8]) -> (r: Option<String>)
    ensures
        r matches Some(s) ==> c_text(bytes@) == Some(s@),
        r is None ==> c_text(bytes@) is None,
{
    match utf8_str(bytes) {
        Some(s) => {
            proof {
                decode_utf8_encode_utf8(bytes@);
                encode_utf8_decode_utf8(s@);
            }
            Some(s.to_owned())
        },
        None => None,
    }
}

/// The prefix of every diagnostic line that the bindings print.
pub open spec fn error_prefix() -> Seq<char> {
    "[Arnelify Server]: Rust FFI error in "@
}

/// The diagnostic line printed by binding `func` for a problem `detail`:
/// `[Arnelify Server]: Rust FFI error in <func>: <detail>.`
pub open spec fn ffi_error_text(func: Seq<char>, detail: Seq<char>) -> Seq<char> {
    error_prefix() + func + ": "@ + detail + "."@
}

/// Builds the diagnostic line `[Arnelify Server]: Rust FFI error in <func>: <detail>.`
pub fn ffi_error(func: &str, detail: &str) -> (r: String)
    ensures
        r@ == ffi_error_text(func@, detail@),
{
    let mut s = String::from_str("[Arnelify Server]: Rust FFI error in ");
    s.append(func);
    s.append(": ");
    s.append(detail);
    s.append(".");
    s
}

/// Builds the detail `Invalid UTF-8 in '<param>'`.
pub fn invalid_utf8_detail(param: &str) -> (r: String)
    ensures
        r@ == "Invalid UTF-8 in '"@ + param@ + "'"@,
{
    let mut s = String::from_str("Invalid UTF-8 in '");
    s.append(param);
    s.append("'");
    s
}

/// Builds the detail `Invalid JSON in '<param>'`.
pub fn invalid_json_detail(param: &str) -> (r: String)
    ensures
        r@ == "Invalid JSON in '"@ + param@ + "'"@,
{
    let mut s = String::from_str("Invalid JSON in '");
    s.append(param);
    s.append("'");
    s
}

} // verus!
