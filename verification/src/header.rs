//! HTTP header values, made through the `http` crate's checked constructor.

use reqwest::header::{HeaderValue, InvalidHeaderValue};
use vstd::prelude::*;
use vstd::utf8::encode_utf8;

verus! {

#[verifier::external_type_specification]
#[verifier::external_body]
pub struct ExHeaderValue(HeaderValue);

#[verifier::external_type_specification]
#[verifier::external_body]
pub struct ExInvalidHeaderValue(InvalidHeaderValue);

/// A byte that may stand in an HTTP header value: visible ASCII, a space,
/// a tab, or any byte from 0x80 up.
pub open spec fn header_value_byte(b: u8) -> bool {
    (b >= 32 && b != 127) || b == 9
}

/// Whether every byte of `bytes` may stand in an HTTP header value.
pub open spec fn header_value_ok(bytes: Seq<u8>) -> bool {
    forall|i: int| 0 <= i < bytes.len() ==> header_value_byte(#[trigger] bytes[i])
}

/// A header value together with the text it was made from. Only
/// `header_value_from_str` makes one, so the value always holds the bytes
/// of the text.
#[derive(Debug)]
pub struct HeaderText {
    text: String,
    value: HeaderValue,
}

impl HeaderText {
    /// The text the value was made from.
    pub closed spec fn spec_text(&self) -> Seq<char> {
        self.text@
    }

    /// The text the value was made from.
    pub fn text(&self) -> (t: &str)
        ensures
            t@ == self.spec_text(),
    {
        self.text.as_str()
    }

    /// The header value.
    pub fn value(&self) -> &HeaderValue {
        &self.value
    }

    /// The header value, for a request.
    pub fn into_value(self) -> HeaderValue {
        self.value
    }
}

/// `HeaderValue::from_str` (the `http` crate, as `reqwest::header`): it
/// accepts the string exactly when every byte of its UTF-8 encoding may
/// stand in a header value, and the value then holds a copy of those bytes,
/// returned here beside the string it was made from.
#[verifier::external_body]
pub(crate) fn header_value_from_str(s: &str) -> (r: Result<HeaderText, InvalidHeaderValue>)
    ensures
        r is Ok <==> header_value_ok(encode_utf8(s@)),
        r matches Ok(h) ==> h.spec_text() == s@,
{
    match HeaderValue::from_str(s) {
        Ok(value) => Ok(HeaderText { text: s.to_owned(), value }),
        Err(e) => Err(e),
    }
}

/// The `Display` rendering of `InvalidHeaderValue`, which is always
/// "failed to parse header value".
#[verifier::external_body]
pub(crate) fn invalid_header_value_message(e: &InvalidHeaderValue) -> (m: String)
    ensures
        m@ == "failed to parse header value"@,
{
    e.to_string()
}

} // verus!
