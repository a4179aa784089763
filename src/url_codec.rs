//! The URL encoder and decoder page: percent-encoding of the input text, or
//! its decoding.

use vstd::prelude::*;
use vstd::utf8::encode_utf8;

verus! {

/// The bytes left as they are: ASCII letters and digits, `-`, `.`, `_`, `~`.
pub open spec fn unreserved(b: u8) -> bool {
    (48 <= b <= 57) || (65 <= b <= 90) || (97 <= b <= 122) || b == 45 || b == 46 || b == 95
        || b == 126
}

/// The upper-case hexadecimal digit of `d`.
pub open spec fn hex_digit(d: int) -> char {
    seq!['0', '1', '2', '3', '4', '5', '6', '7', '8', '9', 'A', 'B', 'C', 'D', 'E', 'F'][d]
}

/// Percent-encoding of bytes: each unreserved byte as its character, every
/// other byte as `%` and two upper-case hexadecimal digits.
pub open spec fn percent_encoded(b: Seq<u8>) -> Seq<char>
    decreases b.len(),
{
    if b.len() == 0 {
        Seq::empty()
    } else {
        let c = b.last();
        percent_encoded(b.drop_last()) + if unreserved(c) {
            seq![c as char]
        } else {
            seq!['%', hex_digit(c as int / 16), hex_digit(c as int % 16)]
        }
    }
}

/// The percent-encoding of the UTF-8 bytes of a text.
pub open spec fn url_encoded(s: Seq<char>) -> Seq<char> {
    percent_encoded(encode_utf8(s))
}

/// urlencoding's decoding of a text; `None` when the bytes decoded are no UTF-8.
pub uninterp spec fn url_decoded(s: Seq<char>) -> Option<Seq<char>>;

/// Relies on `urlencoding::encode`: every byte of the UTF-8 text but ASCII
/// letters, digits and `-`, `_`, `.`, `~` percent-encoded with upper-case digits.
#[verifier::external_body]
fn encode_url(s: &str) -> (r: String)
    ensures
        r@ == url_encoded(s@),
{
    urlencoding::encode(s).into_owned()
}

/// Relies on `urlencoding::decode`, which fails only on decoded bytes that
/// are no UTF-8.
#[verifier::external_body]
fn decode_url(s: &str) -> (r: Option<String>)
    ensures
        match r {
            Some(d) => url_decoded(s@) == Some(d@),
            None => url_decoded(s@) is None,
        },
{
    urlencoding::decode(s).ok().map(|d| d.into_owned())
}

/// The output after converting `input`: its encoding when `operation` is 0,
/// else its decoding, or the old output when decoding fails.
pub open spec fn url_output(input: Seq<char>, operation: usize, output: Seq<char>) -> Seq<char> {
    if operation == 0 {
        url_encoded(input)
    } else {
        match url_decoded(input) {
            Some(d) => d,
            None => output,
        }
    }
}

/// The URL page: its input and output texts and the operation chosen
/// (0 encodes, any other value decodes).
pub struct UrlEncoderDecoderPage {
    pub input: String,
    pub output: String,
    pub selected_operation: usize,
}

impl Default for UrlEncoderDecoderPage {
    /// A fresh page, empty and set to decode.
    fn default() -> (r: Self)
        ensures
            r.input@.len() == 0,
            r.output@.len() == 0,
            r.selected_operation == 1,
    {
        UrlEncoderDecoderPage::new()
    }
}

impl UrlEncoderDecoderPage {
    /// A fresh page, empty and set to decode.
    pub fn new() -> (r: Self)
        ensures
            r.input@.len() == 0,
            r.output@.len() == 0,
            r.selected_operation == 1,
    {
        UrlEncoderDecoderPage { input: String::new(), output: String::new(), selected_operation: 1 }
    }

    /// Converts the input into the output by the chosen operation.
    pub fn convert_input(&mut self)
        ensures
            final(self).input@ == old(self).input@,
            final(self).selected_operation == old(self).selected_operation,
            final(self).output@ == url_output(
                old(self).input@,
                old(self).selected_operation,
                old(self).output@,
            ),
    {
        if self.selected_operation == 0 {
            self.output = encode_url(self.input.as_str());
        } else {
            if let Some(decoded) = decode_url(self.input.as_str()) {
                self.output = decoded;
            }
        }
    }

    /// Chooses an operation; a new choice converts the input at once.
    pub fn change_operation(&mut self, selection: usize)
        ensures
            final(self).input@ == old(self).input@,
            final(self).selected_operation == selection,
            final(self).output@ == if selection == old(self).selected_operation {
                old(self).output@
            } else {
                url_output(old(self).input@, selection, old(self).output@)
            },
    {
        if selection != self.selected_operation {
            self.selected_operation = selection;
            self.convert_input();
        }
    }
}

} // verus!
