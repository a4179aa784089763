//! The Base64 encoder and decoder page: the input text, trimmed, encoded with
//! the standard or the URL-safe alphabet, or decoded.

use vstd::prelude::*;
use vstd::string::StringSliceAdditionalSpecFns;

verus! {

/// The text with white space removed at both ends, as `str::trim` does.
pub uninterp spec fn trimmed(s: Seq<char>) -> Seq<char>;

/// base64's padded encoding of the UTF-8 bytes of a text, with the URL-safe
/// alphabet when `url_safe` holds, else the standard one.
pub uninterp spec fn base64_encoded(s: Seq<char>, url_safe: bool) -> Seq<char>;

/// base64's padded decoding of a text, with the alphabet chosen as for
/// `base64_encoded`; `None` where the text is no valid encoding.
pub uninterp spec fn base64_decoded(s: Seq<char>, url_safe: bool) -> Option<Seq<u8>>;

/// The text of bytes read as UTF-8, invalid sequences replaced by U+FFFD.
pub uninterp spec fn utf8_lossy(b: Seq<u8>) -> Seq<char>;

/// Relies on `str::trim`.
#[verifier::external_body]
fn trim_text(s: &str) -> (r: String)
    ensures
        r@ == trimmed(s@),
{
    s.trim().to_string()
}

/// Relies on base64's `Engine::encode` with the `URL_SAFE` or `STANDARD` engine,
/// both padded: four characters for every three bytes or part of three.
#[verifier::external_body]
fn encode_base64(s: &str, url_safe: bool) -> (r: String)
    ensures
        r@ == base64_encoded(s@, url_safe),
        r@.len() == 4 * ((s.spec_bytes().len() + 2) / 3),
{
    if url_safe {
        base64::Engine::encode(&base64::engine::general_purpose::URL_SAFE, s.as_bytes())
    } else {
        base64::Engine::encode(&base64::engine::general_purpose::STANDARD, s.as_bytes())
    }
}

/// Relies on base64's `Engine::decode` with the `URL_SAFE` or `STANDARD` engine.
#[verifier::external_body]
fn decode_base64(s: &str, url_safe: bool) -> (r: Option<Vec<u8>>)
    ensures
        match r {
            Some(b) => base64_decoded(s@, url_safe) == Some(b@),
            None => base64_decoded(s@, url_safe) is None,
        },
{
    if url_safe {
        base64::Engine::decode(&base64::engine::general_purpose::URL_SAFE, s).ok()
    } else {
        base64::Engine::decode(&base64::engine::general_purpose::STANDARD, s).ok()
    }
}

/// Relies on `String::from_utf8_lossy`.
#[verifier::external_body]
fn lossy_text(b: &Vec<u8>) -> (r: String)
    ensures
        r@ == utf8_lossy(b@),
{
    String::from_utf8_lossy(b.as_slice()).into_owned()
}

/// The output after converting `input`: the encoding of the trimmed input
/// when `operation` is 0, else its decoding read as text, or the old output
/// when decoding fails.
pub open spec fn base64_output(
    input: Seq<char>,
    operation: usize,
    url_safe: bool,
    output: Seq<char>,
) -> Seq<char> {
    if operation == 0 {
        base64_encoded(trimmed(input), url_safe)
    } else {
        match base64_decoded(trimmed(input), url_safe) {
            Some(b) => utf8_lossy(b),
            None => output,
        }
    }
}

/// The Base64 page: its input and output texts, the operation chosen (0
/// encodes, any other value decodes) and the alphabet.
pub struct Base64StringEncoderDecoderPage {
    pub input: String,
    pub output: String,
    pub selected_operation: usize,
    pub url_safe: bool,
}

impl Base64StringEncoderDecoderPage {
    pub fn new() -> (r: Self)
        ensures
            r.input@.len() == 0,
            r.output@.len() == 0,
            r.selected_operation == 0,
            !r.url_safe,
    {
        Base64StringEncoderDecoderPage {
            input: String::new(),
            output: String::new(),
            selected_operation: 0,
            url_safe: false,
        }
    }

    /// Converts the input into the output by the chosen operation.
    pub fn convert_input(&mut self)
        ensures
            final(self).input@ == old(self).input@,
            final(self).selected_operation == old(self).selected_operation,
            final(self).url_safe == old(self).url_safe,
            final(self).output@ == base64_output(
                old(self).input@,
                old(self).selected_operation,
                old(self).url_safe,
                old(self).output@,
            ),
    {
        let input = trim_text(self.input.as_str());
        if self.selected_operation == 0 {
            self.output = encode_base64(input.as_str(), self.url_safe);
        } else {
            if let Some(bytes) = decode_base64(input.as_str(), self.url_safe) {
                self.output = lossy_text(&bytes);
            }
        }
    }

    /// Chooses an operation; a new choice converts the input at once.
    pub fn change_operation(&mut self, selection: usize)
        ensures
            final(self).input@ == old(self).input@,
            final(self).selected_operation == selection,
            final(self).url_safe == old(self).url_safe,
            final(self).output@ == if selection == old(self).selected_operation {
                old(self).output@
            } else {
                base64_output(old(self).input@, selection, old(self).url_safe, old(self).output@)
            },
    {
        if selection != self.selected_operation {
            self.selected_operation = selection;
            self.convert_input();
        }
    }

    /// Chooses the alphabet and converts the input at once.
    pub fn set_url_safe(&mut self, url_safe: bool)
        ensures
            final(self).input@ == old(self).input@,
            final(self).selected_operation == old(self).selected_operation,
            final(self).url_safe == url_safe,
            final(self).output@ == base64_output(
                old(self).input@,
                old(self).selected_operation,
                url_safe,
                old(self).output@,
            ),
    {
        self.url_safe = url_safe;
        self.convert_input();
    }
}

} // verus!
