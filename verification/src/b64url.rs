//! Byte-sequence identifiers carried as base64url or base32 text.
//!
//! Decoding is lenient: trailing padding is ignored for base64url, and case
//! is normalized for base32. Encoding always emits the unpadded canonical
//! form, whatever shape the input text had.

use vstd::prelude::*;

verus! {

/// What the lenient base64url decoder returns for a character sequence:
/// base64url symbols, no padding, trailing bits not checked.
pub uninterp spec fn b64url_decoded(s: Seq<char>) -> Option<Seq<u8>>;

/// What the canonical unpadded base64url encoder returns for a byte sequence.
pub uninterp spec fn b64url_encoded(b: Seq<u8>) -> Seq<char>;

/// What the strict unpadded base32 decoder returns for a character sequence.
pub uninterp spec fn base32_decoded(s: Seq<char>) -> Option<Seq<u8>>;

/// What the canonical unpadded base32 encoder returns for a byte sequence.
pub uninterp spec fn base32_encoded(b: Seq<u8>) -> Seq<char>;

/// Relies on data_encoding's `Encoding::decode`, applied to the base64url
/// alphabet with padding disabled and trailing bits unchecked. The decoder is
/// documented to be deterministic and to fail exactly on inputs that are not
/// decodable under that specification.
#[verifier::external_body]
fn b64url_decode_raw(s: &[char]) -> (r: Option<Vec<u8>>)
    ensures
        match r {
            Some(v) => b64url_decoded(s@) == Some(v@),
            None => b64url_decoded(s@) is None,
        },
{
    let text: String = s.iter().collect();
    let specs = data_encoding::BASE64URL.specification();
    let specs = data_encoding::Specification { check_trailing_bits: false, padding: None, ..specs };
    let encoding = specs.encoding().unwrap();
    match encoding.decode(text.as_bytes()) {
        Ok(v) => Some(v),
        Err(_) => None,
    }
}

/// Relies on data_encoding's `BASE64URL_NOPAD.encode`: deterministic, emits
/// only alphabet symbols (never padding), and decoding the result with the
/// same alphabet returns the original bytes.
#[verifier::external_body]
fn b64url_encode_raw(b: &[u8]) -> (r: String)
    ensures
        r@ == b64url_encoded(b@),
        forall|i: int| 0 <= i < r@.len() ==> r@[i] != '=',
        b64url_decoded(r@) == Some(b@),
{
    data_encoding::BASE64URL_NOPAD.encode(b)
}

/// Relies on data_encoding's `BASE32_NOPAD.decode`: deterministic, and fails
/// exactly on inputs that are not unpadded base32.
#[verifier::external_body]
fn base32_decode_raw(s: &[char]) -> (r: Option<Vec<u8>>)
    ensures
        match r {
            Some(v) => base32_decoded(s@) == Some(v@),
            None => base32_decoded(s@) is None,
        },
{
    let text: String = s.iter().collect();
    match data_encoding::BASE32_NOPAD.decode(text.as_bytes()) {
        Ok(v) => Some(v),
        Err(_) => None,
    }
}

/// Relies on data_encoding's `BASE32_NOPAD.encode`: deterministic, emits only
/// alphabet symbols (never padding), and decoding the result returns the
/// original bytes.
#[verifier::external_body]
fn base32_encode_raw(b: &[u8]) -> (r: String)
    ensures
        r@ == base32_encoded(b@),
        forall|i: int| 0 <= i < r@.len() ==> r@[i] != '=',
        base32_decoded(r@) == Some(b@),
{
    data_encoding::BASE32_NOPAD.encode(b)
}

/// A character sequence with its trailing padding characters removed.
pub open spec fn trim_pad(s: Seq<char>) -> Seq<char>
    decreases s.len(),
{
    if s.len() > 0 && s[s.len() - 1] == '=' {
        trim_pad(s.drop_last())
    } else {
        s
    }
}

/// What decoding a base64url identifier accepts: the text with any trailing
/// padding removed must be decodable.
pub open spec fn b64url_parse(s: Seq<char>) -> Option<Seq<u8>> {
    b64url_decoded(trim_pad(s))
}

/// Trailing padding never changes what a base64url identifier decodes to.
pub proof fn lemma_b64url_padding_ignored(s: Seq<char>)
    ensures
        b64url_parse(s.push('=')) == b64url_parse(s),
{
    assert(s.push('=').drop_last() =~= s);
}

/// Collects the characters of a string slice.
fn chars_of(s: &str) -> (r: Vec<char>)
    ensures
        r@ == s@,
{
    let n = s.unicode_len();
    let mut out: Vec<char> = Vec::new();
    let mut i: usize = 0;
    while i < n
        invariant
            n == s@.len(),
            i <= n,
            out@ =~= s@.take(i as int),
        decreases n - i,
    {
        out.push(s.get_char(i));
        i += 1;
    }
    proof {
        assert(s@.take(n as int) =~= s@);
    }
    out
}

/// Removes trailing padding characters.
fn trimmed(v: Vec<char>) -> (r: Vec<char>)
    ensures
        r@ == trim_pad(v@),
{
    let ghost orig = v@;
    let mut v = v;
    while v.len() > 0 && v[v.len() - 1] == '='
        invariant
            trim_pad(v@) == trim_pad(orig),
        decreases v.len(),
    {
        proof {
            assert(v@.drop_last() =~= v@.subrange(0, v@.len() - 1));
        }
        v.pop();
    }
    proof {
        assert(trim_pad(v@) == v@);
    }
    v
}

/// An error returned when a string is not base64url decodable.
#[derive(Debug)]
pub struct NotB64UrlEncoded;

impl NotB64UrlEncoded {
    /// A human-readable description of the error.
    pub fn message(&self) -> (r: String)
        ensures
            r@ == "Data isn't base64url encoded"@,
    {
        "Data isn't base64url encoded".to_owned()
    }
}

/// The string was not base32 encoded.
#[derive(Debug)]
pub struct NotBase32Encoded;

impl NotBase32Encoded {
    /// A human-readable description of the error.
    pub fn message(&self) -> (r: String)
        ensures
            r@ == "Data isn't base32 encoded"@,
    {
        "Data isn't base32 encoded".to_owned()
    }
}

/// An opaque byte sequence carried on the wire as base64url text.
///
/// Equality is over the decoded bytes, never the textual form; encoding is
/// always recomputed canonically, without padding.
#[derive(Debug, Hash, PartialEq, Eq)]
pub struct B64Url(Vec<u8>);

impl View for B64Url {
    type V = Seq<u8>;

    closed spec fn view(&self) -> Seq<u8> {
        self.0@
    }
}

impl DeepView for B64Url {
    type V = Seq<u8>;

    open spec fn deep_view(&self) -> Seq<u8> {
        self.view()
    }
}

impl Clone for B64Url {
    /// The clone holds the same bytes.
    fn clone(&self) -> (r: Self)
        ensures
            r@ == self@,
    {
        let r = B64Url(self.0.clone());
        proof {
            assert(r.0@ =~= self.0@);
        }
        r
    }
}

impl B64Url {
    /// Wraps owned bytes.
    pub fn from_bytes(src: Vec<u8>) -> (r: Self)
        ensures
            r@ == src@,
    {
        B64Url(src)
    }

    /// Copies bytes out of a slice.
    pub fn from_slice(src: &[u8]) -> (r: Self)
        ensures
            r@ == src@,
    {
        B64Url(vstd::slice::slice_to_vec(src))
    }

    /// Hands the decoded bytes back out.
    pub fn into_bytes(self) -> (r: Vec<u8>)
        ensures
            r@ == self@,
    {
        self.0
    }

    /// Borrows the decoded bytes.
    pub fn as_bytes(&self) -> (r: &Vec<u8>)
        ensures
            r@ == self@,
    {
        &self.0
    }

    /// Decodes base64url text, ignoring any trailing padding; fails exactly
    /// when the remaining text is not base64url.
    pub fn decode(value: &str) -> (r: Result<Self, NotB64UrlEncoded>)
        ensures
            match r {
                Ok(b) => b64url_parse(value@) == Some(b@),
                Err(_) => b64url_parse(value@) is None,
            },
    {
        let chars = chars_of(value);
        let sane = trimmed(chars);
        match b64url_decode_raw(sane.as_slice()) {
            Some(v) => Ok(B64Url(v)),
            None => Err(NotB64UrlEncoded),
        }
    }

    /// Encodes the bytes canonically, without padding. Decoding the result
    /// yields the same bytes again.
    pub fn to_string(&self) -> (r: String)
        ensures
            r@ == b64url_encoded(self@),
            b64url_parse(r@) == Some(self@),
    {
        let r = b64url_encode_raw(self.0.as_slice());
        proof {
            assert(trim_pad(r@) == r@);
        }
        r
    }
}

impl TryFrom<&str> for B64Url {
    type Error = NotB64UrlEncoded;

    /// Decodes base64url text, ignoring any trailing padding.
    fn try_from(value: &str) -> (r: Result<Self, NotB64UrlEncoded>)
        ensures
            match r {
                Ok(b) => b64url_parse(value@) == Some(b@),
                Err(_) => b64url_parse(value@) is None,
            },
    {
        B64Url::decode(value)
    }
}

impl vstd::std_specs::convert::TryFromSpecImpl<&str> for B64Url {
    open spec fn obeys_try_from_spec() -> bool {
        false
    }

    open spec fn try_from_spec(v: &str) -> Result<Self, NotB64UrlEncoded> {
        arbitrary()
    }
}

/// An opaque byte sequence carried on the wire as base32 text, used for
/// one-time-password secrets.
///
/// Decoding normalizes the case first; encoding always emits the unpadded
/// upper-case canonical form.
#[derive(Debug, PartialEq, Eq)]
pub struct Base32(Vec<u8>);

impl View for Base32 {
    type V = Seq<u8>;

    closed spec fn view(&self) -> Seq<u8> {
        self.0@
    }
}

impl DeepView for Base32 {
    type V = Seq<u8>;

    open spec fn deep_view(&self) -> Seq<u8> {
        self.view()
    }
}

impl Clone for Base32 {
    /// The clone holds the same bytes.
    fn clone(&self) -> (r: Self)
        ensures
            r@ == self@,
    {
        let r = Base32(self.0.clone());
        proof {
            assert(r.0@ =~= self.0@);
        }
        r
    }
}

impl TryFrom<&str> for Base32 {
    type Error = NotBase32Encoded;

    /// Decodes base32 text after normalizing case and trailing padding.
    fn try_from(value: &str) -> (r: Result<Self, NotBase32Encoded>)
        ensures
            match r {
                Ok(b) => base32_parse(value@) == Some(b@),
                Err(_) => base32_parse(value@) is None,
            },
    {
        Base32::decode(value)
    }
}

impl vstd::std_specs::convert::TryFromSpecImpl<&str> for Base32 {
    open spec fn obeys_try_from_spec() -> bool {
        false
    }

    open spec fn try_from_spec(v: &str) -> Result<Self, NotBase32Encoded> {
        arbitrary()
    }
}

/// A character sequence mapped to upper case, ASCII letters only.
pub open spec fn upper(s: Seq<char>) -> Seq<char> {
    s.map_values(|c: char| if 'a' <= c <= 'z' { ((c as u8) - 0x20) as char } else { c })
}

/// What decoding a base32 secret accepts: after upper-casing and removing
/// trailing padding, the text must be unpadded base32.
pub open spec fn base32_parse(s: Seq<char>) -> Option<Seq<u8>> {
    base32_decoded(trim_pad(upper(s)))
}

/// Maps the characters to upper case, ASCII letters only.
fn to_upper(v: &Vec<char>) -> (r: Vec<char>)
    ensures
        r@ == upper(v@),
{
    let n = v.len();
    let mut out: Vec<char> = Vec::new();
    let mut i: usize = 0;
    while i < n
        invariant
            n == v@.len(),
            i <= n,
            out@ =~= upper(v@).take(i as int),
        decreases n - i,
    {
        let c = v[i];
        let u: char = if 'a' <= c && c <= 'z' {
            ((c as u8) - 0x20) as char
        } else {
            c
        };
        out.push(u);
        proof {
            assert(out@ =~= upper(v@).take(i + 1));
        }
        i += 1;
    }
    proof {
        assert(upper(v@).take(n as int) =~= upper(v@));
    }
    out
}

impl Base32 {
    /// Wraps owned bytes.
    pub fn from_bytes(src: Vec<u8>) -> (r: Self)
        ensures
            r@ == src@,
    {
        Base32(src)
    }

    /// Copies bytes out of a slice.
    pub fn from_slice(src: &[u8]) -> (r: Self)
        ensures
            r@ == src@,
    {
        Base32(vstd::slice::slice_to_vec(src))
    }

    /// Hands the decoded bytes back out.
    pub fn into_bytes(self) -> (r: Vec<u8>)
        ensures
            r@ == self@,
    {
        self.0
    }

    /// Borrows the decoded bytes.
    pub fn as_bytes(&self) -> (r: &Vec<u8>)
        ensures
            r@ == self@,
    {
        &self.0
    }

    /// Decodes base32 text after normalizing case and removing trailing
    /// padding; fails exactly when the remaining text is not base32.
    pub fn decode(value: &str) -> (r: Result<Self, NotBase32Encoded>)
        ensures
            match r {
                Ok(b) => base32_parse(value@) == Some(b@),
                Err(_) => base32_parse(value@) is None,
            },
    {
        let chars = chars_of(value);
        let up = to_upper(&chars);
        let sane = trimmed(up);
        match base32_decode_raw(sane.as_slice()) {
            Some(v) => Ok(Base32(v)),
            None => Err(NotBase32Encoded),
        }
    }

    /// Encodes the bytes canonically, without padding. Decoding the result
    /// yields the same bytes again.
    pub fn to_string(&self) -> (r: String)
        ensures
            r@ == base32_encoded(self@),
    {
        base32_encode_raw(self.0.as_slice())
    }
}

} // verus!
