//! Typed editable fields: the self-describing value wrapper of the format.
//!
//! Every field crosses the wire as an object carrying a scalar `value`
//! together with a redundant `fieldType` tag. On decode the tag must agree
//! with the intrinsic kind of the expected value; a mismatch is a hard
//! error, never a coercion. On encode the tag is derived from the value
//! kind, so an inconsistent pair cannot be produced.

use vstd::prelude::*;
use crate::b64url::{b64url_encoded, b64url_parse, B64Url};
use crate::extensions::Extension;
use crate::json::{fields_view, lookup, Json, JsonV};
use crate::text::{
    all_digits, chars_eq_str, chars_of, digits_val, find_char, find_char_at, lemma_find_char,
    lower, lower_exec, parse_u16, parsed_u16, str_eq, trim_ws, trim_ws_exec,
};

verus! {

/// The self-describing kind tag a field carries on the wire.
#[derive(Debug, Clone, PartialEq, Eq)]
pub enum FieldType {
    /// An unconcealed UTF-8 string with no specified format.
    String,
    /// A string that is secret and not displayed unless requested.
    ConcealedString,
    /// A string following the RFC5322 mailbox format.
    Email,
    /// A stringified numeric value.
    Number,
    /// The literal string `"true"` or `"false"`.
    Boolean,
    /// A calendar date in the RFC3339 full-date format.
    Date,
    /// A `YYYY-MM` year and month.
    YearMonth,
    /// A member of the Wi-Fi network security types.
    WifiNetworkSecurityType,
    /// An ISO3166-2 subdivision code.
    SubdivisionCode,
    /// An ISO3166-1 alpha-2 country code.
    CountryCode,
    /// A tag this implementation does not know, kept verbatim.
    Unknown(String),
}

/// The model of a field kind tag.
pub enum FieldTypeV {
    String,
    ConcealedString,
    Email,
    Number,
    Boolean,
    Date,
    YearMonth,
    WifiNetworkSecurityType,
    SubdivisionCode,
    CountryCode,
    Unknown(Seq<char>),
}

impl View for FieldType {
    type V = FieldTypeV;

    open spec fn view(&self) -> FieldTypeV {
        match self {
            FieldType::String => FieldTypeV::String,
            FieldType::ConcealedString => FieldTypeV::ConcealedString,
            FieldType::Email => FieldTypeV::Email,
            FieldType::Number => FieldTypeV::Number,
            FieldType::Boolean => FieldTypeV::Boolean,
            FieldType::Date => FieldTypeV::Date,
            FieldType::YearMonth => FieldTypeV::YearMonth,
            FieldType::WifiNetworkSecurityType => FieldTypeV::WifiNetworkSecurityType,
            FieldType::SubdivisionCode => FieldTypeV::SubdivisionCode,
            FieldType::CountryCode => FieldTypeV::CountryCode,
            FieldType::Unknown(s) => FieldTypeV::Unknown(s@),
        }
    }
}

/// The wire name of a field kind.
pub open spec fn tag_name(t: FieldTypeV) -> Seq<char> {
    match t {
        FieldTypeV::String => "string"@,
        FieldTypeV::ConcealedString => "concealed-string"@,
        FieldTypeV::Email => "email"@,
        FieldTypeV::Number => "number"@,
        FieldTypeV::Boolean => "boolean"@,
        FieldTypeV::Date => "date"@,
        FieldTypeV::YearMonth => "year-month"@,
        FieldTypeV::WifiNetworkSecurityType => "wifi-network-security-type"@,
        FieldTypeV::SubdivisionCode => "subdivision-code"@,
        FieldTypeV::CountryCode => "country-code"@,
        FieldTypeV::Unknown(s) => s,
    }
}

/// The known field kind a wire name denotes, if any.
pub open spec fn known_tag(s: Seq<char>) -> Option<FieldTypeV> {
    if s == "string"@ {
        Some(FieldTypeV::String)
    } else if s == "concealed-string"@ {
        Some(FieldTypeV::ConcealedString)
    } else if s == "email"@ {
        Some(FieldTypeV::Email)
    } else if s == "number"@ {
        Some(FieldTypeV::Number)
    } else if s == "boolean"@ {
        Some(FieldTypeV::Boolean)
    } else if s == "date"@ {
        Some(FieldTypeV::Date)
    } else if s == "year-month"@ {
        Some(FieldTypeV::YearMonth)
    } else if s == "wifi-network-security-type"@ {
        Some(FieldTypeV::WifiNetworkSecurityType)
    } else if s == "subdivision-code"@ {
        Some(FieldTypeV::SubdivisionCode)
    } else if s == "country-code"@ {
        Some(FieldTypeV::CountryCode)
    } else {
        None
    }
}

impl FieldType {
    /// An unknown tag never shadows a known wire name.
    pub open spec fn wf(self) -> bool {
        match self@ {
            FieldTypeV::Unknown(s) => known_tag(s) is None,
            _ => true,
        }
    }

    /// The tag's wire name.
    pub fn wire_name(&self) -> (r: String)
        ensures
            r@ == tag_name(self@),
    {
        match self {
            FieldType::String => "string".to_owned(),
            FieldType::ConcealedString => "concealed-string".to_owned(),
            FieldType::Email => "email".to_owned(),
            FieldType::Number => "number".to_owned(),
            FieldType::Boolean => "boolean".to_owned(),
            FieldType::Date => "date".to_owned(),
            FieldType::YearMonth => "year-month".to_owned(),
            FieldType::WifiNetworkSecurityType => "wifi-network-security-type".to_owned(),
            FieldType::SubdivisionCode => "subdivision-code".to_owned(),
            FieldType::CountryCode => "country-code".to_owned(),
            FieldType::Unknown(s) => s.clone(),
        }
    }

    /// The tag a wire name denotes; an unrecognized name is kept verbatim.
    pub fn from_wire(s: &str) -> (r: FieldType)
        ensures
            match known_tag(s@) {
                Some(t) => r@ == t && r.wf(),
                None => r@ == FieldTypeV::Unknown(s@) && r.wf(),
            },
    {
        if str_eq(s, "string") {
            FieldType::String
        } else if str_eq(s, "concealed-string") {
            FieldType::ConcealedString
        } else if str_eq(s, "email") {
            FieldType::Email
        } else if str_eq(s, "number") {
            FieldType::Number
        } else if str_eq(s, "boolean") {
            FieldType::Boolean
        } else if str_eq(s, "date") {
            FieldType::Date
        } else if str_eq(s, "year-month") {
            FieldType::YearMonth
        } else if str_eq(s, "wifi-network-security-type") {
            FieldType::WifiNetworkSecurityType
        } else if str_eq(s, "subdivision-code") {
            FieldType::SubdivisionCode
        } else if str_eq(s, "country-code") {
            FieldType::CountryCode
        } else {
            FieldType::Unknown(s.to_owned())
        }
    }
}

/// A wire name always re-encodes to itself: parsing is the left inverse
/// of naming.
pub proof fn lemma_wire_name_round_trip(s: Seq<char>)
    ensures
        match known_tag(s) {
            Some(t) => tag_name(t) == s,
            None => true,
        },
{
}

/// A well-formed tag always survives the trip through its wire name.
pub proof fn lemma_tag_round_trip(t: FieldType)
    requires
        t.wf(),
    ensures
        match known_tag(tag_name(t@)) {
            Some(v) => v == t@,
            None => t@ is Unknown,
        },
{
    reveal_strlit("string");
    reveal_strlit("concealed-string");
    reveal_strlit("email");
    reveal_strlit("number");
    reveal_strlit("boolean");
    reveal_strlit("date");
    reveal_strlit("year-month");
    reveal_strlit("wifi-network-security-type");
    reveal_strlit("subdivision-code");
    reveal_strlit("country-code");
    assert("string"@.len() == 6);
    assert("concealed-string"@.len() == 16);
    assert("email"@.len() == 5);
    assert("number"@.len() == 6);
    assert("boolean"@.len() == 7);
    assert("date"@.len() == 4);
    assert("year-month"@.len() == 10);
    assert("wifi-network-security-type"@.len() == 26);
    assert("subdivision-code"@.len() == 16);
    assert("country-code"@.len() == 12);
    assert("string"@[0] == 's');
    assert("number"@[0] == 'n');
    assert("concealed-string"@[0] == 'c');
    assert("subdivision-code"@[0] == 's');
}

/// A month of the year.
#[derive(Clone, Copy, Debug, PartialEq, Eq, Structural)]
pub enum Month {
    January,
    February,
    March,
    April,
    May,
    June,
    July,
    August,
    September,
    October,
    November,
    December,
}

/// The one-based number of a month.
pub open spec fn month_number(m: Month) -> int {
    match m {
        Month::January => 1,
        Month::February => 2,
        Month::March => 3,
        Month::April => 4,
        Month::May => 5,
        Month::June => 6,
        Month::July => 7,
        Month::August => 8,
        Month::September => 9,
        Month::October => 10,
        Month::November => 11,
        Month::December => 12,
    }
}

/// The month a one-based number denotes, if in range.
pub open spec fn month_from_number(n: int) -> Option<Month> {
    if n == 1 {
        Some(Month::January)
    } else if n == 2 {
        Some(Month::February)
    } else if n == 3 {
        Some(Month::March)
    } else if n == 4 {
        Some(Month::April)
    } else if n == 5 {
        Some(Month::May)
    } else if n == 6 {
        Some(Month::June)
    } else if n == 7 {
        Some(Month::July)
    } else if n == 8 {
        Some(Month::August)
    } else if n == 9 {
        Some(Month::September)
    } else if n == 10 {
        Some(Month::October)
    } else if n == 11 {
        Some(Month::November)
    } else if n == 12 {
        Some(Month::December)
    } else {
        None
    }
}

impl Month {
    /// The month's one-based number.
    pub fn number_from_month(&self) -> (r: u8)
        ensures
            r == month_number(*self),
    {
        match self {
            Month::January => 1,
            Month::February => 2,
            Month::March => 3,
            Month::April => 4,
            Month::May => 5,
            Month::June => 6,
            Month::July => 7,
            Month::August => 8,
            Month::September => 9,
            Month::October => 10,
            Month::November => 11,
            Month::December => 12,
        }
    }

    /// The month a one-based number denotes, if in range.
    pub fn from_number(n: u8) -> (r: Option<Month>)
        ensures
            r == month_from_number(n as int),
    {
        match n {
            1 => Some(Month::January),
            2 => Some(Month::February),
            3 => Some(Month::March),
            4 => Some(Month::April),
            5 => Some(Month::May),
            6 => Some(Month::June),
            7 => Some(Month::July),
            8 => Some(Month::August),
            9 => Some(Month::September),
            10 => Some(Month::October),
            11 => Some(Month::November),
            12 => Some(Month::December),
            _ => None,
        }
    }
}

/// The number of a month always maps back to the month.
pub proof fn lemma_month_round_trip(m: Month)
    ensures
        month_from_number(month_number(m)) == Some(m),
{
}

/// A calendar date as plain year, month and day numbers.
#[derive(Clone, Copy, Debug, PartialEq, Eq, Structural)]
pub struct Date {
    /// The four-digit year.
    pub year: u16,
    /// The one-based month.
    pub month: u8,
    /// The one-based day of the month.
    pub day: u8,
}

/// Whether a year is a leap year, by the Gregorian rules.
pub open spec fn is_leap_year(y: int) -> bool {
    (y % 4 == 0 && y % 100 != 0) || y % 400 == 0
}

/// The number of days in a month of a year.
pub open spec fn days_in_month(y: int, m: int) -> int {
    if m == 2 {
        if is_leap_year(y) {
            29
        } else {
            28
        }
    } else if m == 4 || m == 6 || m == 9 || m == 11 {
        30
    } else {
        31
    }
}

impl Date {
    /// A date that the wire format can carry: a four-digit year and a valid
    /// month and day.
    pub open spec fn wf(self) -> bool {
        self.year <= 9999 && 1 <= self.month <= 12 && 1 <= self.day <= days_in_month(
            self.year as int,
            self.month as int,
        )
    }
}

/// The character of a decimal digit value.
pub open spec fn digit_char(d: int) -> char {
    (((d % 10) + 48) as u8) as char
}

/// A number as two zero-padded decimal digits.
pub open spec fn two_digits(n: int) -> Seq<char> {
    seq![digit_char(n / 10), digit_char(n)]
}

/// A number as four zero-padded decimal digits.
pub open spec fn four_digits(n: int) -> Seq<char> {
    seq![digit_char(n / 1000), digit_char(n / 100), digit_char(n / 10), digit_char(n)]
}

/// An unsigned number in decimal, zero-padded to at least four digits.
pub open spec fn padded_decimal(n: int) -> Seq<char> {
    if n <= 9999 {
        four_digits(n)
    } else {
        seq![digit_char(n / 10000)] + four_digits(n % 10000)
    }
}

fn push_two_digits(out: &mut Vec<char>, n: u16)
    ensures
        final(out)@ == old(out)@ + two_digits(n as int),
{
    out.push((0x30 + (n / 10 % 10) as u8) as char);
    out.push((0x30 + (n % 10) as u8) as char);
    proof {
        assert(out@ =~= old(out)@ + two_digits(n as int));
    }
}

fn push_four_digits(out: &mut Vec<char>, n: u16)
    requires
        n <= 9999,
    ensures
        final(out)@ == old(out)@ + four_digits(n as int),
{
    out.push((0x30 + (n / 1000) as u8) as char);
    out.push((0x30 + (n / 100 % 10) as u8) as char);
    out.push((0x30 + (n / 10 % 10) as u8) as char);
    out.push((0x30 + (n % 10) as u8) as char);
    proof {
        assert(out@ =~= old(out)@ + four_digits(n as int));
    }
}

fn push_padded_decimal(out: &mut Vec<char>, n: u16)
    ensures
        final(out)@ == old(out)@ + padded_decimal(n as int),
{
    if n > 9999 {
        out.push((0x30 + (n / 10000) as u8) as char);
        push_four_digits(out, n % 10000);
        proof {
            assert(out@ =~= old(out)@ + padded_decimal(n as int));
        }
    } else {
        push_four_digits(out, n);
    }
}

/// Relies on std's `String::push`: appends the character to the string.
#[verifier::external_body]
fn push_char(s: &mut String, c: char)
    ensures
        final(s)@ == old(s)@ + seq![c],
{
    s.push(c)
}

/// Builds a string from characters.
pub fn string_of(chars: &[char]) -> (r: String)
    ensures
        r@ == chars@,
{
    let n = chars.len();
    let mut out = String::new();
    let mut i: usize = 0;
    while i < n
        invariant
            n == chars@.len(),
            i <= n,
            out@ =~= chars@.take(i as int),
        decreases n - i,
    {
        push_char(&mut out, *vstd::slice::slice_index_get(chars, i));
        proof {
            assert(out@ =~= chars@.take(i + 1));
        }
        i += 1;
    }
    proof {
        assert(chars@.take(n as int) =~= chars@);
    }
    out
}

/// A value kind that can live in an [`EditableField`]: it knows its wire
/// tag and its scalar text encoding.
pub trait FieldValue: View + Sized {
    /// The intrinsic tag of this value kind.
    spec fn spec_tag() -> FieldTypeV;

    /// The scalar wire text of a value.
    spec fn spec_encoded(v: Self::V) -> Seq<char>;

    /// What decoding a scalar wire text yields.
    spec fn spec_decoded(s: Seq<char>) -> Option<Self::V>;

    /// Which values are well formed: exactly what a decode can produce.
    spec fn spec_wf(v: Self::V) -> bool;

    /// The `fieldType` tag intrinsic to this value kind.
    fn field_type(&self) -> (t: FieldType)
        ensures
            t@ == Self::spec_tag(),
            t.wf(),
    ;

    /// Encodes the value as its scalar wire text.
    fn encode_value(&self) -> (r: String)
        ensures
            r@ == Self::spec_encoded(self@),
    ;

    /// Decodes a value from its scalar wire text.
    fn decode_value(s: &str) -> (r: Option<Self>)
        ensures
            match r {
                Some(v) => Self::spec_decoded(s@) == Some(v@) && Self::spec_wf(v@),
                None => Self::spec_decoded(s@) is None,
            },
    ;

    /// Decoding an encoded well-formed value always gives the value back.
    proof fn lemma_value_round_trip(v: Self::V)
        requires
            Self::spec_wf(v),
        ensures
            Self::spec_decoded(Self::spec_encoded(v)) == Some(v),
    ;
}

/// An unconcealed string value with no specified format.
#[derive(Clone, Debug, PartialEq, Eq)]
pub struct EditableFieldString(pub String);

impl View for EditableFieldString {
    type V = Seq<char>;

    open spec fn view(&self) -> Seq<char> {
        self.0@
    }
}

impl FieldValue for EditableFieldString {
    open spec fn spec_tag() -> FieldTypeV {
        FieldTypeV::String
    }

    open spec fn spec_encoded(v: Seq<char>) -> Seq<char> {
        v
    }

    open spec fn spec_decoded(s: Seq<char>) -> Option<Seq<char>> {
        Some(s)
    }

    open spec fn spec_wf(v: Seq<char>) -> bool {
        true
    }

    fn field_type(&self) -> (t: FieldType) {
        FieldType::String
    }

    fn encode_value(&self) -> (r: String) {
        self.0.clone()
    }

    fn decode_value(s: &str) -> (r: Option<Self>) {
        Some(EditableFieldString(s.to_owned()))
    }

    proof fn lemma_value_round_trip(v: Seq<char>) {
    }
}

/// A string value that is secret and not displayed unless the user
/// explicitly requests it.
#[derive(Clone, Debug, PartialEq, Eq)]
pub struct EditableFieldConcealedString(pub String);

impl View for EditableFieldConcealedString {
    type V = Seq<char>;

    open spec fn view(&self) -> Seq<char> {
        self.0@
    }
}

impl FieldValue for EditableFieldConcealedString {
    open spec fn spec_tag() -> FieldTypeV {
        FieldTypeV::ConcealedString
    }

    open spec fn spec_encoded(v: Seq<char>) -> Seq<char> {
        v
    }

    open spec fn spec_decoded(s: Seq<char>) -> Option<Seq<char>> {
        Some(s)
    }

    open spec fn spec_wf(v: Seq<char>) -> bool {
        true
    }

    fn field_type(&self) -> (t: FieldType) {
        FieldType::ConcealedString
    }

    fn encode_value(&self) -> (r: String) {
        self.0.clone()
    }

    fn decode_value(s: &str) -> (r: Option<Self>) {
        Some(EditableFieldConcealedString(s.to_owned()))
    }

    proof fn lemma_value_round_trip(v: Seq<char>) {
    }
}

/// An ISO3166-2 subdivision code.
#[derive(Clone, Debug, PartialEq, Eq)]
pub struct EditableFieldSubdivisionCode(pub String);

impl View for EditableFieldSubdivisionCode {
    type V = Seq<char>;

    open spec fn view(&self) -> Seq<char> {
        self.0@
    }
}

impl FieldValue for EditableFieldSubdivisionCode {
    open spec fn spec_tag() -> FieldTypeV {
        FieldTypeV::SubdivisionCode
    }

    open spec fn spec_encoded(v: Seq<char>) -> Seq<char> {
        v
    }

    open spec fn spec_decoded(s: Seq<char>) -> Option<Seq<char>> {
        Some(s)
    }

    open spec fn spec_wf(v: Seq<char>) -> bool {
        true
    }

    fn field_type(&self) -> (t: FieldType) {
        FieldType::SubdivisionCode
    }

    fn encode_value(&self) -> (r: String) {
        self.0.clone()
    }

    fn decode_value(s: &str) -> (r: Option<Self>) {
        Some(EditableFieldSubdivisionCode(s.to_owned()))
    }

    proof fn lemma_value_round_trip(v: Seq<char>) {
    }
}

/// An ISO3166-1 alpha-2 country code.
#[derive(Clone, Debug, PartialEq, Eq)]
pub struct EditableFieldCountryCode(pub String);

impl View for EditableFieldCountryCode {
    type V = Seq<char>;

    open spec fn view(&self) -> Seq<char> {
        self.0@
    }
}

impl FieldValue for EditableFieldCountryCode {
    open spec fn spec_tag() -> FieldTypeV {
        FieldTypeV::CountryCode
    }

    open spec fn spec_encoded(v: Seq<char>) -> Seq<char> {
        v
    }

    open spec fn spec_decoded(s: Seq<char>) -> Option<Seq<char>> {
        Some(s)
    }

    open spec fn spec_wf(v: Seq<char>) -> bool {
        true
    }

    fn field_type(&self) -> (t: FieldType) {
        FieldType::CountryCode
    }

    fn encode_value(&self) -> (r: String) {
        self.0.clone()
    }

    fn decode_value(s: &str) -> (r: Option<Self>) {
        Some(EditableFieldCountryCode(s.to_owned()))
    }

    proof fn lemma_value_round_trip(v: Seq<char>) {
    }
}

/// What decoding a boolean wire scalar yields: the text is trimmed and
/// lower-cased, and must then be exactly `true` or `false`.
pub open spec fn bool_decoded(s: Seq<char>) -> Option<bool> {
    if lower(trim_ws(s)) == "true"@ {
        Some(true)
    } else if lower(trim_ws(s)) == "false"@ {
        Some(false)
    } else {
        None
    }
}

/// A boolean value, carried as the literal string `"true"` or `"false"`,
/// never as a JSON boolean; decoding is case-insensitive.
#[derive(Clone, Debug, PartialEq, Eq)]
pub struct EditableFieldBoolean(pub bool);

impl View for EditableFieldBoolean {
    type V = bool;

    open spec fn view(&self) -> bool {
        self.0
    }
}

impl FieldValue for EditableFieldBoolean {
    open spec fn spec_tag() -> FieldTypeV {
        FieldTypeV::Boolean
    }

    open spec fn spec_encoded(v: bool) -> Seq<char> {
        if v {
            "true"@
        } else {
            "false"@
        }
    }

    open spec fn spec_decoded(s: Seq<char>) -> Option<bool> {
        bool_decoded(s)
    }

    open spec fn spec_wf(v: bool) -> bool {
        true
    }

    fn field_type(&self) -> (t: FieldType) {
        FieldType::Boolean
    }

    fn encode_value(&self) -> (r: String) {
        if self.0 {
            "true".to_owned()
        } else {
            "false".to_owned()
        }
    }

    fn decode_value(s: &str) -> (r: Option<Self>) {
        let chars = chars_of(s);
        let t = trim_ws_exec(chars.as_slice());
        let l = lower_exec(t.as_slice());
        if chars_eq_str(l.as_slice(), "true") {
            Some(EditableFieldBoolean(true))
        } else if chars_eq_str(l.as_slice(), "false") {
            Some(EditableFieldBoolean(false))
        } else {
            None
        }
    }

    proof fn lemma_value_round_trip(v: bool) {
        reveal_strlit("true");
        reveal_strlit("false");
        if v {
            lemma_plain_ascii("true");
        } else {
            lemma_plain_ascii("false");
        }
    }
}

/// For a non-empty literal without whitespace or upper-case letters,
/// trimming and lower-casing change nothing.
proof fn lemma_plain_ascii(s: &str)
    requires
        s@.len() > 0,
        forall|i: int| 0 <= i < s@.len() ==> !crate::text::is_ws(#[trigger] s@[i]),
        forall|i: int| 0 <= i < s@.len() ==> !('A' <= #[trigger] s@[i] <= 'Z'),
    ensures
        lower(trim_ws(s@)) == s@,
{
    assert(trim_ws(s@) == s@);
    assert(lower(s@) =~= s@);
}

/// Ten to the given power.
pub open spec fn pow10(n: nat) -> int
    decreases n,
{
    if n == 0 {
        1
    } else {
        10 * pow10((n - 1) as nat)
    }
}

/// A digit string's value is bounded by its length.
proof fn lemma_digits_val_bound(s: Seq<char>)
    requires
        all_digits(s),
    ensures
        0 <= digits_val(s) < pow10(s.len()),
    decreases s.len(),
{
    if s.len() > 0 {
        assert(all_digits(s.drop_last()));
        lemma_digits_val_bound(s.drop_last());
    }
}

/// The character of a digit value is a digit character with that value.
proof fn lemma_digit_char(d: int)
    ensures
        '0' <= digit_char(d) <= '9',
        digit_char(d) as int == 48 + (d % 10),
        digit_char(d) != '-',
{
    let v = d % 10;
    assert(0 <= v <= 9);
    let b = ((v + 48) as u8);
    assert(b as int == v + 48);
    let c = b as char;
    assert(c as int == v + 48);
}

proof fn lemma_two_digits(n: int)
    requires
        0 <= n <= 99,
    ensures
        all_digits(two_digits(n)),
        two_digits(n).len() == 2,
        digits_val(two_digits(n)) == n,
{
    reveal_with_fuel(digits_val, 6);
    let s = two_digits(n);
    lemma_digit_char(n / 10);
    lemma_digit_char(n);
    assert(s.drop_last() =~= seq![digit_char(n / 10)]);
    assert(seq![digit_char(n / 10)].drop_last() =~= Seq::<char>::empty());
    assert(digits_val(s) == (n / 10) % 10 * 10 + n % 10);
    assert((n / 10) % 10 == n / 10);
    assert(n / 10 * 10 + n % 10 == n);
}

proof fn lemma_four_digits(n: int)
    requires
        0 <= n <= 9999,
    ensures
        all_digits(four_digits(n)),
        four_digits(n).len() == 4,
        digits_val(four_digits(n)) == n,
{
    reveal_with_fuel(digits_val, 6);
    let s = four_digits(n);
    lemma_digit_char(n / 1000);
    lemma_digit_char(n / 100);
    lemma_digit_char(n / 10);
    lemma_digit_char(n);
    assert(s.drop_last() =~= seq![digit_char(n / 1000), digit_char(n / 100), digit_char(n / 10)]);
    assert(s.drop_last().drop_last() =~= seq![digit_char(n / 1000), digit_char(n / 100)]);
    assert(s.drop_last().drop_last().drop_last() =~= seq![digit_char(n / 1000)]);
    assert(seq![digit_char(n / 1000)].drop_last() =~= Seq::<char>::empty());
    assert(digits_val(s) == (((n / 1000) % 10 * 10 + (n / 100) % 10) * 10 + (n / 10) % 10) * 10 + n
        % 10);
    assert((n / 1000) % 10 == n / 1000);
    assert(n / 1000 * 10 + (n / 100) % 10 == n / 100) by {
        assert(n / 100 / 10 == n / 1000);
        assert(n / 100 == n / 100 / 10 * 10 + (n / 100) % 10);
    }
    assert(n / 100 * 10 + (n / 10) % 10 == n / 10) by {
        assert(n / 10 / 10 == n / 100);
        assert(n / 10 == n / 10 / 10 * 10 + (n / 10) % 10);
    }
    assert(n / 10 * 10 + n % 10 == n);
}

proof fn lemma_padded_decimal(n: int)
    requires
        0 <= n <= 65535,
    ensures
        all_digits(padded_decimal(n)),
        4 <= padded_decimal(n).len() <= 5,
        digits_val(padded_decimal(n)) == n,
{
    if n <= 9999 {
        lemma_four_digits(n);
    } else {
        reveal_with_fuel(digits_val, 3);
        let s = padded_decimal(n);
        lemma_digit_char(n / 10000);
        lemma_four_digits(n % 10000);
        let f = four_digits(n % 10000);
        lemma_digits_prefixed(digit_char(n / 10000), f);
        assert(seq![digit_char(n / 10000)].drop_last() =~= Seq::<char>::empty());
        assert(digits_val(seq![digit_char(n / 10000)]) == (n / 10000) % 10);
        assert((n / 10000) % 10 == n / 10000);
        assert(n / 10000 * pow10(4) + n % 10000 == n) by {
            assert(pow10(4) == 10000) by {
                reveal_with_fuel(pow10, 5);
            }
            assert(n == n / 10000 * 10000 + n % 10000);
        }
    }
}

/// Prepending a digit multiplies the leading value by the power of the
/// remaining length.
proof fn lemma_digits_prefixed(c: char, s: Seq<char>)
    ensures
        digits_val(seq![c] + s) == digits_val(seq![c]) * pow10(s.len()) + digits_val(s),
    decreases s.len(),
{
    if s.len() == 0 {
        assert(seq![c] + s =~= seq![c]);
    } else {
        lemma_digits_prefixed(c, s.drop_last());
        assert((seq![c] + s).drop_last() =~= seq![c] + s.drop_last());
        assert((seq![c] + s).last() == s.last());
        let a = digits_val(seq![c]);
        let p1 = pow10((s.len() - 1) as nat);
        assert(pow10(s.len()) == 10 * p1);
        assert(a * (10 * p1) == (a * p1) * 10) by (nonlinear_arith);
    }
}

/// What decoding a date wire scalar yields: exactly `YYYY-MM-DD` with a
/// valid month and day.
pub open spec fn date_decoded(s: Seq<char>) -> Option<Date> {
    if s.len() == 10 && s[4] == '-' && s[7] == '-' {
        match parsed_u16(s.subrange(0, 4)) {
            Some(y) => match parsed_u16(s.subrange(5, 7)) {
                Some(m) => match parsed_u16(s.subrange(8, 10)) {
                    Some(d) => if 1 <= m <= 12 && 1 <= d <= days_in_month(y as int, m as int) {
                        Some(Date { year: y, month: m as u8, day: d as u8 })
                    } else {
                        None
                    },
                    None => None,
                },
                None => None,
            },
            None => None,
        }
    } else {
        None
    }
}

fn days_in_month_exec(y: u16, m: u8) -> (r: u8)
    ensures
        r == days_in_month(y as int, m as int),
{
    if m == 2 {
        if (y % 4 == 0 && y % 100 != 0) || y % 400 == 0 {
            29
        } else {
            28
        }
    } else if m == 4 || m == 6 || m == 9 || m == 11 {
        30
    } else {
        31
    }
}

/// A calendar date value, carried as an RFC3339 full date.
#[derive(Clone, Copy, Debug, PartialEq, Eq, Structural)]
pub struct EditableFieldDate(pub Date);

impl View for EditableFieldDate {
    type V = Date;

    open spec fn view(&self) -> Date {
        self.0
    }
}

impl FieldValue for EditableFieldDate {
    open spec fn spec_tag() -> FieldTypeV {
        FieldTypeV::Date
    }

    open spec fn spec_encoded(v: Date) -> Seq<char> {
        padded_decimal(v.year as int) + seq!['-'] + two_digits(v.month as int) + seq!['-']
            + two_digits(v.day as int)
    }

    open spec fn spec_decoded(s: Seq<char>) -> Option<Date> {
        date_decoded(s)
    }

    open spec fn spec_wf(v: Date) -> bool {
        v.wf()
    }

    fn field_type(&self) -> (t: FieldType) {
        FieldType::Date
    }

    fn encode_value(&self) -> (r: String) {
        let mut cs: Vec<char> = Vec::new();
        push_padded_decimal(&mut cs, self.0.year);
        cs.push('-');
        push_two_digits(&mut cs, self.0.month as u16);
        cs.push('-');
        push_two_digits(&mut cs, self.0.day as u16);
        proof {
            assert(cs@ =~= Self::spec_encoded(self@));
        }
        string_of(cs.as_slice())
    }

    fn decode_value(s: &str) -> (r: Option<Self>) {
        let chars = chars_of(s);
        if chars.len() != 10 {
            return None;
        }
        if *vstd::slice::slice_index_get(chars.as_slice(), 4) != '-' || *vstd::slice::slice_index_get(
            chars.as_slice(),
            7,
        ) != '-' {
            return None;
        }
        let ys = vstd::slice::slice_subrange(chars.as_slice(), 0, 4);
        let ms = vstd::slice::slice_subrange(chars.as_slice(), 5, 7);
        let ds = vstd::slice::slice_subrange(chars.as_slice(), 8, 10);
        let y = match parse_u16(ys) {
            Some(y) => y,
            None => {
                return None;
            },
        };
        let m = match parse_u16(ms) {
            Some(m) => m,
            None => {
                return None;
            },
        };
        let d = match parse_u16(ds) {
            Some(d) => d,
            None => {
                return None;
            },
        };
        if 1 <= m && m <= 12 && 1 <= d && d as u32 <= days_in_month_exec(y, m as u8) as u32 {
            let date = Date { year: y, month: m as u8, day: d as u8 };
            proof {
                assert(all_digits(ys@));
                lemma_digits_val_bound(ys@);
                assert(pow10(4) == 10000) by {
                reveal_with_fuel(pow10, 5);
            }
            }
            Some(EditableFieldDate(date))
        } else {
            None
        }
    }

    proof fn lemma_value_round_trip(v: Date) {
        let s = Self::spec_encoded(v);
        lemma_four_digits(v.year as int);
        lemma_two_digits(v.month as int);
        lemma_two_digits(v.day as int);
        assert(padded_decimal(v.year as int) == four_digits(v.year as int));
        let y4 = four_digits(v.year as int);
        let m2 = two_digits(v.month as int);
        let d2 = two_digits(v.day as int);
        assert(s =~= seq![
            y4[0], y4[1], y4[2], y4[3], '-', m2[0], m2[1], '-', d2[0], d2[1],
        ]);
        assert(s.len() == 10);
        lemma_digit_char(v.year as int / 1000);
        lemma_digit_char(v.year as int / 100);
        lemma_digit_char(v.year as int / 10);
        lemma_digit_char(v.year as int);
        lemma_digit_char(v.month as int / 10);
        lemma_digit_char(v.month as int);
        lemma_digit_char(v.day as int / 10);
        lemma_digit_char(v.day as int);
        assert(s[4] == '-' && s[7] == '-');
        assert(s.subrange(0, 4) =~= y4);
        assert(s.subrange(5, 7) =~= m2);
        assert(s.subrange(8, 10) =~= d2);
        assert(parsed_u16(y4) == Some(v.year));
        assert(parsed_u16(m2) == Some(v.month as u16));
        assert(parsed_u16(d2) == Some(v.day as u16));
        assert(date_decoded(s) == Some(v));
    }
}

/// What decoding a year-month wire scalar yields: a year before the first
/// dash, a month number after it, both decimal.
pub open spec fn year_month_decoded(s: Seq<char>) -> Option<EditableFieldYearMonth> {
    match find_char(s, '-') {
        Some(i) => match parsed_u16(s.take(i)) {
            Some(y) => match parsed_u16(s.skip(i + 1)) {
                Some(m) => match month_from_number(m as int) {
                    Some(month) => Some(EditableFieldYearMonth { year: y, month }),
                    None => None,
                },
                None => None,
            },
            None => None,
        },
        None => None,
    }
}

/// A year and month, carried as `YYYY-MM`; any other separator or a missing
/// component is a parse error.
#[derive(Clone, Copy, Debug, PartialEq, Eq, Structural)]
pub struct EditableFieldYearMonth {
    /// The year, zero-padded to four digits on the wire.
    pub year: u16,
    /// The month.
    pub month: Month,
}

impl View for EditableFieldYearMonth {
    type V = EditableFieldYearMonth;

    open spec fn view(&self) -> EditableFieldYearMonth {
        *self
    }
}

impl FieldValue for EditableFieldYearMonth {
    open spec fn spec_tag() -> FieldTypeV {
        FieldTypeV::YearMonth
    }

    open spec fn spec_encoded(v: EditableFieldYearMonth) -> Seq<char> {
        padded_decimal(v.year as int) + seq!['-'] + two_digits(month_number(v.month))
    }

    open spec fn spec_decoded(s: Seq<char>) -> Option<EditableFieldYearMonth> {
        year_month_decoded(s)
    }

    open spec fn spec_wf(v: EditableFieldYearMonth) -> bool {
        true
    }

    fn field_type(&self) -> (t: FieldType) {
        FieldType::YearMonth
    }

    fn encode_value(&self) -> (r: String) {
        let mut cs: Vec<char> = Vec::new();
        push_padded_decimal(&mut cs, self.year);
        cs.push('-');
        push_two_digits(&mut cs, self.month.number_from_month() as u16);
        proof {
            assert(cs@ =~= Self::spec_encoded(self@));
        }
        string_of(cs.as_slice())
    }

    fn decode_value(s: &str) -> (r: Option<Self>) {
        let chars = chars_of(s);
        let dash = match find_char_at(chars.as_slice(), '-') {
            Some(i) => i,
            None => {
                return None;
            },
        };
        proof {
            lemma_find_char(chars@, '-');
        }
        let ys = vstd::slice::slice_subrange(chars.as_slice(), 0, dash);
        let ms = vstd::slice::slice_subrange(chars.as_slice(), dash + 1, chars.len());
        proof {
            assert(ys@ =~= chars@.take(dash as int));
            assert(ms@ =~= chars@.skip(dash + 1));
        }
        let y = match parse_u16(ys) {
            Some(y) => y,
            None => {
                return None;
            },
        };
        let m = match parse_u16(ms) {
            Some(m) => m,
            None => {
                return None;
            },
        };
        if m < 1 || m > 12 {
            return None;
        }
        match Month::from_number(m as u8) {
            Some(month) => Some(EditableFieldYearMonth { year: y, month }),
            None => None,
        }
    }

    proof fn lemma_value_round_trip(v: EditableFieldYearMonth) {
        let s = Self::spec_encoded(v);
        let yp = padded_decimal(v.year as int);
        let mn = month_number(v.month);
        let m2 = two_digits(mn);
        lemma_padded_decimal(v.year as int);
        lemma_two_digits(mn);
        let k = yp.len() as int;
        assert(s.len() == k + 3);
        assert(s[k] == '-');
        assert(forall|j: int| 0 <= j < k ==> s[j] == yp[j]);
        assert(forall|j: int| 0 <= j < k ==> s[j] != '-');
        lemma_find_char(s, '-');
        assert(find_char(s, '-') == Some(k)) by {
            match find_char(s, '-') {
                Some(i) => {
                    assert(!(i < k));
                    assert(!(i > k)) by {
                        if i > k {
                            assert(s[k] == '-');
                        }
                    }
                },
                None => {
                    assert(s[k] == '-');
                },
            }
        }
        assert(s.take(k) =~= yp);
        assert(s.skip(k + 1) =~= m2);
        assert(parsed_u16(yp) == Some(v.year));
        assert(parsed_u16(m2) == Some(mn as u16));
        lemma_month_round_trip(v.month);
    }
}

/// A Wi-Fi network security type, carried as a kebab-case name; an unknown
/// name is kept verbatim.
#[derive(Clone, Debug, PartialEq, Eq)]
pub enum EditableFieldWifiNetworkSecurityType {
    Unsecured,
    WpaPersonal,
    Wpa2Personal,
    Wpa3Personal,
    Wep,
    /// A security type this implementation does not know, kept verbatim.
    Other(String),
}

/// The model of a Wi-Fi network security type.
pub enum WifiSecurityV {
    Unsecured,
    WpaPersonal,
    Wpa2Personal,
    Wpa3Personal,
    Wep,
    Other(Seq<char>),
}

impl View for EditableFieldWifiNetworkSecurityType {
    type V = WifiSecurityV;

    open spec fn view(&self) -> WifiSecurityV {
        match self {
            EditableFieldWifiNetworkSecurityType::Unsecured => WifiSecurityV::Unsecured,
            EditableFieldWifiNetworkSecurityType::WpaPersonal => WifiSecurityV::WpaPersonal,
            EditableFieldWifiNetworkSecurityType::Wpa2Personal => WifiSecurityV::Wpa2Personal,
            EditableFieldWifiNetworkSecurityType::Wpa3Personal => WifiSecurityV::Wpa3Personal,
            EditableFieldWifiNetworkSecurityType::Wep => WifiSecurityV::Wep,
            EditableFieldWifiNetworkSecurityType::Other(s) => WifiSecurityV::Other(s@),
        }
    }
}

/// The Wi-Fi security type a wire name denotes; an unknown name is kept.
pub open spec fn wifi_security_parsed(s: Seq<char>) -> WifiSecurityV {
    if s == "unsecured"@ {
        WifiSecurityV::Unsecured
    } else if s == "wpa-personal"@ {
        WifiSecurityV::WpaPersonal
    } else if s == "wpa2-personal"@ {
        WifiSecurityV::Wpa2Personal
    } else if s == "wpa3-personal"@ {
        WifiSecurityV::Wpa3Personal
    } else if s == "wep"@ {
        WifiSecurityV::Wep
    } else {
        WifiSecurityV::Other(s)
    }
}

/// The wire name of a Wi-Fi security type.
pub open spec fn wifi_security_name(v: WifiSecurityV) -> Seq<char> {
    match v {
        WifiSecurityV::Unsecured => "unsecured"@,
        WifiSecurityV::WpaPersonal => "wpa-personal"@,
        WifiSecurityV::Wpa2Personal => "wpa2-personal"@,
        WifiSecurityV::Wpa3Personal => "wpa3-personal"@,
        WifiSecurityV::Wep => "wep"@,
        WifiSecurityV::Other(s) => s,
    }
}

impl FieldValue for EditableFieldWifiNetworkSecurityType {
    open spec fn spec_tag() -> FieldTypeV {
        FieldTypeV::WifiNetworkSecurityType
    }

    open spec fn spec_encoded(v: WifiSecurityV) -> Seq<char> {
        wifi_security_name(v)
    }

    open spec fn spec_decoded(s: Seq<char>) -> Option<WifiSecurityV> {
        Some(wifi_security_parsed(s))
    }

    open spec fn spec_wf(v: WifiSecurityV) -> bool {
        match v {
            WifiSecurityV::Other(s) => wifi_security_parsed(s) == WifiSecurityV::Other(s),
            _ => true,
        }
    }

    fn field_type(&self) -> (t: FieldType) {
        FieldType::WifiNetworkSecurityType
    }

    fn encode_value(&self) -> (r: String) {
        match self {
            EditableFieldWifiNetworkSecurityType::Unsecured => "unsecured".to_owned(),
            EditableFieldWifiNetworkSecurityType::WpaPersonal => "wpa-personal".to_owned(),
            EditableFieldWifiNetworkSecurityType::Wpa2Personal => "wpa2-personal".to_owned(),
            EditableFieldWifiNetworkSecurityType::Wpa3Personal => "wpa3-personal".to_owned(),
            EditableFieldWifiNetworkSecurityType::Wep => "wep".to_owned(),
            EditableFieldWifiNetworkSecurityType::Other(s) => s.clone(),
        }
    }

    fn decode_value(s: &str) -> (r: Option<Self>) {
        if str_eq(s, "unsecured") {
            Some(EditableFieldWifiNetworkSecurityType::Unsecured)
        } else if str_eq(s, "wpa-personal") {
            Some(EditableFieldWifiNetworkSecurityType::WpaPersonal)
        } else if str_eq(s, "wpa2-personal") {
            Some(EditableFieldWifiNetworkSecurityType::Wpa2Personal)
        } else if str_eq(s, "wpa3-personal") {
            Some(EditableFieldWifiNetworkSecurityType::Wpa3Personal)
        } else if str_eq(s, "wep") {
            Some(EditableFieldWifiNetworkSecurityType::Wep)
        } else {
            Some(EditableFieldWifiNetworkSecurityType::Other(s.to_owned()))
        }
    }

    proof fn lemma_value_round_trip(v: WifiSecurityV) {
        reveal_strlit("unsecured");
        reveal_strlit("wpa-personal");
        reveal_strlit("wpa2-personal");
        reveal_strlit("wpa3-personal");
        reveal_strlit("wep");
        assert("unsecured"@.len() == 9);
        assert("wpa-personal"@.len() == 12);
        assert("wpa2-personal"@.len() == 13);
        assert("wpa3-personal"@.len() == 13);
        assert("wep"@.len() == 3);
        assert("wpa2-personal"@[3] == '2');
        assert("wpa3-personal"@[3] == '3');
    }
}

/// Why an editable field failed to decode.
#[derive(Clone, Copy, Debug, PartialEq, Eq, Structural)]
pub enum FieldError {
    /// The JSON value is not an object.
    NotAnObject,
    /// The required `fieldType` member is missing.
    MissingFieldType,
    /// The `fieldType` member is not a string.
    InvalidFieldType,
    /// The required `value` member is missing.
    MissingValue,
    /// The `value` member is not a string, or its text does not parse as the
    /// expected value kind.
    InvalidValue,
    /// The `fieldType` tag does not match the value's intrinsic kind.
    TagMismatch,
    /// The `id` member is not a base64url string.
    InvalidId,
    /// The `label` member is not a string.
    InvalidLabel,
}

/// A labeled, identified, typed value.
///
/// The wire form carries the value together with a redundant `fieldType`
/// tag; on decode the tag must match the value kind `T`.
#[derive(Debug, Clone, PartialEq, Eq)]
pub struct EditableField<T> {
    /// A machine-generated opaque identifier, at most 64 bytes. It should
    /// not be displayed to the user.
    pub id: Option<B64Url>,
    /// The typed value.
    pub value: T,
    /// A user-facing description of the stored value.
    pub label: Option<String>,
    /// Additional provider information. It is not part of the wire form of
    /// the field, and a decode always leaves it absent.
    pub extensions: Option<Vec<Extension>>,
}

/// The model of an editable field: identifier bytes, value model and label.
#[verifier::ext_equal]
pub struct FieldV<V> {
    pub id: Option<Seq<u8>>,
    pub value: V,
    pub label: Option<Seq<char>>,
}

impl<T: View> View for EditableField<T> {
    type V = FieldV<T::V>;

    open spec fn view(&self) -> FieldV<T::V> {
        FieldV {
            id: match &self.id {
                Some(b) => Some(b@),
                None => None,
            },
            value: self.value@,
            label: match &self.label {
                Some(l) => Some(l@),
                None => None,
            },
        }
    }
}

/// The field list of an encoded editable field: `id` if present, the
/// derived `fieldType` tag, the scalar `value`, and `label` if present.
pub open spec fn field_encoded_entries<T: FieldValue>(f: FieldV<T::V>) -> Seq<(Seq<char>, JsonV)> {
    (match f.id {
        Some(b) => seq![("id"@, JsonV::Str(b64url_encoded(b)))],
        None => Seq::<(Seq<char>, JsonV)>::empty(),
    }) + seq![
        ("fieldType"@, JsonV::Str(tag_name(T::spec_tag()))),
        ("value"@, JsonV::Str(T::spec_encoded(f.value))),
    ] + (match f.label {
        Some(l) => seq![("label"@, JsonV::Str(l))],
        None => Seq::<(Seq<char>, JsonV)>::empty(),
    })
}

/// What encoding an editable field produces.
pub open spec fn field_encoded<T: FieldValue>(f: FieldV<T::V>) -> JsonV {
    JsonV::Obj(field_encoded_entries::<T>(f))
}

pub open spec fn field_label_decoded<V>(o: Seq<(Seq<char>, JsonV)>, id: Option<Seq<u8>>, v: V) -> Result<
    FieldV<V>,
    FieldError,
> {
    match lookup(o, "label"@) {
        Some(JsonV::Str(l)) => Ok(FieldV { id, value: v, label: Some(l) }),
        Some(_) => Err(FieldError::InvalidLabel),
        None => Ok(FieldV { id, value: v, label: None }),
    }
}

/// What decoding an editable field of kind `T` yields: the object's
/// `value` text must parse as a `T` value, the `fieldType` tag must equal
/// the kind's own tag, and `id` and `label`, when present, must be a
/// base64url string and a string.
pub open spec fn field_decoded<T: FieldValue>(j: JsonV) -> Result<FieldV<T::V>, FieldError> {
    match j {
        JsonV::Obj(o) => match lookup(o, "fieldType"@) {
            Some(JsonV::Str(tagname)) => match lookup(o, "value"@) {
                Some(JsonV::Str(valtext)) => match T::spec_decoded(valtext) {
                    Some(v) => if tagname == tag_name(T::spec_tag()) {
                        match lookup(o, "id"@) {
                            Some(JsonV::Str(idtext)) => match b64url_parse(idtext) {
                                Some(bytes) => field_label_decoded(o, Some(bytes), v),
                                None => Err(FieldError::InvalidId),
                            },
                            Some(_) => Err(FieldError::InvalidId),
                            None => field_label_decoded(o, None, v),
                        }
                    } else {
                        Err(FieldError::TagMismatch)
                    },
                    None => Err(FieldError::InvalidValue),
                },
                Some(_) => Err(FieldError::InvalidValue),
                None => Err(FieldError::MissingValue),
            },
            Some(_) => Err(FieldError::InvalidFieldType),
            None => Err(FieldError::MissingFieldType),
        },
        _ => Err(FieldError::NotAnObject),
    }
}

proof fn lemma_lookup_cons(head: (Seq<char>, JsonV), rest: Seq<(Seq<char>, JsonV)>, k: Seq<char>)
    ensures
        lookup(seq![head] + rest, k) == (if head.0 == k {
            Some(head.1)
        } else {
            lookup(rest, k)
        }),
{
    let s = seq![head] + rest;
    assert(s[0] == head);
    assert(s.drop_first() =~= rest);
}

/// The lookups into an encoded field's entries.
proof fn lemma_field_lookups<T: FieldValue>(f: FieldV<T::V>)
    ensures
        lookup(field_encoded_entries::<T>(f), "fieldType"@) == Some(
            JsonV::Str(tag_name(T::spec_tag())),
        ),
        lookup(field_encoded_entries::<T>(f), "value"@) == Some(
            JsonV::Str(T::spec_encoded(f.value)),
        ),
        lookup(field_encoded_entries::<T>(f), "id"@) == (match f.id {
            Some(b) => Some(JsonV::Str(b64url_encoded(b))),
            None => None,
        }),
        lookup(field_encoded_entries::<T>(f), "label"@) == (match f.label {
            Some(l) => Some(JsonV::Str(l)),
            None => None,
        }),
{
    reveal_strlit("id");
    reveal_strlit("fieldType");
    reveal_strlit("value");
    reveal_strlit("label");
    assert("id"@.len() == 2);
    assert("fieldType"@.len() == 9);
    assert("value"@.len() == 5);
    assert("label"@.len() == 5);
    assert("value"@[0] == 'v');
    assert("label"@[0] == 'l');
    let e = field_encoded_entries::<T>(f);
    let ft = ("fieldType"@, JsonV::Str(tag_name(T::spec_tag())));
    let va = ("value"@, JsonV::Str(T::spec_encoded(f.value)));
    let lab = (match f.label {
        Some(l) => seq![("label"@, JsonV::Str(l))],
        None => Seq::<(Seq<char>, JsonV)>::empty(),
    });
    let tail2 = seq![va] + lab;
    let tail1 = seq![ft] + tail2;
    assert(seq![ft, va] + lab =~= seq![ft] + (seq![va] + lab));
    match f.id {
        Some(b) => {
            let idp = ("id"@, JsonV::Str(b64url_encoded(b)));
            assert(e =~= seq![idp] + tail1);
            lemma_lookup_cons(idp, tail1, "id"@);
            lemma_lookup_cons(idp, tail1, "fieldType"@);
            lemma_lookup_cons(idp, tail1, "value"@);
            lemma_lookup_cons(idp, tail1, "label"@);
        },
        None => {
            assert(e =~= tail1);
        },
    }
    lemma_lookup_cons(ft, tail2, "id"@);
    lemma_lookup_cons(ft, tail2, "fieldType"@);
    lemma_lookup_cons(ft, tail2, "value"@);
    lemma_lookup_cons(ft, tail2, "label"@);
    lemma_lookup_cons(va, lab, "id"@);
    lemma_lookup_cons(va, lab, "value"@);
    lemma_lookup_cons(va, lab, "label"@);
    match f.label {
        Some(l) => {
            let lp = ("label"@, JsonV::Str(l));
            assert(lab =~= seq![lp] + Seq::<(Seq<char>, JsonV)>::empty());
            lemma_lookup_cons(lp, Seq::empty(), "id"@);
            lemma_lookup_cons(lp, Seq::empty(), "label"@);
        },
        None => {},
    }
}

impl<T: FieldValue> EditableField<T> {
    /// Decodes an editable field of kind `T` from a JSON value. The
    /// `fieldType` tag must match the kind's own tag; a mismatch is an
    /// error, never a coercion.
    pub fn decode(j: &Json) -> (r: Result<Self, FieldError>)
        ensures
            match r {
                Ok(f) => field_decoded::<T>(j@) == Ok::<FieldV<T::V>, FieldError>(f@)
                    && f.extensions is None && T::spec_wf(f@.value),
                Err(e) => field_decoded::<T>(j@) == Err::<FieldV<T::V>, FieldError>(e),
            },
    {
        let fields = match j {
            Json::Obj(fields) => fields,
            _ => {
                return Err(FieldError::NotAnObject);
            },
        };
        let tag_s = match Json::obj_get(fields, "fieldType") {
            Some(Json::Str(s)) => s,
            Some(_) => {
                return Err(FieldError::InvalidFieldType);
            },
            None => {
                return Err(FieldError::MissingFieldType);
            },
        };
        let val_s = match Json::obj_get(fields, "value") {
            Some(Json::Str(s)) => s,
            Some(_) => {
                return Err(FieldError::InvalidValue);
            },
            None => {
                return Err(FieldError::MissingValue);
            },
        };
        let value = match T::decode_value(val_s.as_str()) {
            Some(v) => v,
            None => {
                return Err(FieldError::InvalidValue);
            },
        };
        let tname = value.field_type().wire_name();
        if !str_eq(tag_s.as_str(), tname.as_str()) {
            return Err(FieldError::TagMismatch);
        }
        let id = match Json::obj_get(fields, "id") {
            Some(Json::Str(s)) => match B64Url::decode(s.as_str()) {
                Ok(b) => Some(b),
                Err(_) => {
                    return Err(FieldError::InvalidId);
                },
            },
            Some(_) => {
                return Err(FieldError::InvalidId);
            },
            None => None,
        };
        let label = match Json::obj_get(fields, "label") {
            Some(Json::Str(s)) => Some(s.clone()),
            Some(_) => {
                return Err(FieldError::InvalidLabel);
            },
            None => None,
        };
        Ok(EditableField { id, value, label, extensions: None })
    }

    /// Encodes the field. The `fieldType` tag is derived from the value
    /// kind, so the produced pair is always consistent, and decoding the
    /// result gives the field back whenever its value is well formed.
    pub fn encode(&self) -> (r: Json)
        ensures
            r@ == field_encoded::<T>(self@),
            T::spec_wf(self@.value) ==> field_decoded::<T>(r@) == Ok::<
                FieldV<T::V>,
                FieldError,
            >(self@),
    {
        let mut fields: Vec<(String, Json)> = Vec::new();
        let ghost myid = self@.id;
        match &self.id {
            Some(b) => {
                let t = b.to_string();
                proof {
                    assert(b64url_parse(t@) == Some(b@));
                }
                fields.push(("id".to_owned(), Json::Str(t)));
            },
            None => {},
        }
        fields.push(("fieldType".to_owned(), Json::Str(self.value.field_type().wire_name())));
        fields.push(("value".to_owned(), Json::Str(self.value.encode_value())));
        match &self.label {
            Some(l) => {
                fields.push(("label".to_owned(), Json::Str(l.clone())));
            },
            None => {},
        }
        proof {
            assert(fields_view(fields) =~= field_encoded_entries::<T>(self@));
        }
        let r = Json::Obj(fields);
        proof {
            lemma_field_lookups::<T>(self@);
            if T::spec_wf(self@.value) {
                T::lemma_value_round_trip(self@.value);
            }
            match self@.id {
                Some(b) => {
                    assert(b64url_parse(b64url_encoded(b)) == Some(b));
                },
                None => {},
            }
            assert(T::spec_wf(self@.value) ==> field_decoded::<T>(r@) == Ok::<
                FieldV<T::V>,
                FieldError,
            >(self@));
        }
        r
    }
}

} // verus!
