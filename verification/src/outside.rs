//! The calls that leave this crate: hashing, identifiers, randomness, the
//! clock, the calendar, country codes and Base64. Each function here whose
//! body Verus does not read is believed, not proved; its comment says what is
//! claimed of the code behind it. The spec functions with a body say in
//! full what such a call gives.

use vstd::prelude::*;
use vstd::arithmetic::power::pow;
use crate::time::{Date, Timestamp};

verus! {

/// The sixteen hexadecimal digits, with small letters.
pub open spec fn lower_digits() -> Seq<char> {
    seq!['0', '1', '2', '3', '4', '5', '6', '7', '8', '9', 'a', 'b', 'c', 'd', 'e', 'f']
}

/// The sixteen hexadecimal digits, with capital letters.
pub open spec fn upper_digits() -> Seq<char> {
    seq!['0', '1', '2', '3', '4', '5', '6', '7', '8', '9', 'A', 'B', 'C', 'D', 'E', 'F']
}

/// The `k`-th of the 32 four-bit groups of `id`, the most significant first.
pub open spec fn nibble(id: u128, k: int) -> int {
    (id as int / pow(16, (31 - k) as nat)) % 16
}

/// `id` written as 32 hexadecimal digits with capital letters.
pub open spec fn simple_upper_text(id: u128) -> Seq<char> {
    Seq::new(32, |k: int| upper_digits()[nibble(id, k)])
}

/// How many hyphens stand before position `i` of the hyphenated form.
pub open spec fn hyphens_before(i: int) -> int {
    (if i > 8 { 1int } else { 0 }) + (if i > 13 { 1int } else { 0 }) + (if i > 18 { 1int } else { 0 })
        + (if i > 23 { 1int } else { 0 })
}

/// `id` written as 8-4-4-4-12 hexadecimal digits with small letters and hyphens between the groups.
pub open spec fn hyphenated_text(id: u128) -> Seq<char> {
    Seq::new(
        36,
        |i: int|
            if i == 8 || i == 13 || i == 18 || i == 23 {
                '-'
            } else {
                lower_digits()[nibble(id, i - hyphens_before(i))]
            },
    )
}

/// `bytes` written as two hexadecimal digits each, with small letters.
pub open spec fn lower_hex_text(bytes: Seq<u8>) -> Seq<char> {
    Seq::new(
        2 * bytes.len(),
        |i: int|
            if i % 2 == 0 {
                lower_digits()[bytes[i / 2] as int / 16]
            } else {
                lower_digits()[bytes[i / 2] as int % 16]
            },
    )
}

/// Whether `b` is an ASCII letter or digit.
pub open spec fn is_alphanumeric(b: u8) -> bool {
    (0x30 <= b <= 0x39) || (0x41 <= b <= 0x5a) || (0x61 <= b <= 0x7a)
}

/// The MD5 digest of `data`: the sixteen bytes that `md5::compute` returns for it.
pub uninterp spec fn md5_digest(data: Seq<u8>) -> Seq<u8>;

/// What `base64::decode` makes of `text`: the decoded bytes, or nothing where it reports an error.
pub uninterp spec fn base64_decoding(text: Seq<char>) -> Option<Seq<u8>>;

/// `String::push` puts the character behind those already there.
pub assume_specification[ String::push ](text: &mut String, c: char)
    ensures
        final(text)@ == old(text)@.push(c),
;

/// Calls `md5::compute` and formats the digest with `{:x}`, which the crate
/// implements as two small hexadecimal digits for each of the sixteen bytes.
#[verifier::external_body]
pub(crate) fn md5_hex(data: &[u8]) -> (r: String)
    ensures
        r@ == lower_hex_text(md5_digest(data@)),
{
    format!("{:x}", md5::compute(data))
}

/// Calls `uuid::Uuid::new_v4` and hands the identifier over as its 128 bits.
/// Nothing is claimed of the value: it is random. The call panics where the
/// operating system has no random bytes to give.
#[verifier::external_body]
pub(crate) fn fresh_uuid() -> u128 {
    uuid::Uuid::new_v4().as_u128()
}

/// Formats the identifier through `Uuid::to_simple` with `{:X}`: its 32
/// hexadecimal digits, capital letters, no hyphens.
#[verifier::external_body]
pub(crate) fn uuid_simple_upper(id: u128) -> (r: String)
    ensures
        r@ == simple_upper_text(id),
{
    format!("{:X}", uuid::Uuid::from_u128(id).to_simple())
}

/// Formats the identifier through `Uuid`'s `Display`: the hyphenated form with small letters.
#[verifier::external_body]
pub(crate) fn uuid_hyphenated(id: u128) -> (r: String)
    ensures
        r@ == hyphenated_text(id),
{
    format!("{}", uuid::Uuid::from_u128(id))
}

/// `rand`'s generator of the calling thread; nothing of it is seen here.
#[verifier::external_type_specification]
#[verifier::external_body]
pub struct ExThreadRng(rand::rngs::ThreadRng);

/// The error of `base64::decode`; nothing of it is seen here but its text.
#[verifier::external_type_specification]
#[verifier::external_body]
pub struct ExDecodeError(base64::DecodeError);

/// Calls `rand::thread_rng` for the calling thread's generator. The call
/// panics where the generator cannot be seeded.
#[verifier::external_body]
pub(crate) fn thread_rng() -> rand::rngs::ThreadRng {
    rand::thread_rng()
}

/// Samples `rand::distributions::Alphanumeric`, which picks one byte out of
/// `A-Z`, `a-z` and `0-9`. Which one is not claimed.
#[verifier::external_body]
pub(crate) fn sample_alphanumeric(rng: &mut rand::rngs::ThreadRng) -> (b: u8)
    ensures
        is_alphanumeric(b),
{
    rand::Rng::sample(rng, rand::distributions::Alphanumeric)
}

/// Calls `base64::decode`, the standard alphabet with padding.
#[verifier::external_body]
pub(crate) fn base64_decode(text: &str) -> (r: Result<Vec<u8>, base64::DecodeError>)
    ensures
        match r {
            Ok(bytes) => base64_decoding(text@) == Some(bytes@),
            Err(_) => base64_decoding(text@) is None,
        },
{
    base64::decode(text)
}

/// The text that `base64::DecodeError` displays as.
#[verifier::external_body]
pub(crate) fn base64_error_text(error: &base64::DecodeError) -> String {
    error.to_string()
}

/// Reads the clock through `chrono::Utc::now`. Of the value only this is
/// claimed, which holds of every instant that `chrono` can hold: its day
/// number, counted from year 1, fits 32 bits. The call panics where the
/// machine's clock stands before 1970.
#[verifier::external_body]
pub(crate) fn current_time() -> (r: Timestamp)
    ensures
        i32::MIN <= epoch_day(r.seconds) + 719163 <= i32::MAX,
{
    let now = chrono::Utc::now();
    Timestamp { seconds: now.timestamp(), nanos: now.timestamp_subsec_nanos() }
}

/// The day number of the first day of `chrono`'s calendar, 1 January of the year -262143.
pub const FIRST_DAY: i32 = -95746129;

/// The day number of the last day of `chrono`'s calendar, 31 December of the year 262142.
pub const LAST_DAY: i32 = 95745399;

/// Whether `chrono` can hold the instant `seconds` and `nanos` after the
/// Unix epoch: its day lies within the calendar, and its nanoseconds are
/// below a second, or below two in the last second of a minute, where a leap
/// second is written so.
pub open spec fn utc_timestamp_valid(seconds: i64, nanos: u32) -> bool {
    &&& FIRST_DAY <= epoch_day(seconds) + 719163 <= LAST_DAY
    &&& nanos < 2_000_000_000
    &&& nanos >= 1_000_000_000 ==> (seconds as int % 86400) % 60 == 59
}

/// What `str::parse::<DateTime<Utc>>` makes of `text`: the instant, or nothing where it reports an error.
pub uninterp spec fn rfc3339_datetime(text: Seq<char>) -> Option<Timestamp>;

/// What `Utc.datetime_from_str` makes of `text` under `format`: the instant, or the error's text.
pub uninterp spec fn formatted_datetime(text: Seq<char>, format: Seq<char>) -> Result<Timestamp, Seq<char>>;

/// What `NaiveDate::parse_from_str` makes of `text` under `format`: the date, or the error's text.
pub uninterp spec fn formatted_date(text: Seq<char>, format: Seq<char>) -> Result<Date, Seq<char>>;

/// Whether the day numbered `days` is one local date in London, neither missing nor ambiguous.
pub uninterp spec fn london_date_is_single(days: i32) -> bool;

/// The day numbered `days` written under `format`; nothing where `chrono` cannot hold the day.
pub uninterp spec fn date_text(days: i32, format: Seq<char>) -> Option<Seq<char>>;

/// The number of whole days from the Unix epoch to the instant `seconds` after it, rounded down.
pub open spec fn epoch_day(seconds: i64) -> int {
    seconds as int / 86400
}

/// Calls `chrono`'s `Utc.timestamp_opt(..).single()` and reads the instant
/// back through `timestamp` and `timestamp_subsec_nanos`, which the crate
/// documents to give the two numbers back. An instant is refused where its
/// day lies outside the calendar or its nanoseconds are not those of a second.
#[verifier::external_body]
pub(crate) fn utc_timestamp(seconds: i64, nanos: u32) -> (r: Option<Timestamp>)
    ensures
        r == (if utc_timestamp_valid(seconds, nanos) {
            Some(Timestamp { seconds, nanos })
        } else {
            None
        }),
{
    chrono::TimeZone::timestamp_opt(&chrono::Utc, seconds, nanos).single().map(
        |t| Timestamp { seconds: t.timestamp(), nanos: t.timestamp_subsec_nanos() },
    )
}

/// Parses through `str::parse::<DateTime<Utc>>`, a relaxed RFC 3339.
#[verifier::external_body]
pub(crate) fn parse_rfc3339(text: &str) -> (r: Option<Timestamp>)
    ensures
        r == rfc3339_datetime(text@),
{
    text.parse::<chrono::DateTime<chrono::Utc>>().ok().map(
        |t| Timestamp { seconds: t.timestamp(), nanos: t.timestamp_subsec_nanos() },
    )
}

/// Parses through `Utc.datetime_from_str` with the format given.
#[verifier::external_body]
#[allow(deprecated)]
pub(crate) fn parse_datetime_with(text: &str, format: &str) -> (r: Result<Timestamp, String>)
    ensures
        formatted_datetime(text@, format@) == (match r {
            Ok(t) => Ok(t),
            Err(e) => Err(e@),
        }),
{
    match chrono::TimeZone::datetime_from_str(&chrono::Utc, text, format) {
        Ok(t) => Ok(Timestamp { seconds: t.timestamp(), nanos: t.timestamp_subsec_nanos() }),
        Err(e) => Err(e.to_string()),
    }
}

/// Parses through `NaiveDate::parse_from_str` with the format given.
#[verifier::external_body]
pub(crate) fn parse_date_with(text: &str, format: &str) -> (r: Result<Date, String>)
    ensures
        formatted_date(text@, format@) == (match r {
            Ok(d) => Ok(d),
            Err(e) => Err(e@),
        }),
{
    match chrono::NaiveDate::parse_from_str(text, format) {
        Ok(d) => Ok(Date { days_from_ce: chrono::Datelike::num_days_from_ce(&d) }),
        Err(e) => Err(e.to_string()),
    }
}

/// Asks `chrono_tz::Europe::London.from_local_date` whether the date is one
/// local date there. A day that `chrono` cannot hold is none.
#[verifier::external_body]
#[allow(deprecated)]
pub(crate) fn london_date_single(date: Date) -> (r: bool)
    ensures
        r == london_date_is_single(date.days_from_ce),
{
    match chrono::NaiveDate::from_num_days_from_ce_opt(date.days_from_ce) {
        Some(d) => chrono::TimeZone::from_local_date(&chrono_tz::Europe::London, &d).single().is_some(),
        None => false,
    }
}

/// Writes the date through `NaiveDate::format` with the format given. The
/// text of a format that `chrono` cannot read cannot be had: turning it into
/// text panics. So only the format year, month, day is let in, which `chrono`
/// reads and writes for every date it can hold.
#[verifier::external_body]
pub(crate) fn format_date(date: Date, format: &str) -> (r: Option<String>)
    requires
        format@ == "%Y-%m-%d"@,
    ensures
        date_text(date.days_from_ce, format@) == (match r {
            Some(text) => Some(text@),
            None => None,
        }),
{
    chrono::NaiveDate::from_num_days_from_ce_opt(date.days_from_ce).map(|d| d.format(format).to_string())
}

/// The country that `isocountry` finds for a two-letter code, whatever its
/// case, given by its two-letter and its three-letter code; or the text of
/// the error.
pub uninterp spec fn country_by_alpha2(code: Seq<char>) -> Result<(Seq<char>, Seq<char>), Seq<char>>;

/// The two-letter code of the country that `isocountry` finds for a two-letter code, whatever its case.
pub open spec fn alpha2_of_alpha2(code: Seq<char>) -> Option<Seq<char>> {
    match country_by_alpha2(code) {
        Ok(found) => Some(found.0),
        Err(_) => None,
    }
}

/// The two-letter code of the country that `isocountry` finds for a three-letter code, whatever its case.
pub uninterp spec fn alpha2_of_alpha3(code: Seq<char>) -> Option<Seq<char>>;

/// The two-letter code of the country that `isocountry` finds for a numeric code.
pub uninterp spec fn alpha2_of_id(id: u32) -> Option<Seq<char>>;

/// `r` with its texts taken as plain values.
pub open spec fn plain_text(r: Option<String>) -> Option<Seq<char>> {
    match r {
        Some(s) => Some(s@),
        None => None,
    }
}

/// Calls `isocountry::CountryCode::for_alpha2_caseless` and hands the country
/// over as its two-letter and its three-letter code (`alpha2`, `alpha3`),
/// the error as its text.
#[verifier::external_body]
pub(crate) fn lookup_alpha2(code: &str) -> (r: Result<(String, String), String>)
    ensures
        country_by_alpha2(code@) == (match r {
            Ok(found) => Ok((found.0@, found.1@)),
            Err(e) => Err(e@),
        }),
{
    match isocountry::CountryCode::for_alpha2_caseless(code) {
        Ok(c) => Ok((c.alpha2().to_string(), c.alpha3().to_string())),
        Err(e) => Err(e.to_string()),
    }
}

/// Calls `isocountry::CountryCode::for_alpha3_caseless` and hands the country
/// over as its two-letter code (`alpha2`).
#[verifier::external_body]
pub(crate) fn alpha2_by_alpha3(code: &str) -> (r: Option<String>)
    ensures
        plain_text(r) == alpha2_of_alpha3(code@),
{
    isocountry::CountryCode::for_alpha3_caseless(code).ok().map(|c| c.alpha2().to_string())
}

/// Calls `isocountry::CountryCode::for_id` and hands the country over as its
/// two-letter code (`alpha2`).
#[verifier::external_body]
pub(crate) fn alpha2_by_id(id: u32) -> (r: Option<String>)
    ensures
        plain_text(r) == alpha2_of_id(id),
{
    isocountry::CountryCode::for_id(id).ok().map(|c| c.alpha2().to_string())
}

/// The identifier that `uuid::Uuid::parse_str` reads `text` as.
pub uninterp spec fn parsed_uuid(text: Seq<char>) -> Option<u128>;

/// `text` in capital letters, as `str::to_uppercase` has it.
pub uninterp spec fn uppercase(text: Seq<char>) -> Seq<char>;

/// Calls `uuid::Uuid::parse_str`, which reads hexadecimal digits with or
/// without hyphens and, by its documentation, every form that the crate
/// itself writes.
#[verifier::external_body]
pub(crate) fn parse_uuid(text: &str) -> (r: Option<u128>)
    ensures
        r == parsed_uuid(text@),
        forall|id: u128| text@ == hyphenated_text(id) ==> r == Some(id),
{
    uuid::Uuid::parse_str(text).ok().map(|id| id.as_u128())
}

/// Calls `str::to_uppercase`.
#[verifier::external_body]
pub(crate) fn to_uppercase(text: &str) -> (r: String)
    ensures
        r@ == uppercase(text@),
{
    text.to_uppercase()
}

/// Whether `c` is a numeric character, as `char::is_numeric` has it.
pub uninterp spec fn is_numeric_char(c: char) -> bool;

/// Calls `char::is_numeric`.
#[verifier::external_body]
pub(crate) fn char_is_numeric(c: char) -> (r: bool)
    ensures
        r == is_numeric_char(c),
{
    c.is_numeric()
}

/// `bytes` written in Base64, as `base64::encode` has it: the standard alphabet with padding.
pub uninterp spec fn base64_encoding(bytes: Seq<u8>) -> Seq<char>;

/// Calls `base64::encode`.
#[verifier::external_body]
pub(crate) fn base64_encode(bytes: &[u8]) -> (r: String)
    ensures
        r@ == base64_encoding(bytes@),
{
    base64::encode(bytes)
}

} // verus!
