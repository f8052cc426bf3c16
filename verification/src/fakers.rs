//! Trusted wrappers around the outside value generators: the fake crate's
//! fakers, rand's ranged draw, and chrono's timestamp parsing. Each wrapper
//! holds exactly one outside call; everything a generated value must
//! satisfy is established afterwards by the verified post-processing in
//! `rows`.

use vstd::prelude::*;
use fake::Fake;
use fake::Faker;
use fake::faker::address::en::{
    BuildingNumber, CityName, CityPrefix, CitySuffix, CountryCode, CountryName, Geohash, Latitude,
    Longitude, PostCode, SecondaryAddress, SecondaryAddressType, StateAbbr, StateName, StreetName,
    StreetSuffix, ZipCode,
};
use fake::faker::barcode::en::{Isbn, Isbn10, Isbn13};
use fake::faker::boolean::en::Boolean;
use fake::faker::chrono::en::{
    Date, DateTime, DateTimeAfter, DateTimeBefore, DateTimeBetween, Time,
};
use fake::faker::color::en::{Color, HexColor, HslColor, RgbColor, RgbaColor};
use fake::faker::company::en::{
    Bs, BsAdj, BsNoun, BsVerb, Buzzword, BuzzwordMiddle, BuzzwordTail, CatchPhrase, CompanyName,
    CompanySuffix, Profession,
};
use fake::faker::filesystem::en::{DirPath, FileExtension, FileName, FilePath};
use fake::faker::finance::raw::Bic;
use fake::faker::http::en::{RfcStatusCode, ValidStatusCode};
use fake::faker::internet::en::{
    DomainSuffix, FreeEmail, FreeEmailProvider, IP, IPv4, IPv6, MACAddress, Password, SafeEmail,
    UserAgent, Username,
};
use fake::faker::lorem::en::{Paragraph, Sentence, Word};
use fake::faker::name::raw::{FirstName, LastName, Name, NameWithTitle, Suffix, Title};
use fake::faker::number::en::Digit;
use fake::faker::phone_number::en::{CellNumber, PhoneNumber};
use fake::locales::EN;
use fake::uuid::{UUIDv1, UUIDv3, UUIDv4, UUIDv5};
use rand::Rng;

verus! {

/// Timestamps this far from the epoch, widened by the faker's largest
/// offset, stay inside chrono's representable range.
pub const MAX_BOUND_SECS: i64 = 8_000_000_000_000;

/// Relies on rand's `Rng::gen_range` on an inclusive range: the draw lies
/// within the bounds and panics only on an empty range.
#[verifier::external_body]
pub(crate) fn random_i32_in(lo: i32, hi: i32) -> (r: i32)
    requires
        lo <= hi,
    ensures
        lo <= r <= hi,
{
    rand::thread_rng().gen_range(lo..=hi)
}

/// The epoch seconds that parsing a `YYYY-MM-DD hh:mm:ss` text yields, or
/// none when the text does not parse.
pub uninterp spec fn date_secs_of(s: Seq<char>) -> Option<i64>;

/// The text chrono renders for the UTC instant at the given epoch seconds
/// (RFC 3339 form, zero nanoseconds); the result depends on the instant
/// alone.
pub uninterp spec fn stamp_text_of(secs: int) -> Seq<char>;

/// Relies on chrono's RFC 3339 formatting of the UTC instant at the given
/// epoch seconds: the same rendering the timestamp fakers use.
#[verifier::external_body]
pub(crate) fn render_stamp(secs: i64) -> (r: String)
    requires
        -MAX_BOUND_SECS <= secs <= MAX_BOUND_SECS,
    ensures
        r@ == stamp_text_of(secs as int),
{
    chrono::DateTime::from_timestamp(secs, 0).unwrap().format("%+").to_string()
}

/// `t` renders an instant strictly before the bound, a whole number of
/// minutes back, less than a million.
pub open spec fn spec_stamp_before(bound: int, t: Seq<char>) -> bool {
    exists|inst: int|
        bound - 60_000_000 < inst < bound && (bound - inst) % 60 == 0 && t == #[trigger] stamp_text_of(
            inst,
        )
}

/// `t` renders an instant strictly after the bound, a whole number of
/// minutes forward, less than a million.
pub open spec fn spec_stamp_after(bound: int, t: Seq<char>) -> bool {
    exists|inst: int|
        bound < inst < bound + 60_000_000 && (inst - bound) % 60 == 0 && t == #[trigger] stamp_text_of(
            inst,
        )
}

/// `t` renders an instant at least the start and strictly under the end, a
/// whole number of minutes past the start.
pub open spec fn spec_stamp_between(start: int, end: int, t: Seq<char>) -> bool {
    exists|inst: int|
        start <= inst < end && (inst - start) % 60 == 0 && t == #[trigger] stamp_text_of(inst)
}

/// Relies on chrono's `NaiveDateTime::parse_from_str` with the
/// `%Y-%m-%d %H:%M:%S` format and `timestamp`: parsing is a function of
/// the text alone.
#[verifier::external_body]
pub(crate) fn parse_datetime_secs(s: &str) -> (r: Option<i64>)
    ensures
        r == date_secs_of(s@),
{
    match chrono::NaiveDateTime::parse_from_str(s, "%Y-%m-%d %H:%M:%S") {
        Ok(dt) => Some(dt.and_utc().timestamp()),
        Err(_) => None,
    }
}

/// Relies on fake's `DateTimeBefore` for `String`: it renders the bound
/// moved back a whole number of minutes drawn from one to a million;
/// chrono represents every instant the requires admits.
#[verifier::external_body]
pub(crate) fn fake_datetime_before(ts: i64) -> (r: String)
    requires
        -MAX_BOUND_SECS <= ts <= MAX_BOUND_SECS,
    ensures
        spec_stamp_before(ts as int, r@),
{
    let dt = chrono::DateTime::from_timestamp(ts, 0).unwrap();
    DateTimeBefore(dt).fake()
}

/// Relies on fake's `DateTimeAfter` for `String`: it renders the bound
/// moved forward a whole number of minutes drawn from one to a million;
/// chrono represents every instant the requires admits.
#[verifier::external_body]
pub(crate) fn fake_datetime_after(ts: i64) -> (r: String)
    requires
        -MAX_BOUND_SECS <= ts <= MAX_BOUND_SECS,
    ensures
        spec_stamp_after(ts as int, r@),
{
    let dt = chrono::DateTime::from_timestamp(ts, 0).unwrap();
    DateTimeAfter(dt).fake()
}

/// Relies on fake's `DateTimeBetween` for `String`: it renders the start
/// moved forward a whole number of minutes drawn below the bounds' whole
/// minutes apart; that draw is over a range that is empty, and panics,
/// when the bounds lie under a minute apart.
#[verifier::external_body]
pub(crate) fn fake_datetime_between(start: i64, end: i64) -> (r: String)
    requires
        -MAX_BOUND_SECS <= start <= MAX_BOUND_SECS,
        -MAX_BOUND_SECS <= end <= MAX_BOUND_SECS,
        start + 60 <= end,
    ensures
        spec_stamp_between(start as int, end as int, r@),
{
    let s = chrono::DateTime::from_timestamp(start, 0).unwrap();
    let e = chrono::DateTime::from_timestamp(end, 0).unwrap();
    DateTimeBetween(s, e).fake()
}

/// Relies on fake's `Boolean`: the faker draws a percentage below 100 and
/// returns whether it is under the ratio, so the extremes are certain.
#[verifier::external_body]
pub(crate) fn fake_boolean(ratio: u8) -> (r: bool)
    ensures
        ratio == 0 ==> r == false,
        ratio >= 100 ==> r == true,
{
    Boolean(ratio).fake()
}

/// Relies on fake's `Password`: a password whose length is drawn from the
/// half-open range, which must be non-empty.
#[verifier::external_body]
pub(crate) fn fake_password(lo: usize, hi: usize) -> (r: String)
    requires
        lo < hi,
    ensures
        lo <= r@.len() < hi,
{
    Password(lo..hi).fake()
}

/// Relies on fake's `Sentence`: a sentence whose word count is drawn from
/// the half-open range, which must be non-empty.
#[verifier::external_body]
pub(crate) fn fake_sentence(lo: usize, hi: usize) -> String
    requires
        lo < hi,
{
    Sentence(lo..hi).fake()
}

/// Relies on fake's `Paragraph`: sentences whose count is drawn from the
/// half-open range, which must be non-empty.
#[verifier::external_body]
pub(crate) fn fake_paragraph(lo: usize, hi: usize) -> String
    requires
        lo < hi,
{
    Paragraph(lo..hi).fake()
}

/// Relies on fake's `Dummy<Faker>` for `String`: a short random
/// alphanumeric text.
#[verifier::external_body]
pub(crate) fn fake_any_string() -> String {
    Faker.fake()
}

/// Relies on fake's `Name`.
#[verifier::external_body]
pub(crate) fn fake_name() -> String {
    Name(EN).fake()
}

/// Relies on fake's `FirstName`.
#[verifier::external_body]
pub(crate) fn fake_first_name() -> String {
    FirstName(EN).fake()
}

/// Relies on fake's `LastName`.
#[verifier::external_body]
pub(crate) fn fake_last_name() -> String {
    LastName(EN).fake()
}

/// Relies on fake's `Title`.
#[verifier::external_body]
pub(crate) fn fake_title() -> String {
    Title(EN).fake()
}

/// Relies on fake's `Suffix`.
#[verifier::external_body]
pub(crate) fn fake_suffix() -> String {
    Suffix(EN).fake()
}

/// Relies on fake's `NameWithTitle`.
#[verifier::external_body]
pub(crate) fn fake_name_with_title() -> String {
    NameWithTitle(EN).fake()
}

/// Relies on fake's `CityName`.
#[verifier::external_body]
pub(crate) fn fake_city_name() -> String {
    CityName().fake()
}

/// Relies on fake's `CityPrefix`.
#[verifier::external_body]
pub(crate) fn fake_city_prefix() -> String {
    CityPrefix().fake()
}

/// Relies on fake's `CitySuffix`.
#[verifier::external_body]
pub(crate) fn fake_city_suffix() -> String {
    CitySuffix().fake()
}

/// Relies on fake's `CountryName`.
#[verifier::external_body]
pub(crate) fn fake_country_name() -> String {
    CountryName().fake()
}

/// Relies on fake's `CountryCode`.
#[verifier::external_body]
pub(crate) fn fake_country_code() -> String {
    CountryCode().fake()
}

/// Relies on fake's `StreetSuffix`.
#[verifier::external_body]
pub(crate) fn fake_street_suffix() -> String {
    StreetSuffix().fake()
}

/// Relies on fake's `StreetName`.
#[verifier::external_body]
pub(crate) fn fake_street_name() -> String {
    StreetName().fake()
}

/// Relies on fake's `StateName`.
#[verifier::external_body]
pub(crate) fn fake_state_name() -> String {
    StateName().fake()
}

/// Relies on fake's `StateAbbr`.
#[verifier::external_body]
pub(crate) fn fake_state_abbr() -> String {
    StateAbbr().fake()
}

/// Relies on fake's `SecondaryAddressType`.
#[verifier::external_body]
pub(crate) fn fake_secondary_address_type() -> String {
    SecondaryAddressType().fake()
}

/// Relies on fake's `SecondaryAddress`.
#[verifier::external_body]
pub(crate) fn fake_secondary_address() -> String {
    SecondaryAddress().fake()
}

/// Relies on fake's `ZipCode`.
#[verifier::external_body]
pub(crate) fn fake_zip_code() -> String {
    ZipCode().fake()
}

/// Relies on fake's `PostCode`.
#[verifier::external_body]
pub(crate) fn fake_post_code() -> String {
    PostCode().fake()
}

/// Relies on fake's `BuildingNumber`.
#[verifier::external_body]
pub(crate) fn fake_building_number() -> String {
    BuildingNumber().fake()
}

/// Relies on fake's `Latitude` for `String`.
#[verifier::external_body]
pub(crate) fn fake_latitude() -> String {
    Latitude().fake()
}

/// Relies on fake's `Longitude` for `String`.
#[verifier::external_body]
pub(crate) fn fake_longitude() -> String {
    Longitude().fake()
}

/// Relies on fake's `Geohash` with precision 8.
#[verifier::external_body]
pub(crate) fn fake_geohash() -> String {
    Geohash(8).fake()
}

/// Relies on fake's `Isbn`.
#[verifier::external_body]
pub(crate) fn fake_isbn() -> String {
    Isbn().fake()
}

/// Relies on fake's `Isbn10`.
#[verifier::external_body]
pub(crate) fn fake_isbn10() -> String {
    Isbn10().fake()
}

/// Relies on fake's `Isbn13`.
#[verifier::external_body]
pub(crate) fn fake_isbn13() -> String {
    Isbn13().fake()
}

/// Relies on fake's `FreeEmail`.
#[verifier::external_body]
pub(crate) fn fake_free_email() -> String {
    FreeEmail().fake()
}

/// Relies on fake's `SafeEmail`.
#[verifier::external_body]
pub(crate) fn fake_safe_email() -> String {
    SafeEmail().fake()
}

/// Relies on fake's `FreeEmailProvider`.
#[verifier::external_body]
pub(crate) fn fake_free_email_provider() -> String {
    FreeEmailProvider().fake()
}

/// Relies on fake's `DomainSuffix`.
#[verifier::external_body]
pub(crate) fn fake_domain_suffix() -> String {
    DomainSuffix().fake()
}

/// Relies on fake's `Username`.
#[verifier::external_body]
pub(crate) fn fake_username() -> String {
    Username().fake()
}

/// Relies on fake's `IPv4`.
#[verifier::external_body]
pub(crate) fn fake_ipv4() -> String {
    IPv4().fake()
}

/// Relies on fake's `IPv6`.
#[verifier::external_body]
pub(crate) fn fake_ipv6() -> String {
    IPv6().fake()
}

/// Relies on fake's `IP`.
#[verifier::external_body]
pub(crate) fn fake_ip() -> String {
    IP().fake()
}

/// Relies on fake's `MACAddress`.
#[verifier::external_body]
pub(crate) fn fake_mac_address() -> String {
    MACAddress().fake()
}

/// Relies on fake's `UserAgent`.
#[verifier::external_body]
pub(crate) fn fake_user_agent() -> String {
    UserAgent().fake()
}

/// Relies on fake's `RfcStatusCode`.
#[verifier::external_body]
pub(crate) fn fake_rfc_status_code() -> String {
    RfcStatusCode().fake()
}

/// Relies on fake's `ValidStatusCode`.
#[verifier::external_body]
pub(crate) fn fake_valid_status_code() -> String {
    ValidStatusCode().fake()
}

/// Relies on fake's `HexColor`.
#[verifier::external_body]
pub(crate) fn fake_hex_color() -> String {
    HexColor().fake()
}

/// Relies on fake's `RgbColor`.
#[verifier::external_body]
pub(crate) fn fake_rgb_color() -> String {
    RgbColor().fake()
}

/// Relies on fake's `RgbaColor`.
#[verifier::external_body]
pub(crate) fn fake_rgba_color() -> String {
    RgbaColor().fake()
}

/// Relies on fake's `HslColor`.
#[verifier::external_body]
pub(crate) fn fake_hsl_color() -> String {
    HslColor().fake()
}

/// Relies on fake's `Color`.
#[verifier::external_body]
pub(crate) fn fake_color() -> String {
    Color().fake()
}

/// Relies on fake's `CompanySuffix`.
#[verifier::external_body]
pub(crate) fn fake_company_suffix() -> String {
    CompanySuffix().fake()
}

/// Relies on fake's `CompanyName`.
#[verifier::external_body]
pub(crate) fn fake_company_name() -> String {
    CompanyName().fake()
}

/// Relies on fake's `Buzzword`.
#[verifier::external_body]
pub(crate) fn fake_buzzword() -> String {
    Buzzword().fake()
}

/// Relies on fake's `BuzzwordMiddle`.
#[verifier::external_body]
pub(crate) fn fake_buzzword_middle() -> String {
    BuzzwordMiddle().fake()
}

/// Relies on fake's `BuzzwordTail`.
#[verifier::external_body]
pub(crate) fn fake_buzzword_tail() -> String {
    BuzzwordTail().fake()
}

/// Relies on fake's `CatchPhrase`.
#[verifier::external_body]
pub(crate) fn fake_catch_phrase() -> String {
    CatchPhrase().fake()
}

/// Relies on fake's `BsVerb`.
#[verifier::external_body]
pub(crate) fn fake_bs_verb() -> String {
    BsVerb().fake()
}

/// Relies on fake's `BsAdj`.
#[verifier::external_body]
pub(crate) fn fake_bs_adj() -> String {
    BsAdj().fake()
}

/// Relies on fake's `BsNoun`.
#[verifier::external_body]
pub(crate) fn fake_bs_noun() -> String {
    BsNoun().fake()
}

/// Relies on fake's `Bs`.
#[verifier::external_body]
pub(crate) fn fake_bs() -> String {
    Bs().fake()
}

/// Relies on fake's `Profession`.
#[verifier::external_body]
pub(crate) fn fake_profession() -> String {
    Profession().fake()
}

/// Relies on fake's `Word`.
#[verifier::external_body]
pub(crate) fn fake_word() -> String {
    Word().fake()
}

/// Relies on fake's `FilePath`.
#[verifier::external_body]
pub(crate) fn fake_file_path() -> String {
    FilePath().fake()
}

/// Relies on fake's `FileName`.
#[verifier::external_body]
pub(crate) fn fake_file_name() -> String {
    FileName().fake()
}

/// Relies on fake's `FileExtension`.
#[verifier::external_body]
pub(crate) fn fake_file_extension() -> String {
    FileExtension().fake()
}

/// Relies on fake's `DirPath`.
#[verifier::external_body]
pub(crate) fn fake_dir_path() -> String {
    DirPath().fake()
}

/// Relies on fake's `PhoneNumber`.
#[verifier::external_body]
pub(crate) fn fake_phone_number() -> String {
    PhoneNumber().fake()
}

/// Relies on fake's `CellNumber`.
#[verifier::external_body]
pub(crate) fn fake_cell_number() -> String {
    CellNumber().fake()
}

/// Relies on fake's `Bic`.
#[verifier::external_body]
pub(crate) fn fake_bic() -> String {
    Bic(EN).fake()
}

/// Relies on fake's `Digit`.
#[verifier::external_body]
pub(crate) fn fake_digit() -> String {
    Digit().fake()
}

/// Relies on fake's `UUIDv1` for `String`.
#[verifier::external_body]
pub(crate) fn fake_uuid_v1() -> String {
    UUIDv1.fake()
}

/// Relies on fake's `UUIDv3` for `String`.
#[verifier::external_body]
pub(crate) fn fake_uuid_v3() -> String {
    UUIDv3.fake()
}

/// Relies on fake's `UUIDv4` for `String`.
#[verifier::external_body]
pub(crate) fn fake_uuid_v4() -> String {
    UUIDv4.fake()
}

/// Relies on fake's `UUIDv5` for `String`.
#[verifier::external_body]
pub(crate) fn fake_uuid_v5() -> String {
    UUIDv5.fake()
}

/// Relies on fake's `Time` for `String`.
#[verifier::external_body]
pub(crate) fn fake_time() -> String {
    Time().fake()
}

/// Relies on fake's `Date` for `String`.
#[verifier::external_body]
pub(crate) fn fake_date() -> String {
    Date().fake()
}

/// Relies on fake's `DateTime` for `String`.
#[verifier::external_body]
pub(crate) fn fake_datetime() -> String {
    DateTime().fake()
}

} // verus!
