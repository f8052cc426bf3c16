//! The row generator: one value per non-auto-increment field per row,
//! produced by the kind's registered generator and post-processed by the
//! verified truncation and quote-escaping pipeline.

use vstd::prelude::*;
use crate::SynthError;
use crate::config;
use crate::config::GenConfig;
use crate::config::spec_budget;
use crate::config::spec_effective_hi;
use crate::config::spec_effective_lo;
use crate::fakers;
use crate::fakers::MAX_BOUND_SECS;
use crate::fakers::date_secs_of;
use crate::fakers::stamp_text_of;
use crate::kind;
use crate::kind::FieldKind;
use crate::schema::FieldSpec;
use crate::schema::TableSpec;
use crate::schema::spec_all_resolve;
use crate::schema::spec_field_kind;
use crate::text;
use crate::text::spec_escape;
use crate::text::spec_int_chars;
use crate::text::spec_truncate;

verus! {

/// The fixed reference instant `2023-04-14 05:05:01` UTC used when a
/// before or after kind has no configured bound.
pub const DEFAULT_STAMP_BOUND_SECS: i64 = 1_681_448_701;

/// The fixed historical range start `2001-05-05 05:05:01` UTC used when
/// the between kind has no configured lower bound.
pub const DEFAULT_RANGE_START_SECS: i64 = 989_039_101;

/// The fixed range end `2023-04-14 05:05:01` UTC used when the between
/// kind has no configured upper bound.
pub const DEFAULT_RANGE_END_SECS: i64 = 1_681_448_701;

/// How a kind's value is produced and post-processed.
#[derive(Debug, Clone, Copy, PartialEq, Eq, Structural)]
pub enum GenClass {
    /// A faker text, truncated then quote-escaped.
    EscapedText,
    /// A password text with a length from the effective bounds,
    /// truncated then quote-escaped.
    PasswordText,
    /// A decimal integer drawn from the effective bounds, truncated.
    RangeInt,
    /// The text true or false, truncated.
    BoolText,
    /// A faker text, truncated, not escaped.
    PlainText,
    /// A timestamp before the configured bound, truncated.
    BeforeStamp,
    /// A timestamp after the configured bound, truncated.
    AfterStamp,
    /// A timestamp between the configured bounds, truncated.
    BetweenStamp,
    /// The auto-increment marker: no value is produced.
    AutoIncrement,
}

/// The generation class of each kind.
pub open spec fn spec_gen_class(k: FieldKind) -> GenClass {
    match k {
        FieldKind::PlainString => GenClass::EscapedText,
        FieldKind::StringInt => GenClass::RangeInt,
        FieldKind::Name => GenClass::EscapedText,
        FieldKind::City => GenClass::EscapedText,
        FieldKind::Email => GenClass::EscapedText,
        FieldKind::Password => GenClass::PasswordText,
        FieldKind::Word => GenClass::EscapedText,
        FieldKind::FirstName => GenClass::EscapedText,
        FieldKind::LastName => GenClass::EscapedText,
        FieldKind::Title => GenClass::EscapedText,
        FieldKind::Suffix => GenClass::EscapedText,
        FieldKind::NameWithTitle => GenClass::EscapedText,
        FieldKind::FreeEmailProvider => GenClass::EscapedText,
        FieldKind::DomainSuffix => GenClass::EscapedText,
        FieldKind::FreeEmail => GenClass::EscapedText,
        FieldKind::SafeEmail => GenClass::EscapedText,
        FieldKind::Username => GenClass::EscapedText,
        FieldKind::IPv4 => GenClass::EscapedText,
        FieldKind::IPv6 => GenClass::EscapedText,
        FieldKind::IP => GenClass::EscapedText,
        FieldKind::MACAddress => GenClass::EscapedText,
        FieldKind::UserAgent => GenClass::EscapedText,
        FieldKind::RfcStatusCode => GenClass::EscapedText,
        FieldKind::ValidStatusCode => GenClass::EscapedText,
        FieldKind::HexColor => GenClass::EscapedText,
        FieldKind::RgbColor => GenClass::EscapedText,
        FieldKind::RgbaColor => GenClass::EscapedText,
        FieldKind::HslColor => GenClass::EscapedText,
        FieldKind::Color => GenClass::EscapedText,
        FieldKind::CompanySuffix => GenClass::EscapedText,
        FieldKind::CompanyName => GenClass::EscapedText,
        FieldKind::Buzzword => GenClass::EscapedText,
        FieldKind::BuzzwordMiddle => GenClass::EscapedText,
        FieldKind::BuzzwordTail => GenClass::EscapedText,
        FieldKind::CatchPhase => GenClass::EscapedText,
        FieldKind::Verb => GenClass::EscapedText,
        FieldKind::Adj => GenClass::EscapedText,
        FieldKind::Noun => GenClass::EscapedText,
        FieldKind::Bs => GenClass::EscapedText,
        FieldKind::Profession => GenClass::EscapedText,
        FieldKind::Industry => GenClass::EscapedText,
        FieldKind::Geohash => GenClass::EscapedText,
        FieldKind::CityPrefix => GenClass::EscapedText,
        FieldKind::CitySuffix => GenClass::EscapedText,
        FieldKind::CityName => GenClass::EscapedText,
        FieldKind::CountryName => GenClass::EscapedText,
        FieldKind::CountryCode => GenClass::EscapedText,
        FieldKind::StreetSuffix => GenClass::EscapedText,
        FieldKind::StreetName => GenClass::EscapedText,
        FieldKind::FilePath => GenClass::EscapedText,
        FieldKind::FileName => GenClass::EscapedText,
        FieldKind::FileExtension => GenClass::EscapedText,
        FieldKind::DirPath => GenClass::EscapedText,
        FieldKind::StateName => GenClass::EscapedText,
        FieldKind::StateAbbr => GenClass::EscapedText,
        FieldKind::SecondaryAddressType => GenClass::EscapedText,
        FieldKind::SecondaryAddress => GenClass::EscapedText,
        FieldKind::PostCode => GenClass::EscapedText,
        FieldKind::BuildingNumber => GenClass::EscapedText,
        FieldKind::LicencePlate => GenClass::EscapedText,
        FieldKind::Isbn => GenClass::EscapedText,
        FieldKind::Isbn13 => GenClass::EscapedText,
        FieldKind::Isbn10 => GenClass::EscapedText,
        FieldKind::PhoneNumber => GenClass::EscapedText,
        FieldKind::CellNumber => GenClass::EscapedText,
        FieldKind::Bic => GenClass::EscapedText,
        FieldKind::UUIDv1 => GenClass::EscapedText,
        FieldKind::UUIDv3 => GenClass::EscapedText,
        FieldKind::UUIDv4 => GenClass::EscapedText,
        FieldKind::UUIDv5 => GenClass::EscapedText,
        FieldKind::Product => GenClass::EscapedText,
        FieldKind::Latitude => GenClass::PlainText,
        FieldKind::Longitude => GenClass::PlainText,
        FieldKind::Bool => GenClass::BoolText,
        FieldKind::Sentence => GenClass::EscapedText,
        FieldKind::Sentences => GenClass::EscapedText,
        FieldKind::Words => GenClass::EscapedText,
        FieldKind::Paragraph => GenClass::EscapedText,
        FieldKind::Paragraphs => GenClass::EscapedText,
        FieldKind::Int => GenClass::RangeInt,
        FieldKind::Digit => GenClass::PlainText,
        FieldKind::ZipCode => GenClass::PlainText,
        FieldKind::Serial => GenClass::AutoIncrement,
        FieldKind::Float => GenClass::RangeInt,
        FieldKind::Bigint => GenClass::RangeInt,
        FieldKind::Time => GenClass::PlainText,
        FieldKind::Date => GenClass::PlainText,
        FieldKind::DateTime => GenClass::PlainText,
        FieldKind::DateTimeBefore => GenClass::BeforeStamp,
        FieldKind::DateTimeAfter => GenClass::AfterStamp,
        FieldKind::DateTimeBetween => GenClass::BetweenStamp,
    }
}

/// Maps a kind to its generation class.
pub fn gen_class(k: FieldKind) -> (c: GenClass)
    ensures
        c == spec_gen_class(k),
{
    match k {
        FieldKind::PlainString => GenClass::EscapedText,
        FieldKind::StringInt => GenClass::RangeInt,
        FieldKind::Name => GenClass::EscapedText,
        FieldKind::City => GenClass::EscapedText,
        FieldKind::Email => GenClass::EscapedText,
        FieldKind::Password => GenClass::PasswordText,
        FieldKind::Word => GenClass::EscapedText,
        FieldKind::FirstName => GenClass::EscapedText,
        FieldKind::LastName => GenClass::EscapedText,
        FieldKind::Title => GenClass::EscapedText,
        FieldKind::Suffix => GenClass::EscapedText,
        FieldKind::NameWithTitle => GenClass::EscapedText,
        FieldKind::FreeEmailProvider => GenClass::EscapedText,
        FieldKind::DomainSuffix => GenClass::EscapedText,
        FieldKind::FreeEmail => GenClass::EscapedText,
        FieldKind::SafeEmail => GenClass::EscapedText,
        FieldKind::Username => GenClass::EscapedText,
        FieldKind::IPv4 => GenClass::EscapedText,
        FieldKind::IPv6 => GenClass::EscapedText,
        FieldKind::IP => GenClass::EscapedText,
        FieldKind::MACAddress => GenClass::EscapedText,
        FieldKind::UserAgent => GenClass::EscapedText,
        FieldKind::RfcStatusCode => GenClass::EscapedText,
        FieldKind::ValidStatusCode => GenClass::EscapedText,
        FieldKind::HexColor => GenClass::EscapedText,
        FieldKind::RgbColor => GenClass::EscapedText,
        FieldKind::RgbaColor => GenClass::EscapedText,
        FieldKind::HslColor => GenClass::EscapedText,
        FieldKind::Color => GenClass::EscapedText,
        FieldKind::CompanySuffix => GenClass::EscapedText,
        FieldKind::CompanyName => GenClass::EscapedText,
        FieldKind::Buzzword => GenClass::EscapedText,
        FieldKind::BuzzwordMiddle => GenClass::EscapedText,
        FieldKind::BuzzwordTail => GenClass::EscapedText,
        FieldKind::CatchPhase => GenClass::EscapedText,
        FieldKind::Verb => GenClass::EscapedText,
        FieldKind::Adj => GenClass::EscapedText,
        FieldKind::Noun => GenClass::EscapedText,
        FieldKind::Bs => GenClass::EscapedText,
        FieldKind::Profession => GenClass::EscapedText,
        FieldKind::Industry => GenClass::EscapedText,
        FieldKind::Geohash => GenClass::EscapedText,
        FieldKind::CityPrefix => GenClass::EscapedText,
        FieldKind::CitySuffix => GenClass::EscapedText,
        FieldKind::CityName => GenClass::EscapedText,
        FieldKind::CountryName => GenClass::EscapedText,
        FieldKind::CountryCode => GenClass::EscapedText,
        FieldKind::StreetSuffix => GenClass::EscapedText,
        FieldKind::StreetName => GenClass::EscapedText,
        FieldKind::FilePath => GenClass::EscapedText,
        FieldKind::FileName => GenClass::EscapedText,
        FieldKind::FileExtension => GenClass::EscapedText,
        FieldKind::DirPath => GenClass::EscapedText,
        FieldKind::StateName => GenClass::EscapedText,
        FieldKind::StateAbbr => GenClass::EscapedText,
        FieldKind::SecondaryAddressType => GenClass::EscapedText,
        FieldKind::SecondaryAddress => GenClass::EscapedText,
        FieldKind::PostCode => GenClass::EscapedText,
        FieldKind::BuildingNumber => GenClass::EscapedText,
        FieldKind::LicencePlate => GenClass::EscapedText,
        FieldKind::Isbn => GenClass::EscapedText,
        FieldKind::Isbn13 => GenClass::EscapedText,
        FieldKind::Isbn10 => GenClass::EscapedText,
        FieldKind::PhoneNumber => GenClass::EscapedText,
        FieldKind::CellNumber => GenClass::EscapedText,
        FieldKind::Bic => GenClass::EscapedText,
        FieldKind::UUIDv1 => GenClass::EscapedText,
        FieldKind::UUIDv3 => GenClass::EscapedText,
        FieldKind::UUIDv4 => GenClass::EscapedText,
        FieldKind::UUIDv5 => GenClass::EscapedText,
        FieldKind::Product => GenClass::EscapedText,
        FieldKind::Latitude => GenClass::PlainText,
        FieldKind::Longitude => GenClass::PlainText,
        FieldKind::Bool => GenClass::BoolText,
        FieldKind::Sentence => GenClass::EscapedText,
        FieldKind::Sentences => GenClass::EscapedText,
        FieldKind::Words => GenClass::EscapedText,
        FieldKind::Paragraph => GenClass::EscapedText,
        FieldKind::Paragraphs => GenClass::EscapedText,
        FieldKind::Int => GenClass::RangeInt,
        FieldKind::Digit => GenClass::PlainText,
        FieldKind::ZipCode => GenClass::PlainText,
        FieldKind::Serial => GenClass::AutoIncrement,
        FieldKind::Float => GenClass::RangeInt,
        FieldKind::Bigint => GenClass::RangeInt,
        FieldKind::Time => GenClass::PlainText,
        FieldKind::Date => GenClass::PlainText,
        FieldKind::DateTime => GenClass::PlainText,
        FieldKind::DateTimeBefore => GenClass::BeforeStamp,
        FieldKind::DateTimeAfter => GenClass::AfterStamp,
        FieldKind::DateTimeBetween => GenClass::BetweenStamp,
    }
}

/// `x` floored at zero, as a length.
pub open spec fn spec_clamp(x: int) -> nat {
    if x < 0 {
        0
    } else {
        x as nat
    }
}

/// The configured ratio, default 50.
pub open spec fn spec_ratio_or_default(c: GenConfig) -> int {
    match c.ratio {
        Some(v) => v as int,
        None => 50,
    }
}

/// The usable boundary instant: the configured text's parse when present
/// and in range, the default otherwise; none when the text does not parse
/// or the instant is out of range.
pub open spec fn spec_bound_secs(o: Option<String>, d: i64) -> Option<i64> {
    match o {
        None => Some(d),
        Some(s) => match date_secs_of(s@) {
            Some(ts) => if -MAX_BOUND_SECS <= ts <= MAX_BOUND_SECS {
                Some(ts)
            } else {
                None
            },
            None => None,
        },
    }
}

/// The usable boundary instant as a plain integer; meaningful only when
/// the boundary is usable.
pub open spec fn spec_bound_val(o: Option<String>, d: i64) -> int {
    spec_bound_secs(o, d).unwrap() as int
}

/// Whether the kind's date configuration is usable: vacuously true for
/// every kind without a date boundary.
pub open spec fn spec_date_ok(k: FieldKind, c: GenConfig) -> bool {
    match spec_gen_class(k) {
        GenClass::BeforeStamp => spec_bound_secs(c.date, DEFAULT_STAMP_BOUND_SECS) is Some,
        GenClass::AfterStamp => spec_bound_secs(c.date, DEFAULT_STAMP_BOUND_SECS) is Some,
        GenClass::BetweenStamp => {
            let s = spec_bound_secs(c.date, DEFAULT_RANGE_START_SECS);
            let e = spec_bound_secs(c.date_end, DEFAULT_RANGE_END_SECS);
            match (s, e) {
                (Some(sv), Some(ev)) => sv + 60 <= ev,
                _ => false,
            }
        },
        _ => true,
    }
}

/// What a generated value of kind `k` under config `c` looks like: the
/// escaped kinds are a quote-escaping of a truncated raw text, the ranged
/// integer kinds render an integer within the effective bounds, the
/// boolean kind renders true or false with certain extremes, the
/// timestamp kinds render an instant a whole number of minutes on the
/// right side of their boundary, and the rest are faker texts cut to the
/// budget.
pub open spec fn spec_value_ok(k: FieldKind, c: GenConfig, v: Seq<char>) -> bool {
    match spec_gen_class(k) {
        GenClass::EscapedText => exists|raw: Seq<char>|
            v == spec_escape(spec_truncate(raw, spec_budget(c, k))),
        GenClass::PasswordText => exists|raw: Seq<char>|
            spec_clamp(spec_effective_lo(c, k)) <= raw.len() <= spec_clamp(
                spec_effective_hi(c, k),
            ) && v == spec_escape(spec_truncate(raw, spec_budget(c, k))),
        GenClass::RangeInt => exists|n: int|
            spec_effective_lo(c, k) <= n <= spec_effective_hi(c, k) && v == spec_truncate(
                spec_int_chars(n),
                spec_budget(c, k),
            ),
        GenClass::BoolText => {
            let rt = spec_ratio_or_default(c);
            &&& (v == spec_truncate("true"@, spec_budget(c, k)) || v == spec_truncate(
                "false"@,
                spec_budget(c, k),
            ))
            &&& (rt == 0 ==> v == spec_truncate("false"@, spec_budget(c, k)))
            &&& (rt >= 100 ==> v == spec_truncate("true"@, spec_budget(c, k)))
        },
        GenClass::PlainText => v.len() <= spec_budget(c, k),
        GenClass::BeforeStamp => {
            let bound = spec_bound_val(c.date, DEFAULT_STAMP_BOUND_SECS);
            exists|inst: int|
                bound - 60_000_000 < inst < bound && (bound - inst) % 60 == 0 && v
                    == spec_truncate(#[trigger] stamp_text_of(inst), spec_budget(c, k))
        },
        GenClass::AfterStamp => {
            let bound = spec_bound_val(c.date, DEFAULT_STAMP_BOUND_SECS);
            exists|inst: int|
                bound < inst < bound + 60_000_000 && (inst - bound) % 60 == 0 && v
                    == spec_truncate(#[trigger] stamp_text_of(inst), spec_budget(c, k))
        },
        GenClass::BetweenStamp => {
            let s0 = spec_bound_val(c.date, DEFAULT_RANGE_START_SECS);
            let e0 = spec_bound_val(c.date_end, DEFAULT_RANGE_END_SECS);
            exists|inst: int|
                s0 <= inst < e0 && (inst - s0) % 60 == 0 && v == spec_truncate(
                    #[trigger] stamp_text_of(inst),
                    spec_budget(c, k),
                )
        },
        GenClass::AutoIncrement => false,
    }
}

/// `x` floored at zero.
fn clamp_usize(x: i32) -> (r: usize)
    ensures
        r as nat == spec_clamp(x as int),
        r <= 0x7fff_ffff,
{
    if x < 0 {
        0
    } else {
        x as usize
    }
}

/// The effective bounds of `c` as a non-empty half-open length range.
fn nonempty_usize_range(c: &GenConfig, k: FieldKind) -> (r: (usize, usize))
    ensures
        r.0 < r.1,
        r.0 as nat == spec_clamp(spec_effective_lo(*c, k)),
        r.1 as nat <= spec_clamp(spec_effective_hi(*c, k)) + 1,
        r.1 as nat >= spec_clamp(spec_effective_hi(*c, k)),
{
    let (lo, hi) = config::effective_bounds(c, k);
    let ulo = clamp_usize(lo);
    let uhi = clamp_usize(hi);
    if ulo < uhi {
        (ulo, uhi)
    } else {
        (ulo, ulo + 1)
    }
}

/// Truncates `raw` to the budget and doubles its quotes.
fn post_escaped(raw: &String, c: &GenConfig, k: FieldKind) -> (s: String)
    ensures
        s@ == spec_escape(spec_truncate(raw@, spec_budget(*c, k))),
{
    let chars = text::str_chars(raw.as_str());
    let b = config::budget(c, k);
    let t = text::truncate_chars(&chars, b);
    let e = text::escape_quotes(&t);
    text::chars_to_string(&e)
}

/// Truncates `raw` to the budget, without escaping.
fn post_plain(raw: &String, c: &GenConfig, k: FieldKind) -> (s: String)
    ensures
        s@ == spec_truncate(raw@, spec_budget(*c, k)),
        s@.len() <= spec_budget(*c, k),
{
    let chars = text::str_chars(raw.as_str());
    let b = config::budget(c, k);
    let t = text::truncate_chars(&chars, b);
    text::chars_to_string(&t)
}

/// Whether `v` is the rendering of the UTC instant at `secs`, as the
/// timestamp kinds render their instants.
pub fn renders_instant(v: &str, secs: i64) -> (r: bool)
    requires
        -MAX_BOUND_SECS <= secs <= MAX_BOUND_SECS,
    ensures
        r == (v@ == stamp_text_of(secs as int)),
{
    let t = fakers::render_stamp(secs);
    kind::str_eq(v, t.as_str())
}

/// The usable boundary instant of a date-bounded kind, or the malformed
/// date failure.
fn resolve_bound(o: &Option<String>, d: i64) -> (r: Result<i64, SynthError>)
    requires
        -MAX_BOUND_SECS <= d <= MAX_BOUND_SECS,
    ensures
        match spec_bound_secs(*o, d) {
            Some(ts) => r == Ok::<i64, SynthError>(ts) && -MAX_BOUND_SECS <= ts <= MAX_BOUND_SECS,
            None => r == Err::<i64, SynthError>(SynthError::MalformedDateConfig),
        },
{
    match o {
        None => Ok(d),
        Some(s) => match fakers::parse_datetime_secs(s.as_str()) {
            Some(ts) => {
                if -MAX_BOUND_SECS <= ts && ts <= MAX_BOUND_SECS {
                    Ok(ts)
                } else {
                    Err(SynthError::MalformedDateConfig)
                }
            },
            None => Err(SynthError::MalformedDateConfig),
        },
    }
}

/// Random words joined with a comma, as many as the configured maximum
/// (default 25).
fn words_source_text(c: &GenConfig) -> String {
    let b: i32 = match c.max_length {
        Some(v) => v,
        None => 25,
    };
    let n: usize = if b <= 0 {
        0
    } else {
        b as usize
    };
    let mut s = String::new();
    let mut i: usize = 0;
    while i < n
        invariant
            i <= n,
        decreases n - i,
    {
        let w = fakers::fake_word();
        s.append(w.as_str());
        if i + 1 < n {
            s.append(", ");
        }
        i += 1;
    }
    s
}

/// The raw faker text of an escaped-text kind, before truncation and
/// escaping. The text is random; everything the caller relies on is
/// established by the verified post-processing.
fn escaped_source_text(k: FieldKind, c: &GenConfig) -> String
    requires
        spec_gen_class(k) == GenClass::EscapedText,
{
    match k {
        FieldKind::PlainString => fakers::fake_any_string(),
        FieldKind::Name => fakers::fake_name(),
        FieldKind::City => fakers::fake_city_name(),
        FieldKind::Email => fakers::fake_free_email(),
        FieldKind::Word => fakers::fake_word(),
        FieldKind::FirstName => fakers::fake_first_name(),
        FieldKind::LastName => fakers::fake_last_name(),
        FieldKind::Title => fakers::fake_title(),
        FieldKind::Suffix => fakers::fake_suffix(),
        FieldKind::NameWithTitle => fakers::fake_name_with_title(),
        FieldKind::FreeEmailProvider => fakers::fake_free_email_provider(),
        FieldKind::DomainSuffix => fakers::fake_domain_suffix(),
        FieldKind::FreeEmail => fakers::fake_free_email(),
        FieldKind::SafeEmail => fakers::fake_safe_email(),
        FieldKind::Username => fakers::fake_username(),
        FieldKind::IPv4 => fakers::fake_ipv4(),
        FieldKind::IPv6 => fakers::fake_ipv6(),
        FieldKind::IP => fakers::fake_ip(),
        FieldKind::MACAddress => fakers::fake_mac_address(),
        FieldKind::UserAgent => fakers::fake_user_agent(),
        FieldKind::RfcStatusCode => fakers::fake_rfc_status_code(),
        FieldKind::ValidStatusCode => fakers::fake_valid_status_code(),
        FieldKind::HexColor => fakers::fake_hex_color(),
        FieldKind::RgbColor => fakers::fake_rgb_color(),
        FieldKind::RgbaColor => fakers::fake_rgba_color(),
        FieldKind::HslColor => fakers::fake_hsl_color(),
        FieldKind::Color => fakers::fake_color(),
        FieldKind::CompanySuffix => fakers::fake_company_suffix(),
        FieldKind::CompanyName => fakers::fake_company_name(),
        FieldKind::Buzzword => fakers::fake_buzzword(),
        FieldKind::BuzzwordMiddle => fakers::fake_buzzword_middle(),
        FieldKind::BuzzwordTail => fakers::fake_buzzword_tail(),
        FieldKind::CatchPhase => fakers::fake_catch_phrase(),
        FieldKind::Verb => fakers::fake_bs_verb(),
        FieldKind::Adj => fakers::fake_bs_adj(),
        FieldKind::Noun => fakers::fake_bs_noun(),
        FieldKind::Bs => fakers::fake_bs(),
        FieldKind::Profession => fakers::fake_profession(),
        FieldKind::Industry => fakers::fake_catch_phrase(),
        FieldKind::Geohash => fakers::fake_geohash(),
        FieldKind::CityPrefix => fakers::fake_city_prefix(),
        FieldKind::CitySuffix => fakers::fake_city_suffix(),
        FieldKind::CityName => fakers::fake_city_name(),
        FieldKind::CountryName => fakers::fake_country_name(),
        FieldKind::CountryCode => fakers::fake_country_code(),
        FieldKind::StreetSuffix => fakers::fake_street_suffix(),
        FieldKind::StreetName => fakers::fake_street_name(),
        FieldKind::FilePath => fakers::fake_file_path(),
        FieldKind::FileName => fakers::fake_file_name(),
        FieldKind::FileExtension => fakers::fake_file_extension(),
        FieldKind::DirPath => fakers::fake_dir_path(),
        FieldKind::StateName => fakers::fake_state_name(),
        FieldKind::StateAbbr => fakers::fake_state_abbr(),
        FieldKind::SecondaryAddressType => fakers::fake_secondary_address_type(),
        FieldKind::SecondaryAddress => fakers::fake_secondary_address(),
        FieldKind::PostCode => fakers::fake_post_code(),
        FieldKind::BuildingNumber => fakers::fake_building_number(),
        FieldKind::Isbn => fakers::fake_isbn(),
        FieldKind::Isbn13 => fakers::fake_isbn13(),
        FieldKind::Isbn10 => fakers::fake_isbn10(),
        FieldKind::PhoneNumber => fakers::fake_phone_number(),
        FieldKind::CellNumber => fakers::fake_cell_number(),
        FieldKind::Bic => fakers::fake_bic(),
        FieldKind::UUIDv1 => fakers::fake_uuid_v1(),
        FieldKind::UUIDv3 => fakers::fake_uuid_v3(),
        FieldKind::UUIDv4 => fakers::fake_uuid_v4(),
        FieldKind::UUIDv5 => fakers::fake_uuid_v5(),
        FieldKind::LicencePlate => String::from_str("MH26RB5501"),
        FieldKind::Product => {
            let mut s = fakers::fake_bs_adj();
            s.append(" ");
            let noun = fakers::fake_bs_noun();
            s.append(noun.as_str());
            s
        },
        FieldKind::Words => words_source_text(c),
        FieldKind::Sentence | FieldKind::Sentences => {
            let (lo, hi) = nonempty_usize_range(c, k);
            fakers::fake_sentence(lo, hi)
        },
        FieldKind::Paragraph | FieldKind::Paragraphs => {
            let (lo, hi) = nonempty_usize_range(c, k);
            fakers::fake_paragraph(lo, hi)
        },
        _ => {
            proof {
                assert(false);
            }
            String::new()
        },
    }
}

/// The raw faker text of a plain-text kind; truncated by the caller, not
/// escaped.
fn plain_source_text(k: FieldKind) -> String
    requires
        spec_gen_class(k) == GenClass::PlainText,
{
    match k {
        FieldKind::Digit => fakers::fake_digit(),
        FieldKind::ZipCode => fakers::fake_zip_code(),
        FieldKind::Time => fakers::fake_time(),
        FieldKind::Date => fakers::fake_date(),
        FieldKind::DateTime => fakers::fake_datetime(),
        FieldKind::Latitude => fakers::fake_latitude(),
        FieldKind::Longitude => fakers::fake_longitude(),
        _ => {
            proof {
                assert(false);
            }
            String::new()
        },
    }
}

/// Generates one value of kind `k` under config `c`.
///
/// Succeeds exactly when the kind's date configuration is usable, which
/// holds vacuously for every kind without a date boundary; the value then
/// satisfies the kind's shape contract.
pub fn generate_value(k: FieldKind, c: &GenConfig) -> (r: Result<String, SynthError>)
    requires
        spec_gen_class(k) != GenClass::AutoIncrement,
    ensures
        r is Ok <==> spec_date_ok(k, *c),
        r is Err ==> r == Err::<String, SynthError>(SynthError::MalformedDateConfig),
        r matches Ok(v) ==> spec_value_ok(k, *c, v@),
{
    match gen_class(k) {
        GenClass::EscapedText => {
            let raw = escaped_source_text(k, c);
            let v = post_escaped(&raw, c, k);
            proof {
                assert(spec_value_ok(k, *c, v@)) by {
                    assert(v@ == spec_escape(spec_truncate(raw@, spec_budget(*c, k))));
                }
            }
            Ok(v)
        },
        GenClass::PasswordText => {
            let (ulo, uhi) = nonempty_usize_range(c, k);
            let raw = fakers::fake_password(ulo, uhi);
            let v = post_escaped(&raw, c, k);
            proof {
                assert(spec_clamp(spec_effective_lo(*c, k)) <= raw@.len() <= spec_clamp(
                    spec_effective_hi(*c, k),
                ));
                assert(spec_value_ok(k, *c, v@)) by {
                    assert(spec_clamp(spec_effective_lo(*c, k)) <= raw@.len() <= spec_clamp(
                        spec_effective_hi(*c, k),
                    ) && v@ == spec_escape(spec_truncate(raw@, spec_budget(*c, k))));
                }
            }
            Ok(v)
        },
        GenClass::RangeInt => {
            let (lo, hi) = config::effective_bounds(c, k);
            let n = fakers::random_i32_in(lo, hi);
            let digits = text::i64_chars(n as i64);
            let b = config::budget(c, k);
            let t = text::truncate_chars(&digits, b);
            let v = text::chars_to_string(&t);
            proof {
                assert(spec_value_ok(k, *c, v@)) by {
                    assert(spec_effective_lo(*c, k) <= n as int <= spec_effective_hi(*c, k)
                        && v@ == spec_truncate(spec_int_chars(n as int), spec_budget(*c, k)));
                }
            }
            Ok(v)
        },
        GenClass::BoolText => {
            let rt: u8 = match c.ratio {
                Some(v) => v,
                None => 50,
            };
            let bl = fakers::fake_boolean(rt);
            let raw = if bl {
                String::from_str("true")
            } else {
                String::from_str("false")
            };
            let v = post_plain(&raw, c, k);
            Ok(v)
        },
        GenClass::PlainText => {
            let raw = plain_source_text(k);
            let v = post_plain(&raw, c, k);
            Ok(v)
        },
        GenClass::BeforeStamp => {
            let ts = match resolve_bound(&c.date, DEFAULT_STAMP_BOUND_SECS) {
                Ok(v) => v,
                Err(e) => {
                    return Err(e);
                },
            };
            let raw = fakers::fake_datetime_before(ts);
            let v = post_plain(&raw, c, k);
            proof {
                let inst = choose|inst: int|
                    ts - 60_000_000 < inst < ts && (ts - inst) % 60 == 0 && raw@
                        == #[trigger] stamp_text_of(inst);
                assert(spec_bound_val(c.date, DEFAULT_STAMP_BOUND_SECS) == ts as int);
                assert(v@ == spec_truncate(stamp_text_of(inst), spec_budget(*c, k)));
                assert(spec_value_ok(k, *c, v@));
            }
            Ok(v)
        },
        GenClass::AfterStamp => {
            let ts = match resolve_bound(&c.date, DEFAULT_STAMP_BOUND_SECS) {
                Ok(v) => v,
                Err(e) => {
                    return Err(e);
                },
            };
            let raw = fakers::fake_datetime_after(ts);
            let v = post_plain(&raw, c, k);
            proof {
                let inst = choose|inst: int|
                    ts < inst < ts + 60_000_000 && (inst - ts) % 60 == 0 && raw@
                        == #[trigger] stamp_text_of(inst);
                assert(spec_bound_val(c.date, DEFAULT_STAMP_BOUND_SECS) == ts as int);
                assert(v@ == spec_truncate(stamp_text_of(inst), spec_budget(*c, k)));
                assert(spec_value_ok(k, *c, v@));
            }
            Ok(v)
        },
        GenClass::BetweenStamp => {
            let s_ts = match resolve_bound(&c.date, DEFAULT_RANGE_START_SECS) {
                Ok(v) => v,
                Err(e) => {
                    return Err(e);
                },
            };
            let e_ts = match resolve_bound(&c.date_end, DEFAULT_RANGE_END_SECS) {
                Ok(v) => v,
                Err(e) => {
                    return Err(e);
                },
            };
            if !(s_ts + 60 <= e_ts) {
                return Err(SynthError::MalformedDateConfig);
            }
            let raw = fakers::fake_datetime_between(s_ts, e_ts);
            let v = post_plain(&raw, c, k);
            proof {
                let inst = choose|inst: int|
                    s_ts <= inst < e_ts && (inst - s_ts) % 60 == 0 && raw@
                        == #[trigger] stamp_text_of(inst);
                assert(spec_bound_val(c.date, DEFAULT_RANGE_START_SECS) == s_ts as int);
                assert(spec_bound_val(c.date_end, DEFAULT_RANGE_END_SECS) == e_ts as int);
                assert(v@ == spec_truncate(stamp_text_of(inst), spec_budget(*c, k)));
                assert(spec_value_ok(k, *c, v@));
            }
            Ok(v)
        },
        GenClass::AutoIncrement => {
            proof {
                assert(false);
            }
            Err(SynthError::MalformedDateConfig)
        },
    }
}

/// The fields a row carries a value for: every field whose kind is not the
/// auto-increment marker, in declaration order.
pub open spec fn spec_gen_fields(fs: Seq<FieldSpec>) -> Seq<FieldSpec>
    decreases fs.len(),
{
    if fs.len() == 0 {
        Seq::empty()
    } else if spec_field_kind(fs.last()) == Some(FieldKind::Serial) {
        spec_gen_fields(fs.drop_last())
    } else {
        spec_gen_fields(fs.drop_last()).push(fs.last())
    }
}

/// Every date-bounded field's configuration is usable.
pub open spec fn spec_dates_ok(fields: Seq<FieldSpec>) -> bool {
    forall|i: int|
        0 <= i < fields.len() ==> #[trigger] spec_date_ok(
            spec_field_kind(fields[i]).unwrap(),
            fields[i].config,
        )
}

/// The row has one value per non-auto-increment field, each satisfying its
/// field's shape contract.
pub open spec fn spec_row_ok(fields: Seq<FieldSpec>, row: Seq<Seq<char>>) -> bool {
    let gf = spec_gen_fields(fields);
    &&& row.len() == gf.len()
    &&& forall|j: int|
        0 <= j < gf.len() ==> spec_value_ok(
            spec_field_kind(#[trigger] gf[j]).unwrap(),
            gf[j].config,
            row[j],
        )
}

/// Generates one row for `fields`: one value per non-auto-increment field,
/// in declaration order. Succeeds exactly when every date-bounded field's
/// configuration is usable.
pub fn generate_row(fields: &Vec<FieldSpec>) -> (r: Result<Vec<String>, SynthError>)
    requires
        spec_all_resolve(fields@),
    ensures
        r is Ok <==> spec_dates_ok(fields@),
        r is Err ==> r == Err::<Vec<String>, SynthError>(SynthError::MalformedDateConfig),
        r matches Ok(row) ==> spec_row_ok(fields@, row.deep_view()),
{
    let n = fields.len();
    let mut row: Vec<String> = Vec::new();
    let mut i: usize = 0;
    while i < n
        invariant
            i <= n,
            n == fields@.len(),
            spec_all_resolve(fields@),
            forall|j: int|
                0 <= j < i ==> #[trigger] spec_date_ok(
                    spec_field_kind(fields@[j]).unwrap(),
                    fields@[j].config,
                ),
            spec_row_ok(fields@.take(i as int), row.deep_view()),
        decreases n - i,
    {
        let f = &fields[i];
        assert(spec_field_kind(fields@[i as int]) is Some);
        let k = match kind::resolve(f.kind.as_str()) {
            Ok(k) => k,
            Err(e) => {
                proof {
                    assert(false);
                }
                return Err(SynthError::MalformedDateConfig);
            },
        };
        let auto = kind::is_auto_increment(k);
        proof {
            assert(spec_gen_class(k) == GenClass::AutoIncrement <==> k is Serial);
        }
        let ghost old_dv = row.deep_view();
        if !auto {
            let v = match generate_value(k, &f.config) {
                Ok(v) => v,
                Err(e) => {
                    proof {
                        assert(!spec_date_ok(
                            spec_field_kind(fields@[i as int]).unwrap(),
                            fields@[i as int].config,
                        ));
                    }
                    return Err(e);
                },
            };
            row.push(v);
            proof {
                assert(row.deep_view() =~= old_dv.push(v@));
            }
        }
        proof {
            let pre = fields@.take(i as int);
            let cur = fields@.take(i + 1 as int);
            assert(cur.drop_last() =~= pre);
            assert(cur.last() == fields@[i as int]);
            let gp = spec_gen_fields(pre);
            let gc = spec_gen_fields(cur);
            if auto {
                assert(gc == gp);
                assert(spec_row_ok(cur, row.deep_view()));
            } else {
                assert(gc == gp.push(fields@[i as int]));
                let dv = row.deep_view();
                assert(dv.len() == gc.len());
                assert forall|j: int| 0 <= j < gc.len() implies spec_value_ok(
                    spec_field_kind(#[trigger] gc[j]).unwrap(),
                    gc[j].config,
                    dv[j],
                ) by {
                    if j < gp.len() {
                        assert(gc[j] == gp[j]);
                        assert(dv[j] == old_dv[j]);
                    } else {
                        assert(gc[j] == fields@[i as int]);
                    }
                }
                assert(spec_row_ok(cur, row.deep_view()));
            }
        }
        i += 1;
    }
    proof {
        assert(fields@.take(n as int) =~= fields@);
    }
    Ok(row)
}

/// Generates the declared number of rows for `t`.
///
/// Fails with `UnsupportedFieldKind`, before any row is produced, exactly
/// when some field's kind name does not resolve; fails with
/// `MalformedDateConfig` exactly when rows are owed and some date-bounded
/// field's configuration is unusable.
pub fn generate_rows(t: &TableSpec) -> (r: Result<Vec<Vec<String>>, SynthError>)
    ensures
        !spec_all_resolve(t.fields@) ==> r == Err::<Vec<Vec<String>>, SynthError>(
            SynthError::UnsupportedFieldKind,
        ),
        spec_all_resolve(t.fields@) && t.row_count > 0 && !spec_dates_ok(t.fields@) ==> r
            == Err::<Vec<Vec<String>>, SynthError>(SynthError::MalformedDateConfig),
        spec_all_resolve(t.fields@) && (t.row_count == 0 || spec_dates_ok(t.fields@)) ==> r is Ok,
        r matches Ok(rows) ==> rows@.len() == t.row_count && forall|i: int|
            0 <= i < rows@.len() ==> spec_row_ok(t.fields@, #[trigger] rows@[i].deep_view()),
{
    let n = t.fields.len();
    let mut i: usize = 0;
    while i < n
        invariant
            i <= n,
            n == t.fields@.len(),
            forall|j: int| 0 <= j < i ==> #[trigger] spec_field_kind(t.fields@[j]) is Some,
        decreases n - i,
    {
        match kind::resolve(t.fields[i].kind.as_str()) {
            Ok(_) => {},
            Err(e) => {
                proof {
                    assert(spec_field_kind(t.fields@[i as int]) is None);
                    assert(!spec_all_resolve(t.fields@));
                }
                return Err(e);
            },
        }
        i += 1;
    }
    assert(spec_all_resolve(t.fields@));
    let mut rows: Vec<Vec<String>> = Vec::new();
    let mut done: usize = 0;
    while done < t.row_count
        invariant
            done <= t.row_count,
            spec_all_resolve(t.fields@),
            rows@.len() == done,
            done > 0 ==> spec_dates_ok(t.fields@),
            forall|i: int|
                0 <= i < rows@.len() ==> spec_row_ok(t.fields@, #[trigger] rows@[i].deep_view()),
        decreases t.row_count - done,
    {
        let row = match generate_row(&t.fields) {
            Ok(row) => row,
            Err(e) => {
                return Err(e);
            },
        };
        rows.push(row);
        done += 1;
    }
    Ok(rows)
}

/// A value of an escaped textual kind contains no unescaped quote.
pub proof fn lemma_textual_value_escaped(k: FieldKind, c: GenConfig, v: Seq<char>)
    requires
        spec_gen_class(k) == GenClass::EscapedText || spec_gen_class(k) == GenClass::PasswordText,
        spec_value_ok(k, c, v),
    ensures
        text::quotes_escaped(v),
{
    if spec_gen_class(k) == GenClass::EscapedText {
        let raw = choose|raw: Seq<char>| v == spec_escape(spec_truncate(raw, spec_budget(c, k)));
        text::lemma_escape_escaped(spec_truncate(raw, spec_budget(c, k)));
    } else {
        let raw = choose|raw: Seq<char>|
            spec_clamp(spec_effective_lo(c, k)) <= raw.len() <= spec_clamp(
                spec_effective_hi(c, k),
            ) && v == spec_escape(spec_truncate(raw, spec_budget(c, k)));
        text::lemma_escape_escaped(spec_truncate(raw, spec_budget(c, k)));
    }
}

/// A value of an unescaped kind never exceeds its truncation budget.
pub proof fn lemma_plain_value_within_budget(k: FieldKind, c: GenConfig, v: Seq<char>)
    requires
        spec_value_ok(k, c, v),
        spec_gen_class(k) != GenClass::EscapedText,
        spec_gen_class(k) != GenClass::PasswordText,
        spec_gen_class(k) != GenClass::AutoIncrement,
    ensures
        v.len() <= spec_budget(c, k),
{
}

/// A value of an escaped kind is the escaping of a text that was truncated
/// to the budget first.
pub proof fn lemma_escaped_value_form(k: FieldKind, c: GenConfig, v: Seq<char>)
    requires
        spec_gen_class(k) == GenClass::EscapedText || spec_gen_class(k) == GenClass::PasswordText,
        spec_value_ok(k, c, v),
    ensures
        exists|t: Seq<char>| t.len() <= spec_budget(c, k) && v == spec_escape(t),
{
    if spec_gen_class(k) == GenClass::EscapedText {
        let raw = choose|raw: Seq<char>| v == spec_escape(spec_truncate(raw, spec_budget(c, k)));
        let t = spec_truncate(raw, spec_budget(c, k));
        assert(t.len() <= spec_budget(c, k) && v == spec_escape(t));
    } else {
        let raw = choose|raw: Seq<char>|
            spec_clamp(spec_effective_lo(c, k)) <= raw.len() <= spec_clamp(
                spec_effective_hi(c, k),
            ) && v == spec_escape(spec_truncate(raw, spec_budget(c, k)));
        let t = spec_truncate(raw, spec_budget(c, k));
        assert(t.len() <= spec_budget(c, k) && v == spec_escape(t));
    }
}

} // verus!
