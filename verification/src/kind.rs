//! The type registry: the closed vocabulary of semantic field kinds, the
//! resolution of a kind name to its registry entry, and the SQL column
//! class each kind maps to.

use vstd::prelude::*;
use crate::SynthError;

verus! {

/// A semantic data domain for a generated field.
#[derive(Debug, Clone, Copy, PartialEq, Eq, Structural)]
pub enum FieldKind {
    PlainString,
    StringInt,
    Name,
    City,
    Email,
    Password,
    Word,
    FirstName,
    LastName,
    Title,
    Suffix,
    NameWithTitle,
    FreeEmailProvider,
    DomainSuffix,
    FreeEmail,
    SafeEmail,
    Username,
    IPv4,
    IPv6,
    IP,
    MACAddress,
    UserAgent,
    RfcStatusCode,
    ValidStatusCode,
    HexColor,
    RgbColor,
    RgbaColor,
    HslColor,
    Color,
    CompanySuffix,
    CompanyName,
    Buzzword,
    BuzzwordMiddle,
    BuzzwordTail,
    CatchPhase,
    Verb,
    Adj,
    Noun,
    Bs,
    Profession,
    Industry,
    Geohash,
    CityPrefix,
    CitySuffix,
    CityName,
    CountryName,
    CountryCode,
    StreetSuffix,
    StreetName,
    FilePath,
    FileName,
    FileExtension,
    DirPath,
    StateName,
    StateAbbr,
    SecondaryAddressType,
    SecondaryAddress,
    PostCode,
    BuildingNumber,
    LicencePlate,
    Isbn,
    Isbn13,
    Isbn10,
    PhoneNumber,
    CellNumber,
    Bic,
    UUIDv1,
    UUIDv3,
    UUIDv4,
    UUIDv5,
    Product,
    Latitude,
    Longitude,
    Bool,
    Sentence,
    Sentences,
    Words,
    Paragraph,
    Paragraphs,
    Int,
    Digit,
    ZipCode,
    Serial,
    Float,
    Bigint,
    Time,
    Date,
    DateTime,
    DateTimeBefore,
    DateTimeAfter,
    DateTimeBetween,
}

/// The SQL column class a field kind maps to.
#[derive(Debug, Clone, Copy, PartialEq, Eq, Structural)]
pub enum ColumnClass {
    /// Bounded character column sized to the configured maximum length.
    Varchar,
    /// Fixed-precision decimal with 2 integer and 6 fractional digits.
    LatitudeDecimal,
    /// Fixed-precision decimal with 3 integer and 6 fractional digits.
    LongitudeDecimal,
    /// Boolean column.
    BooleanCol,
    /// Unbounded text column.
    TextCol,
    /// Integer column.
    IntegerCol,
    /// Auto-incrementing integer column, excluded from generation.
    SerialCol,
    /// Floating-point column.
    FloatCol,
    /// 64-bit integer column.
    BigIntCol,
    /// Time-of-day column.
    TimeCol,
    /// Calendar date column.
    DateCol,
    /// Timestamp column.
    TimestampCol,
}

/// The registry entry a kind name resolves to, or `None` when the name is
/// not in the registry.
pub open spec fn spec_resolve(s: Seq<char>) -> Option<FieldKind> {
    if s == "String"@ {
        Some(FieldKind::PlainString)
    } else if s == "StringInt"@ {
        Some(FieldKind::StringInt)
    } else if s == "Name"@ {
        Some(FieldKind::Name)
    } else if s == "City"@ {
        Some(FieldKind::City)
    } else if s == "Email"@ {
        Some(FieldKind::Email)
    } else if s == "Password"@ {
        Some(FieldKind::Password)
    } else if s == "Word"@ {
        Some(FieldKind::Word)
    } else if s == "FirstName"@ {
        Some(FieldKind::FirstName)
    } else if s == "LastName"@ {
        Some(FieldKind::LastName)
    } else if s == "Title"@ {
        Some(FieldKind::Title)
    } else if s == "Suffix"@ {
        Some(FieldKind::Suffix)
    } else if s == "NameWithTitle"@ {
        Some(FieldKind::NameWithTitle)
    } else if s == "FreeEmailProvider"@ {
        Some(FieldKind::FreeEmailProvider)
    } else if s == "DomainSuffix"@ {
        Some(FieldKind::DomainSuffix)
    } else if s == "FreeEmail"@ {
        Some(FieldKind::FreeEmail)
    } else if s == "SafeEmail"@ {
        Some(FieldKind::SafeEmail)
    } else if s == "Username"@ {
        Some(FieldKind::Username)
    } else if s == "IPv4"@ {
        Some(FieldKind::IPv4)
    } else if s == "IPv6"@ {
        Some(FieldKind::IPv6)
    } else if s == "IP"@ {
        Some(FieldKind::IP)
    } else if s == "MACAddress"@ {
        Some(FieldKind::MACAddress)
    } else if s == "UserAgent"@ {
        Some(FieldKind::UserAgent)
    } else if s == "RfcStatusCode"@ {
        Some(FieldKind::RfcStatusCode)
    } else if s == "ValidStatusCode"@ {
        Some(FieldKind::ValidStatusCode)
    } else if s == "HexColor"@ {
        Some(FieldKind::HexColor)
    } else if s == "RgbColor"@ {
        Some(FieldKind::RgbColor)
    } else if s == "RgbaColor"@ {
        Some(FieldKind::RgbaColor)
    } else if s == "HslColor"@ {
        Some(FieldKind::HslColor)
    } else if s == "Color"@ {
        Some(FieldKind::Color)
    } else if s == "CompanySuffix"@ {
        Some(FieldKind::CompanySuffix)
    } else if s == "CompanyName"@ {
        Some(FieldKind::CompanyName)
    } else if s == "Buzzword"@ {
        Some(FieldKind::Buzzword)
    } else if s == "BuzzwordMiddle"@ {
        Some(FieldKind::BuzzwordMiddle)
    } else if s == "BuzzwordTail"@ {
        Some(FieldKind::BuzzwordTail)
    } else if s == "CatchPhase"@ {
        Some(FieldKind::CatchPhase)
    } else if s == "Verb"@ {
        Some(FieldKind::Verb)
    } else if s == "Adj"@ {
        Some(FieldKind::Adj)
    } else if s == "Noun"@ {
        Some(FieldKind::Noun)
    } else if s == "Bs"@ {
        Some(FieldKind::Bs)
    } else if s == "Profession"@ {
        Some(FieldKind::Profession)
    } else if s == "Industry"@ {
        Some(FieldKind::Industry)
    } else if s == "Geohash"@ {
        Some(FieldKind::Geohash)
    } else if s == "CityPrefix"@ {
        Some(FieldKind::CityPrefix)
    } else if s == "CitySuffix"@ {
        Some(FieldKind::CitySuffix)
    } else if s == "CityName"@ {
        Some(FieldKind::CityName)
    } else if s == "CountryName"@ {
        Some(FieldKind::CountryName)
    } else if s == "CountryCode"@ {
        Some(FieldKind::CountryCode)
    } else if s == "StreetSuffix"@ {
        Some(FieldKind::StreetSuffix)
    } else if s == "StreetName"@ {
        Some(FieldKind::StreetName)
    } else if s == "FilePath"@ {
        Some(FieldKind::FilePath)
    } else if s == "FileName"@ {
        Some(FieldKind::FileName)
    } else if s == "FileExtension"@ {
        Some(FieldKind::FileExtension)
    } else if s == "DirPath"@ {
        Some(FieldKind::DirPath)
    } else if s == "StateName"@ {
        Some(FieldKind::StateName)
    } else if s == "StateAbbr"@ {
        Some(FieldKind::StateAbbr)
    } else if s == "SecondaryAddressType"@ {
        Some(FieldKind::SecondaryAddressType)
    } else if s == "SecondaryAddress"@ {
        Some(FieldKind::SecondaryAddress)
    } else if s == "PostCode"@ {
        Some(FieldKind::PostCode)
    } else if s == "BuildingNumber"@ {
        Some(FieldKind::BuildingNumber)
    } else if s == "LicencePlate"@ {
        Some(FieldKind::LicencePlate)
    } else if s == "Isbn"@ {
        Some(FieldKind::Isbn)
    } else if s == "Isbn13"@ {
        Some(FieldKind::Isbn13)
    } else if s == "Isbn10"@ {
        Some(FieldKind::Isbn10)
    } else if s == "PhoneNumber"@ {
        Some(FieldKind::PhoneNumber)
    } else if s == "CellNumber"@ {
        Some(FieldKind::CellNumber)
    } else if s == "Bic"@ {
        Some(FieldKind::Bic)
    } else if s == "UUIDv1"@ {
        Some(FieldKind::UUIDv1)
    } else if s == "UUIDv3"@ {
        Some(FieldKind::UUIDv3)
    } else if s == "UUIDv4"@ {
        Some(FieldKind::UUIDv4)
    } else if s == "UUIDv5"@ {
        Some(FieldKind::UUIDv5)
    } else if s == "Product"@ {
        Some(FieldKind::Product)
    } else if s == "Latitude"@ {
        Some(FieldKind::Latitude)
    } else if s == "Longitude"@ {
        Some(FieldKind::Longitude)
    } else if s == "Bool"@ {
        Some(FieldKind::Bool)
    } else if s == "Sentence"@ {
        Some(FieldKind::Sentence)
    } else if s == "Sentences"@ {
        Some(FieldKind::Sentences)
    } else if s == "Words"@ {
        Some(FieldKind::Words)
    } else if s == "Paragraph"@ {
        Some(FieldKind::Paragraph)
    } else if s == "Paragraphs"@ {
        Some(FieldKind::Paragraphs)
    } else if s == "Int"@ {
        Some(FieldKind::Int)
    } else if s == "Digit"@ {
        Some(FieldKind::Digit)
    } else if s == "ZipCode"@ {
        Some(FieldKind::ZipCode)
    } else if s == "Serial"@ {
        Some(FieldKind::Serial)
    } else if s == "Float"@ {
        Some(FieldKind::Float)
    } else if s == "Bigint"@ {
        Some(FieldKind::Bigint)
    } else if s == "Time"@ {
        Some(FieldKind::Time)
    } else if s == "Date"@ {
        Some(FieldKind::Date)
    } else if s == "DateTime"@ {
        Some(FieldKind::DateTime)
    } else if s == "DateTimeBefore"@ {
        Some(FieldKind::DateTimeBefore)
    } else if s == "DateTimeAfter"@ {
        Some(FieldKind::DateTimeAfter)
    } else if s == "DateTimeBetween"@ {
        Some(FieldKind::DateTimeBetween)
    } else {
        None
    }
}

/// Character-for-character equality of two strings.
pub fn str_eq(a: &str, b: &str) -> (r: bool)
    ensures
        r == (a@ == b@),
{
    let na = a.unicode_len();
    let nb = b.unicode_len();
    if na != nb {
        return false;
    }
    let mut i: usize = 0;
    while i < na
        invariant
            i <= na,
            na == a@.len(),
            na == b@.len(),
            forall|j: int| 0 <= j < i ==> a@[j] == b@[j],
        decreases na - i,
    {
        if a.get_char(i) != b.get_char(i) {
            return false;
        }
        i += 1;
    }
    proof {
        assert(a@ =~= b@);
    }
    true
}

/// Looks a kind name up in the registry.
///
/// Fails with `UnsupportedFieldKind` exactly when the name is not in the
/// registry; this failure aborts the whole table-level operation.
pub fn resolve(s: &str) -> (r: Result<FieldKind, SynthError>)
    ensures
        match spec_resolve(s@) {
            Some(k) => r == Ok::<FieldKind, SynthError>(k),
            None => r == Err::<FieldKind, SynthError>(SynthError::UnsupportedFieldKind),
        },
{
    if str_eq(s, "String") {
        Ok(FieldKind::PlainString)
    } else if str_eq(s, "StringInt") {
        Ok(FieldKind::StringInt)
    } else if str_eq(s, "Name") {
        Ok(FieldKind::Name)
    } else if str_eq(s, "City") {
        Ok(FieldKind::City)
    } else if str_eq(s, "Email") {
        Ok(FieldKind::Email)
    } else if str_eq(s, "Password") {
        Ok(FieldKind::Password)
    } else if str_eq(s, "Word") {
        Ok(FieldKind::Word)
    } else if str_eq(s, "FirstName") {
        Ok(FieldKind::FirstName)
    } else if str_eq(s, "LastName") {
        Ok(FieldKind::LastName)
    } else if str_eq(s, "Title") {
        Ok(FieldKind::Title)
    } else if str_eq(s, "Suffix") {
        Ok(FieldKind::Suffix)
    } else if str_eq(s, "NameWithTitle") {
        Ok(FieldKind::NameWithTitle)
    } else if str_eq(s, "FreeEmailProvider") {
        Ok(FieldKind::FreeEmailProvider)
    } else if str_eq(s, "DomainSuffix") {
        Ok(FieldKind::DomainSuffix)
    } else if str_eq(s, "FreeEmail") {
        Ok(FieldKind::FreeEmail)
    } else if str_eq(s, "SafeEmail") {
        Ok(FieldKind::SafeEmail)
    } else if str_eq(s, "Username") {
        Ok(FieldKind::Username)
    } else if str_eq(s, "IPv4") {
        Ok(FieldKind::IPv4)
    } else if str_eq(s, "IPv6") {
        Ok(FieldKind::IPv6)
    } else if str_eq(s, "IP") {
        Ok(FieldKind::IP)
    } else if str_eq(s, "MACAddress") {
        Ok(FieldKind::MACAddress)
    } else if str_eq(s, "UserAgent") {
        Ok(FieldKind::UserAgent)
    } else if str_eq(s, "RfcStatusCode") {
        Ok(FieldKind::RfcStatusCode)
    } else if str_eq(s, "ValidStatusCode") {
        Ok(FieldKind::ValidStatusCode)
    } else if str_eq(s, "HexColor") {
        Ok(FieldKind::HexColor)
    } else if str_eq(s, "RgbColor") {
        Ok(FieldKind::RgbColor)
    } else if str_eq(s, "RgbaColor") {
        Ok(FieldKind::RgbaColor)
    } else if str_eq(s, "HslColor") {
        Ok(FieldKind::HslColor)
    } else if str_eq(s, "Color") {
        Ok(FieldKind::Color)
    } else if str_eq(s, "CompanySuffix") {
        Ok(FieldKind::CompanySuffix)
    } else if str_eq(s, "CompanyName") {
        Ok(FieldKind::CompanyName)
    } else if str_eq(s, "Buzzword") {
        Ok(FieldKind::Buzzword)
    } else if str_eq(s, "BuzzwordMiddle") {
        Ok(FieldKind::BuzzwordMiddle)
    } else if str_eq(s, "BuzzwordTail") {
        Ok(FieldKind::BuzzwordTail)
    } else if str_eq(s, "CatchPhase") {
        Ok(FieldKind::CatchPhase)
    } else if str_eq(s, "Verb") {
        Ok(FieldKind::Verb)
    } else if str_eq(s, "Adj") {
        Ok(FieldKind::Adj)
    } else if str_eq(s, "Noun") {
        Ok(FieldKind::Noun)
    } else if str_eq(s, "Bs") {
        Ok(FieldKind::Bs)
    } else if str_eq(s, "Profession") {
        Ok(FieldKind::Profession)
    } else if str_eq(s, "Industry") {
        Ok(FieldKind::Industry)
    } else if str_eq(s, "Geohash") {
        Ok(FieldKind::Geohash)
    } else if str_eq(s, "CityPrefix") {
        Ok(FieldKind::CityPrefix)
    } else if str_eq(s, "CitySuffix") {
        Ok(FieldKind::CitySuffix)
    } else if str_eq(s, "CityName") {
        Ok(FieldKind::CityName)
    } else if str_eq(s, "CountryName") {
        Ok(FieldKind::CountryName)
    } else if str_eq(s, "CountryCode") {
        Ok(FieldKind::CountryCode)
    } else if str_eq(s, "StreetSuffix") {
        Ok(FieldKind::StreetSuffix)
    } else if str_eq(s, "StreetName") {
        Ok(FieldKind::StreetName)
    } else if str_eq(s, "FilePath") {
        Ok(FieldKind::FilePath)
    } else if str_eq(s, "FileName") {
        Ok(FieldKind::FileName)
    } else if str_eq(s, "FileExtension") {
        Ok(FieldKind::FileExtension)
    } else if str_eq(s, "DirPath") {
        Ok(FieldKind::DirPath)
    } else if str_eq(s, "StateName") {
        Ok(FieldKind::StateName)
    } else if str_eq(s, "StateAbbr") {
        Ok(FieldKind::StateAbbr)
    } else if str_eq(s, "SecondaryAddressType") {
        Ok(FieldKind::SecondaryAddressType)
    } else if str_eq(s, "SecondaryAddress") {
        Ok(FieldKind::SecondaryAddress)
    } else if str_eq(s, "PostCode") {
        Ok(FieldKind::PostCode)
    } else if str_eq(s, "BuildingNumber") {
        Ok(FieldKind::BuildingNumber)
    } else if str_eq(s, "LicencePlate") {
        Ok(FieldKind::LicencePlate)
    } else if str_eq(s, "Isbn") {
        Ok(FieldKind::Isbn)
    } else if str_eq(s, "Isbn13") {
        Ok(FieldKind::Isbn13)
    } else if str_eq(s, "Isbn10") {
        Ok(FieldKind::Isbn10)
    } else if str_eq(s, "PhoneNumber") {
        Ok(FieldKind::PhoneNumber)
    } else if str_eq(s, "CellNumber") {
        Ok(FieldKind::CellNumber)
    } else if str_eq(s, "Bic") {
        Ok(FieldKind::Bic)
    } else if str_eq(s, "UUIDv1") {
        Ok(FieldKind::UUIDv1)
    } else if str_eq(s, "UUIDv3") {
        Ok(FieldKind::UUIDv3)
    } else if str_eq(s, "UUIDv4") {
        Ok(FieldKind::UUIDv4)
    } else if str_eq(s, "UUIDv5") {
        Ok(FieldKind::UUIDv5)
    } else if str_eq(s, "Product") {
        Ok(FieldKind::Product)
    } else if str_eq(s, "Latitude") {
        Ok(FieldKind::Latitude)
    } else if str_eq(s, "Longitude") {
        Ok(FieldKind::Longitude)
    } else if str_eq(s, "Bool") {
        Ok(FieldKind::Bool)
    } else if str_eq(s, "Sentence") {
        Ok(FieldKind::Sentence)
    } else if str_eq(s, "Sentences") {
        Ok(FieldKind::Sentences)
    } else if str_eq(s, "Words") {
        Ok(FieldKind::Words)
    } else if str_eq(s, "Paragraph") {
        Ok(FieldKind::Paragraph)
    } else if str_eq(s, "Paragraphs") {
        Ok(FieldKind::Paragraphs)
    } else if str_eq(s, "Int") {
        Ok(FieldKind::Int)
    } else if str_eq(s, "Digit") {
        Ok(FieldKind::Digit)
    } else if str_eq(s, "ZipCode") {
        Ok(FieldKind::ZipCode)
    } else if str_eq(s, "Serial") {
        Ok(FieldKind::Serial)
    } else if str_eq(s, "Float") {
        Ok(FieldKind::Float)
    } else if str_eq(s, "Bigint") {
        Ok(FieldKind::Bigint)
    } else if str_eq(s, "Time") {
        Ok(FieldKind::Time)
    } else if str_eq(s, "Date") {
        Ok(FieldKind::Date)
    } else if str_eq(s, "DateTime") {
        Ok(FieldKind::DateTime)
    } else if str_eq(s, "DateTimeBefore") {
        Ok(FieldKind::DateTimeBefore)
    } else if str_eq(s, "DateTimeAfter") {
        Ok(FieldKind::DateTimeAfter)
    } else if str_eq(s, "DateTimeBetween") {
        Ok(FieldKind::DateTimeBetween)
    } else {
        Err(SynthError::UnsupportedFieldKind)
    }
}

/// The column class of each kind.
pub open spec fn spec_column_class(k: FieldKind) -> ColumnClass {
    match k {
        FieldKind::PlainString => ColumnClass::Varchar,
        FieldKind::StringInt => ColumnClass::Varchar,
        FieldKind::Name => ColumnClass::Varchar,
        FieldKind::City => ColumnClass::Varchar,
        FieldKind::Email => ColumnClass::Varchar,
        FieldKind::Password => ColumnClass::Varchar,
        FieldKind::Word => ColumnClass::Varchar,
        FieldKind::FirstName => ColumnClass::Varchar,
        FieldKind::LastName => ColumnClass::Varchar,
        FieldKind::Title => ColumnClass::Varchar,
        FieldKind::Suffix => ColumnClass::Varchar,
        FieldKind::NameWithTitle => ColumnClass::Varchar,
        FieldKind::FreeEmailProvider => ColumnClass::Varchar,
        FieldKind::DomainSuffix => ColumnClass::Varchar,
        FieldKind::FreeEmail => ColumnClass::Varchar,
        FieldKind::SafeEmail => ColumnClass::Varchar,
        FieldKind::Username => ColumnClass::Varchar,
        FieldKind::IPv4 => ColumnClass::Varchar,
        FieldKind::IPv6 => ColumnClass::Varchar,
        FieldKind::IP => ColumnClass::Varchar,
        FieldKind::MACAddress => ColumnClass::Varchar,
        FieldKind::UserAgent => ColumnClass::Varchar,
        FieldKind::RfcStatusCode => ColumnClass::Varchar,
        FieldKind::ValidStatusCode => ColumnClass::Varchar,
        FieldKind::HexColor => ColumnClass::Varchar,
        FieldKind::RgbColor => ColumnClass::Varchar,
        FieldKind::RgbaColor => ColumnClass::Varchar,
        FieldKind::HslColor => ColumnClass::Varchar,
        FieldKind::Color => ColumnClass::Varchar,
        FieldKind::CompanySuffix => ColumnClass::Varchar,
        FieldKind::CompanyName => ColumnClass::Varchar,
        FieldKind::Buzzword => ColumnClass::Varchar,
        FieldKind::BuzzwordMiddle => ColumnClass::Varchar,
        FieldKind::BuzzwordTail => ColumnClass::Varchar,
        FieldKind::CatchPhase => ColumnClass::Varchar,
        FieldKind::Verb => ColumnClass::Varchar,
        FieldKind::Adj => ColumnClass::Varchar,
        FieldKind::Noun => ColumnClass::Varchar,
        FieldKind::Bs => ColumnClass::Varchar,
        FieldKind::Profession => ColumnClass::Varchar,
        FieldKind::Industry => ColumnClass::Varchar,
        FieldKind::Geohash => ColumnClass::Varchar,
        FieldKind::CityPrefix => ColumnClass::Varchar,
        FieldKind::CitySuffix => ColumnClass::Varchar,
        FieldKind::CityName => ColumnClass::Varchar,
        FieldKind::CountryName => ColumnClass::Varchar,
        FieldKind::CountryCode => ColumnClass::Varchar,
        FieldKind::StreetSuffix => ColumnClass::Varchar,
        FieldKind::StreetName => ColumnClass::Varchar,
        FieldKind::FilePath => ColumnClass::Varchar,
        FieldKind::FileName => ColumnClass::Varchar,
        FieldKind::FileExtension => ColumnClass::Varchar,
        FieldKind::DirPath => ColumnClass::Varchar,
        FieldKind::StateName => ColumnClass::Varchar,
        FieldKind::StateAbbr => ColumnClass::Varchar,
        FieldKind::SecondaryAddressType => ColumnClass::Varchar,
        FieldKind::SecondaryAddress => ColumnClass::Varchar,
        FieldKind::PostCode => ColumnClass::Varchar,
        FieldKind::BuildingNumber => ColumnClass::Varchar,
        FieldKind::LicencePlate => ColumnClass::Varchar,
        FieldKind::Isbn => ColumnClass::Varchar,
        FieldKind::Isbn13 => ColumnClass::Varchar,
        FieldKind::Isbn10 => ColumnClass::Varchar,
        FieldKind::PhoneNumber => ColumnClass::Varchar,
        FieldKind::CellNumber => ColumnClass::Varchar,
        FieldKind::Bic => ColumnClass::Varchar,
        FieldKind::UUIDv1 => ColumnClass::Varchar,
        FieldKind::UUIDv3 => ColumnClass::Varchar,
        FieldKind::UUIDv4 => ColumnClass::Varchar,
        FieldKind::UUIDv5 => ColumnClass::Varchar,
        FieldKind::Product => ColumnClass::Varchar,
        FieldKind::Latitude => ColumnClass::LatitudeDecimal,
        FieldKind::Longitude => ColumnClass::LongitudeDecimal,
        FieldKind::Bool => ColumnClass::BooleanCol,
        FieldKind::Sentence => ColumnClass::TextCol,
        FieldKind::Sentences => ColumnClass::TextCol,
        FieldKind::Words => ColumnClass::TextCol,
        FieldKind::Paragraph => ColumnClass::TextCol,
        FieldKind::Paragraphs => ColumnClass::TextCol,
        FieldKind::Int => ColumnClass::IntegerCol,
        FieldKind::Digit => ColumnClass::IntegerCol,
        FieldKind::ZipCode => ColumnClass::IntegerCol,
        FieldKind::Serial => ColumnClass::SerialCol,
        FieldKind::Float => ColumnClass::FloatCol,
        FieldKind::Bigint => ColumnClass::BigIntCol,
        FieldKind::Time => ColumnClass::TimeCol,
        FieldKind::Date => ColumnClass::DateCol,
        FieldKind::DateTime => ColumnClass::TimestampCol,
        FieldKind::DateTimeBefore => ColumnClass::TimestampCol,
        FieldKind::DateTimeAfter => ColumnClass::TimestampCol,
        FieldKind::DateTimeBetween => ColumnClass::TimestampCol,
    }
}

/// Maps a kind to its column class.
pub fn column_class(k: FieldKind) -> (c: ColumnClass)
    ensures
        c == spec_column_class(k),
{
    match k {
        FieldKind::PlainString => ColumnClass::Varchar,
        FieldKind::StringInt => ColumnClass::Varchar,
        FieldKind::Name => ColumnClass::Varchar,
        FieldKind::City => ColumnClass::Varchar,
        FieldKind::Email => ColumnClass::Varchar,
        FieldKind::Password => ColumnClass::Varchar,
        FieldKind::Word => ColumnClass::Varchar,
        FieldKind::FirstName => ColumnClass::Varchar,
        FieldKind::LastName => ColumnClass::Varchar,
        FieldKind::Title => ColumnClass::Varchar,
        FieldKind::Suffix => ColumnClass::Varchar,
        FieldKind::NameWithTitle => ColumnClass::Varchar,
        FieldKind::FreeEmailProvider => ColumnClass::Varchar,
        FieldKind::DomainSuffix => ColumnClass::Varchar,
        FieldKind::FreeEmail => ColumnClass::Varchar,
        FieldKind::SafeEmail => ColumnClass::Varchar,
        FieldKind::Username => ColumnClass::Varchar,
        FieldKind::IPv4 => ColumnClass::Varchar,
        FieldKind::IPv6 => ColumnClass::Varchar,
        FieldKind::IP => ColumnClass::Varchar,
        FieldKind::MACAddress => ColumnClass::Varchar,
        FieldKind::UserAgent => ColumnClass::Varchar,
        FieldKind::RfcStatusCode => ColumnClass::Varchar,
        FieldKind::ValidStatusCode => ColumnClass::Varchar,
        FieldKind::HexColor => ColumnClass::Varchar,
        FieldKind::RgbColor => ColumnClass::Varchar,
        FieldKind::RgbaColor => ColumnClass::Varchar,
        FieldKind::HslColor => ColumnClass::Varchar,
        FieldKind::Color => ColumnClass::Varchar,
        FieldKind::CompanySuffix => ColumnClass::Varchar,
        FieldKind::CompanyName => ColumnClass::Varchar,
        FieldKind::Buzzword => ColumnClass::Varchar,
        FieldKind::BuzzwordMiddle => ColumnClass::Varchar,
        FieldKind::BuzzwordTail => ColumnClass::Varchar,
        FieldKind::CatchPhase => ColumnClass::Varchar,
        FieldKind::Verb => ColumnClass::Varchar,
        FieldKind::Adj => ColumnClass::Varchar,
        FieldKind::Noun => ColumnClass::Varchar,
        FieldKind::Bs => ColumnClass::Varchar,
        FieldKind::Profession => ColumnClass::Varchar,
        FieldKind::Industry => ColumnClass::Varchar,
        FieldKind::Geohash => ColumnClass::Varchar,
        FieldKind::CityPrefix => ColumnClass::Varchar,
        FieldKind::CitySuffix => ColumnClass::Varchar,
        FieldKind::CityName => ColumnClass::Varchar,
        FieldKind::CountryName => ColumnClass::Varchar,
        FieldKind::CountryCode => ColumnClass::Varchar,
        FieldKind::StreetSuffix => ColumnClass::Varchar,
        FieldKind::StreetName => ColumnClass::Varchar,
        FieldKind::FilePath => ColumnClass::Varchar,
        FieldKind::FileName => ColumnClass::Varchar,
        FieldKind::FileExtension => ColumnClass::Varchar,
        FieldKind::DirPath => ColumnClass::Varchar,
        FieldKind::StateName => ColumnClass::Varchar,
        FieldKind::StateAbbr => ColumnClass::Varchar,
        FieldKind::SecondaryAddressType => ColumnClass::Varchar,
        FieldKind::SecondaryAddress => ColumnClass::Varchar,
        FieldKind::PostCode => ColumnClass::Varchar,
        FieldKind::BuildingNumber => ColumnClass::Varchar,
        FieldKind::LicencePlate => ColumnClass::Varchar,
        FieldKind::Isbn => ColumnClass::Varchar,
        FieldKind::Isbn13 => ColumnClass::Varchar,
        FieldKind::Isbn10 => ColumnClass::Varchar,
        FieldKind::PhoneNumber => ColumnClass::Varchar,
        FieldKind::CellNumber => ColumnClass::Varchar,
        FieldKind::Bic => ColumnClass::Varchar,
        FieldKind::UUIDv1 => ColumnClass::Varchar,
        FieldKind::UUIDv3 => ColumnClass::Varchar,
        FieldKind::UUIDv4 => ColumnClass::Varchar,
        FieldKind::UUIDv5 => ColumnClass::Varchar,
        FieldKind::Product => ColumnClass::Varchar,
        FieldKind::Latitude => ColumnClass::LatitudeDecimal,
        FieldKind::Longitude => ColumnClass::LongitudeDecimal,
        FieldKind::Bool => ColumnClass::BooleanCol,
        FieldKind::Sentence => ColumnClass::TextCol,
        FieldKind::Sentences => ColumnClass::TextCol,
        FieldKind::Words => ColumnClass::TextCol,
        FieldKind::Paragraph => ColumnClass::TextCol,
        FieldKind::Paragraphs => ColumnClass::TextCol,
        FieldKind::Int => ColumnClass::IntegerCol,
        FieldKind::Digit => ColumnClass::IntegerCol,
        FieldKind::ZipCode => ColumnClass::IntegerCol,
        FieldKind::Serial => ColumnClass::SerialCol,
        FieldKind::Float => ColumnClass::FloatCol,
        FieldKind::Bigint => ColumnClass::BigIntCol,
        FieldKind::Time => ColumnClass::TimeCol,
        FieldKind::Date => ColumnClass::DateCol,
        FieldKind::DateTime => ColumnClass::TimestampCol,
        FieldKind::DateTimeBefore => ColumnClass::TimestampCol,
        FieldKind::DateTimeAfter => ColumnClass::TimestampCol,
        FieldKind::DateTimeBetween => ColumnClass::TimestampCol,
    }
}

/// An auto-increment kind produces no value and no insert column.
pub open spec fn spec_is_auto_increment(k: FieldKind) -> bool {
    k is Serial
}

/// Whether `k` is the auto-increment marker kind.
pub fn is_auto_increment(k: FieldKind) -> (r: bool)
    ensures
        r == spec_is_auto_increment(k),
{
    match k {
        FieldKind::Serial => true,
        _ => false,
    }
}

} // verus!
