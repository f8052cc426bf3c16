//! Per-field generation parameters: optional length bounds, a boolean
//! ratio, and date boundaries, together with the per-kind defaults and the
//! swap rule that turns caller bounds into effective bounds.

use vstd::prelude::*;
use crate::kind::FieldKind;

verus! {

/// Caller-supplied generation parameters for one field. Every member is
/// optional; absent members fall back to the kind's defaults.
#[derive(Debug, Clone)]
pub struct GenConfig {
    /// Lower length or value bound for the ranged kinds.
    pub min_length: Option<i32>,
    /// Upper length or value bound; also the truncation budget.
    pub max_length: Option<i32>,
    /// Percentage probability of `true` for the boolean kind.
    pub ratio: Option<u8>,
    /// Lower or single date boundary, as `YYYY-MM-DD hh:mm:ss`.
    pub date: Option<String>,
    /// Upper date boundary for the between kind, same form.
    pub date_end: Option<String>,
}

impl GenConfig {
    /// A config with every member absent.
    pub fn none() -> (r: GenConfig)
        ensures
            r.min_length is None,
            r.max_length is None,
            r.ratio is None,
            r.date is None,
            r.date_end is None,
    {
        GenConfig { min_length: None, max_length: None, ratio: None, date: None, date_end: None }
    }
}

/// `o`, or `d` when absent.
pub open spec fn spec_opt_or(o: Option<i32>, d: i32) -> int {
    match o {
        Some(v) => v as int,
        None => d as int,
    }
}

/// The default lower bound each kind uses when the config gives none.
pub open spec fn spec_default_min(k: FieldKind) -> i32 {
    match k {
        FieldKind::Password => 5,
        FieldKind::Sentence => 0,
        FieldKind::Sentences => 5,
        FieldKind::Paragraph => 5,
        FieldKind::Paragraphs => 5,
        FieldKind::Int => 5,
        FieldKind::Float => 5,
        FieldKind::Bigint => 5,
        FieldKind::StringInt => 255,
        _ => 0,
    }
}

/// The default upper bound (and truncation budget) each kind uses when the
/// config gives none.
pub open spec fn spec_default_max(k: FieldKind) -> i32 {
    match k {
        FieldKind::Password => 25,
        FieldKind::Sentences => 25,
        FieldKind::Words => 25,
        FieldKind::Paragraph => 25,
        FieldKind::Paragraphs => 55,
        FieldKind::Int => 25,
        FieldKind::Float => 250,
        FieldKind::Bigint => 250000,
        _ => 255,
    }
}

/// The kind's default lower bound.
pub fn default_min(k: FieldKind) -> (r: i32)
    ensures
        r == spec_default_min(k),
{
    match k {
        FieldKind::Password => 5,
        FieldKind::Sentence => 0,
        FieldKind::Sentences => 5,
        FieldKind::Paragraph => 5,
        FieldKind::Paragraphs => 5,
        FieldKind::Int => 5,
        FieldKind::Float => 5,
        FieldKind::Bigint => 5,
        FieldKind::StringInt => 255,
        _ => 0,
    }
}

/// The kind's default upper bound.
pub fn default_max(k: FieldKind) -> (r: i32)
    ensures
        r == spec_default_max(k),
{
    match k {
        FieldKind::Password => 25,
        FieldKind::Sentences => 25,
        FieldKind::Words => 25,
        FieldKind::Paragraph => 25,
        FieldKind::Paragraphs => 55,
        FieldKind::Int => 25,
        FieldKind::Float => 250,
        FieldKind::Bigint => 250000,
        _ => 255,
    }
}

/// The effective lower bound: the smaller of the two configured (or
/// defaulted) bounds, so reversed bounds are swapped, never rejected.
pub open spec fn spec_effective_lo(c: GenConfig, k: FieldKind) -> int {
    let a = spec_opt_or(c.min_length, spec_default_min(k));
    let b = spec_opt_or(c.max_length, spec_default_max(k));
    if a <= b {
        a
    } else {
        b
    }
}

/// The effective upper bound: the larger of the two configured (or
/// defaulted) bounds.
pub open spec fn spec_effective_hi(c: GenConfig, k: FieldKind) -> int {
    let a = spec_opt_or(c.min_length, spec_default_min(k));
    let b = spec_opt_or(c.max_length, spec_default_max(k));
    if a <= b {
        b
    } else {
        a
    }
}

/// The effective `(lo, hi)` bounds for a ranged kind: configured bounds
/// with defaults filled in, swapped when reversed.
pub fn effective_bounds(c: &GenConfig, k: FieldKind) -> (r: (i32, i32))
    ensures
        r.0 == spec_effective_lo(*c, k),
        r.1 == spec_effective_hi(*c, k),
        r.0 <= r.1,
{
    let a = match c.min_length {
        Some(v) => v,
        None => default_min(k),
    };
    let b = match c.max_length {
        Some(v) => v,
        None => default_max(k),
    };
    if a <= b {
        (a, b)
    } else {
        (b, a)
    }
}

/// The character budget a generated value is truncated to: the configured
/// maximum length (or the kind's default), floored at zero.
pub open spec fn spec_budget(c: GenConfig, k: FieldKind) -> nat {
    let b = spec_opt_or(c.max_length, spec_default_max(k));
    if b <= 0 {
        0
    } else {
        b as nat
    }
}

/// The truncation budget of a field.
pub fn budget(c: &GenConfig, k: FieldKind) -> (r: usize)
    ensures
        r as nat == spec_budget(*c, k),
{
    let b = match c.max_length {
        Some(v) => v,
        None => default_max(k),
    };
    if b <= 0 {
        0
    } else {
        b as usize
    }
}

/// Reversed bounds are swapped before use: whenever the configured minimum
/// is at least the configured maximum, the effective bounds come out the
/// other way round, and in every case they are ordered and drawn from the
/// two configured values.
pub proof fn lemma_bounds_swapped(c: GenConfig, k: FieldKind, a: i32, b: i32)
    requires
        c.min_length == Some(a),
        c.max_length == Some(b),
        a >= b,
    ensures
        spec_effective_lo(c, k) == b as int,
        spec_effective_hi(c, k) == a as int,
        spec_effective_lo(c, k) <= spec_effective_hi(c, k),
{
}

} // verus!
