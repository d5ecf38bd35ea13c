//! The data a query carries in and a station answer carries back.
//!
//! Coordinates travel through this crate untouched: they are carried as the
//! raw bit patterns of the IEEE-754 doubles the caller supplied, and handed
//! to the wire encoder as such.  Nothing here computes on them.

use vstd::prelude::*;

verus! {

/// One railway line serving a station.
#[derive(Clone, Debug)]
pub struct Line {
    /// The line's short name, always present.
    pub name_short: String,
    /// The line's localized (romanized) name, if the directory has one.
    pub name_roman: Option<String>,
}

/// One station as the upstream directory returns it.
#[derive(Clone, Debug)]
pub struct Station {
    /// The station's default name, always present.
    pub name: String,
    /// The station's localized (romanized) name, if the directory has one.
    pub name_roman: Option<String>,
    /// The lines serving the station, in the directory's order.
    pub lines: Vec<Line>,
}

/// Which naming scheme the response uses, resolved once at request-parsing
/// time from the optional `en` parameter.
#[derive(Clone, Copy, PartialEq, Eq, Structural, Debug)]
pub enum Locale {
    /// Default names: the station's `name`, each line's short name.
    Default,
    /// Localized names, falling back to the empty string where absent.
    Localized,
}

/// The query parameters as they arrive: each may be missing, and the
/// coordinates are raw IEEE-754 bit patterns.
#[derive(Clone, Copy, PartialEq, Eq, Structural, Debug)]
pub struct Params {
    /// The bits of the `latitude` parameter, if present.
    pub latitude_bits: Option<u64>,
    /// The bits of the `longitude` parameter, if present.
    pub longitude_bits: Option<u64>,
    /// The `en` parameter, if present.
    pub en: Option<bool>,
}

/// Only `en=true` selects localized rendering; `en=false` and an absent `en`
/// both keep the default names.
pub open spec fn spec_locale_of(en: Option<bool>) -> Locale {
    match en {
        Option::Some(true) => Locale::Localized,
        _ => Locale::Default,
    }
}

/// Resolve the three-way optional `en` switch into the two-state locale.
pub fn locale_of(en: Option<bool>) -> (r: Locale)
    ensures
        r == spec_locale_of(en),
{
    match en {
        Option::Some(true) => Locale::Localized,
        _ => Locale::Default,
    }
}

} // verus!
