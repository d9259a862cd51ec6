//! The fixed lookup tables: message corpus, country list and metadata labels.
//!
//! Every table is a read-only process-wide constant; records select entries
//! cyclically by index, so each lookup is total and O(1).

use vstd::prelude::*;

verus! {

/// How many entries each table has.
pub const TABLE_SIZE: u64 = 10;

/// The message corpus entry at `k`.
pub open spec fn spec_message(k: int) -> Seq<char> {
    if k == 0 {
        "The research team discovered a new species of deep-sea creature while conducting experiments near hydrothermal vents in the dark ocean depths."@
    } else if k == 1 {
        "The research facility analyzed samples from ancient artifacts, revealing breakthrough findings about civilizations lost to the depths of time."@
    } else if k == 2 {
        "The research station monitored weather patterns across mountain peaks, collecting data about atmospheric changes in the remote depths below."@
    } else if k == 3 {
        "The research observatory captured images of stellar phenomena, peering into the cosmic depths to understand the mysteries of distant galaxies."@
    } else if k == 4 {
        "The research laboratory processed vast amounts of genetic data, exploring the molecular depths of DNA to unlock biological secrets."@
    } else if k == 5 {
        "The research center studied rare organisms found in ocean depths, documenting new species thriving in extreme underwater environments."@
    } else if k == 6 {
        "The research institute developed quantum systems to probe subatomic depths, advancing our understanding of fundamental particle physics."@
    } else if k == 7 {
        "The research expedition explored underwater depths near volcanic vents, discovering unique ecosystems adapted to extreme conditions."@
    } else if k == 8 {
        "The research facility conducted experiments in the depths of space, testing how different materials behave in zero gravity environments."@
    } else {
        "The research team engineered crops that could grow in the depths of drought conditions, helping communities facing climate challenges."@
    }
}

/// The country list entry at `k`.
pub open spec fn spec_country(k: int) -> Seq<char> {
    if k == 0 {
        "United States"@
    } else if k == 1 {
        "Canada"@
    } else if k == 2 {
        "United Kingdom"@
    } else if k == 3 {
        "France"@
    } else if k == 4 {
        "Germany"@
    } else if k == 5 {
        "Japan"@
    } else if k == 6 {
        "Australia"@
    } else if k == 7 {
        "Brazil"@
    } else if k == 8 {
        "India"@
    } else {
        "China"@
    }
}

/// The metadata label entry at `k`.
pub open spec fn spec_label(k: int) -> Seq<char> {
    if k == 0 {
        "critical system alert"@
    } else if k == 1 {
        "routine maintenance"@
    } else if k == 2 {
        "security notification"@
    } else if k == 3 {
        "performance metric"@
    } else if k == 4 {
        "user activity"@
    } else if k == 5 {
        "system status"@
    } else if k == 6 {
        "network event"@
    } else if k == 7 {
        "application log"@
    } else if k == 8 {
        "database operation"@
    } else {
        "authentication event"@
    }
}

/// The message corpus entry at `k`, selected by a bounded index.
pub fn message_at(k: u64) -> (r: &'static str)
    requires
        k < TABLE_SIZE,
    ensures
        r@ == spec_message(k as int),
{
    match k {
        0 => "The research team discovered a new species of deep-sea creature while conducting experiments near hydrothermal vents in the dark ocean depths.",
        1 => "The research facility analyzed samples from ancient artifacts, revealing breakthrough findings about civilizations lost to the depths of time.",
        2 => "The research station monitored weather patterns across mountain peaks, collecting data about atmospheric changes in the remote depths below.",
        3 => "The research observatory captured images of stellar phenomena, peering into the cosmic depths to understand the mysteries of distant galaxies.",
        4 => "The research laboratory processed vast amounts of genetic data, exploring the molecular depths of DNA to unlock biological secrets.",
        5 => "The research center studied rare organisms found in ocean depths, documenting new species thriving in extreme underwater environments.",
        6 => "The research institute developed quantum systems to probe subatomic depths, advancing our understanding of fundamental particle physics.",
        7 => "The research expedition explored underwater depths near volcanic vents, discovering unique ecosystems adapted to extreme conditions.",
        8 => "The research facility conducted experiments in the depths of space, testing how different materials behave in zero gravity environments.",
        _ => "The research team engineered crops that could grow in the depths of drought conditions, helping communities facing climate challenges.",
    }
}

/// The country list entry at `k`, selected by a bounded index.
pub fn country_at(k: u64) -> (r: &'static str)
    requires
        k < TABLE_SIZE,
    ensures
        r@ == spec_country(k as int),
{
    match k {
        0 => "United States",
        1 => "Canada",
        2 => "United Kingdom",
        3 => "France",
        4 => "Germany",
        5 => "Japan",
        6 => "Australia",
        7 => "Brazil",
        8 => "India",
        _ => "China",
    }
}

/// The metadata label entry at `k`, selected by a bounded index.
pub fn label_at(k: u64) -> (r: &'static str)
    requires
        k < TABLE_SIZE,
    ensures
        r@ == spec_label(k as int),
{
    match k {
        0 => "critical system alert",
        1 => "routine maintenance",
        2 => "security notification",
        3 => "performance metric",
        4 => "user activity",
        5 => "system status",
        6 => "network event",
        7 => "application log",
        8 => "database operation",
        _ => "authentication event",
    }
}

} // verus!
