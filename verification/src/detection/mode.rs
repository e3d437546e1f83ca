//! The three meeting detection modes selectable in settings.
use vstd::prelude::*;

verus! {

/// Three detection modes selectable in settings.
#[derive(Debug, Clone, Copy, PartialEq, Eq, Structural)]
pub enum DetectionMode {
    /// User starts/stops capture explicitly.
    Manual,
    /// Capture begins automatically when criteria are met, stops when absent.
    Auto,
    /// Auto-detect but require one click to confirm before capture begins.
    Armed,
}

impl DetectionMode {
    /// Returns true if this mode automatically starts capture.
    pub fn auto_starts(&self) -> (r: bool)
        ensures
            r <==> *self == DetectionMode::Auto,
    {
        matches!(self, DetectionMode::Auto)
    }

    /// Returns true if this mode requires user confirmation.
    pub fn requires_confirmation(&self) -> (r: bool)
        ensures
            r <==> *self == DetectionMode::Armed,
    {
        matches!(self, DetectionMode::Armed)
    }

    /// Returns true if this mode is entirely manual.
    pub fn is_manual(&self) -> (r: bool)
        ensures
            r <==> *self == DetectionMode::Manual,
    {
        matches!(self, DetectionMode::Manual)
    }

    /// The lower-case name of the mode, as shown to the user.
    pub fn to_string(&self) -> (r: String)
        ensures
            r@ == mode_name(*self),
    {
        match self {
            DetectionMode::Manual => {
                proof { reveal_strlit("manual"); }
                String::from_str("manual")
            },
            DetectionMode::Auto => {
                proof { reveal_strlit("auto"); }
                String::from_str("auto")
            },
            DetectionMode::Armed => {
                proof { reveal_strlit("armed"); }
                String::from_str("armed")
            },
        }
    }
}

/// The name of each mode: "manual", "auto" or "armed".
pub open spec fn mode_name(m: DetectionMode) -> Seq<char> {
    match m {
        DetectionMode::Manual => seq!['m', 'a', 'n', 'u', 'a', 'l'],
        DetectionMode::Auto => seq!['a', 'u', 't', 'o'],
        DetectionMode::Armed => seq!['a', 'r', 'm', 'e', 'd'],
    }
}

impl Default for DetectionMode {
    /// The default mode is `Armed`.
    fn default() -> (r: DetectionMode)
        ensures
            r == DetectionMode::Armed,
    {
        DetectionMode::Armed
    }
}

} // verus!
