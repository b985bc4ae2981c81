//! The apodization windows an engine can be built with, and their names.

use std::str::FromStr;
use vstd::prelude::*;

verus! {

/// The type of apodization window to use.
#[derive(Clone, Copy, PartialEq, Eq, PartialOrd, Ord, Debug, Hash, Structural)]
pub enum WindowType {
    Hanning,
    Hamming,
    Blackman,
    Nuttall,
    /// No taper: every sample keeps its value.
    NoWindow,
}

/// The lowercase equivalent of a string, as `str::to_lowercase` computes it.
pub uninterp spec fn lowercase(s: Seq<char>) -> Seq<char>;

/// Calls `str::to_lowercase`. The result is the Unicode lowercase mapping of
/// the argument, a function of its characters alone; the contract gives that
/// mapping a name and says nothing more of it.
#[verifier::external_body]
fn to_lowercase(s: &str) -> (lower: String)
    ensures
        lower@ == lowercase(s@),
{
    s.to_lowercase()
}

impl WindowType {
    /// The window that a lowercase name stands for, if any.
    pub open spec fn named(lower: Seq<char>) -> Option<WindowType> {
        if lower == "hanning"@ || lower == "hann"@ {
            Some(WindowType::Hanning)
        } else if lower == "hamming"@ {
            Some(WindowType::Hamming)
        } else if lower == "blackman"@ {
            Some(WindowType::Blackman)
        } else if lower == "nuttall"@ {
            Some(WindowType::Nuttall)
        } else if lower == "none"@ {
            Some(WindowType::NoWindow)
        } else {
            None
        }
    }

    /// What parsing returns for a string whose lowercase form is `lower`:
    /// the window it names, or the error `"no match"`.
    pub open spec fn parsed(lower: Seq<char>, r: Result<WindowType, &'static str>) -> bool {
        match Self::named(lower) {
            Some(w) => r == Ok::<WindowType, &'static str>(w),
            None => r is Err && r->Err_0@ == "no match"@,
        }
    }

    /// The display name of a window: the variant's identifier.
    pub open spec fn name(self) -> Seq<char> {
        match self {
            WindowType::Hanning => "Hanning"@,
            WindowType::Hamming => "Hamming"@,
            WindowType::Blackman => "Blackman"@,
            WindowType::Nuttall => "Nuttall"@,
            WindowType::NoWindow => "None"@,
        }
    }

    /// Looks up a name that is already in lowercase.
    pub fn from_lowercase(lower: &str) -> (r: Result<WindowType, &'static str>)
        ensures
            Self::parsed(lower@, r),
    {
        let lower = lower.to_owned();
        if lower == "hanning".to_owned() || lower == "hann".to_owned() {
            Ok(WindowType::Hanning)
        } else if lower == "hamming".to_owned() {
            Ok(WindowType::Hamming)
        } else if lower == "blackman".to_owned() {
            Ok(WindowType::Blackman)
        } else if lower == "nuttall".to_owned() {
            Ok(WindowType::Nuttall)
        } else if lower == "none".to_owned() {
            Ok(WindowType::NoWindow)
        } else {
            Err("no match")
        }
    }

    /// Parses a window name without regard to case. `"hann"` is accepted
    /// for `Hanning`; any other string is answered with `Err("no match")`.
    pub fn from_str(s: &str) -> (r: Result<WindowType, &'static str>)
        ensures
            Self::parsed(lowercase(s@), r),
    {
        let lower = to_lowercase(s);
        Self::from_lowercase(lower.as_str())
    }

    /// The display name, as an owned string.
    pub fn to_string(&self) -> (r: String)
        ensures
            r@ == self.name(),
    {
        match self {
            WindowType::Hanning => "Hanning".to_owned(),
            WindowType::Hamming => "Hamming".to_owned(),
            WindowType::Blackman => "Blackman".to_owned(),
            WindowType::Nuttall => "Nuttall".to_owned(),
            WindowType::NoWindow => "None".to_owned(),
        }
    }
}

impl FromStr for WindowType {
    type Err = &'static str;

    /// Parses as the inherent `from_str` does, for `str::parse`.
    fn from_str(s: &str) -> (r: Result<Self, Self::Err>)
        ensures
            WindowType::parsed(lowercase(s@), r),
    {
        WindowType::from_str(s)
    }
}

} // verus!
