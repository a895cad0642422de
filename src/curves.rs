//! The insulin action curve families and their constant tables.
use vstd::prelude::*;
use vstd::string::*;

verus! {

/// Insulin action curve family.
#[derive(Debug, Clone, Copy, PartialEq, Eq, Structural)]
pub enum InsulinCurve {
    /// Piecewise-linear (triangular) activity, peak fixed at 75 minutes.
    Bilinear,
    /// Rapid-acting analogues (exponential family, default peak 75 minutes).
    RapidActing,
    /// Ultra-rapid analogues (exponential family, default peak 55 minutes).
    UltraRapid,
}

impl Default for InsulinCurve {
    fn default() -> (r: InsulinCurve)
        ensures
            r == InsulinCurve::RapidActing,
    {
        InsulinCurve::RapidActing
    }
}

impl InsulinCurve {
    pub open spec fn spec_default_peak(self) -> u32 {
        match self {
            InsulinCurve::Bilinear => 75,
            InsulinCurve::RapidActing => 75,
            InsulinCurve::UltraRapid => 55,
        }
    }

    pub open spec fn spec_min_dia(self) -> u32 {
        match self {
            InsulinCurve::Bilinear => 3,
            _ => 5,
        }
    }

    pub open spec fn spec_min_peak(self) -> u32 {
        match self {
            InsulinCurve::Bilinear => 75,
            InsulinCurve::RapidActing => 50,
            InsulinCurve::UltraRapid => 35,
        }
    }

    pub open spec fn spec_max_peak(self) -> u32 {
        match self {
            InsulinCurve::Bilinear => 75,
            InsulinCurve::RapidActing => 120,
            InsulinCurve::UltraRapid => 100,
        }
    }

    /// `peak` brought into `[min, max]`, or the default peak when no custom
    /// peak is used.
    pub open spec fn spec_effective_peak(self, peak: u32, use_custom: bool) -> u32 {
        if !use_custom {
            self.spec_default_peak()
        } else if peak < self.spec_min_peak() {
            self.spec_min_peak()
        } else if peak > self.spec_max_peak() {
            self.spec_max_peak()
        } else {
            peak
        }
    }

    /// The lower-case name of the curve.
    pub open spec fn spec_name(self) -> Seq<char> {
        match self {
            InsulinCurve::Bilinear => "bilinear"@,
            InsulinCurve::RapidActing => "rapid-acting"@,
            InsulinCurve::UltraRapid => "ultra-rapid"@,
        }
    }

    /// Default peak time in minutes.
    pub fn default_peak(&self) -> (r: u32)
        ensures
            r == self.spec_default_peak(),
    {
        match self {
            InsulinCurve::Bilinear => 75,
            InsulinCurve::RapidActing => 75,
            InsulinCurve::UltraRapid => 55,
        }
    }

    /// Minimum duration of insulin action, in whole hours.
    pub fn min_dia(&self) -> (r: u32)
        ensures
            r == self.spec_min_dia(),
    {
        match self {
            InsulinCurve::Bilinear => 3,
            InsulinCurve::RapidActing => 5,
            InsulinCurve::UltraRapid => 5,
        }
    }

    /// Lowest custom peak time accepted, in minutes.
    pub fn min_peak(&self) -> (r: u32)
        ensures
            r == self.spec_min_peak(),
    {
        match self {
            InsulinCurve::Bilinear => 75,
            InsulinCurve::RapidActing => 50,
            InsulinCurve::UltraRapid => 35,
        }
    }

    /// Highest custom peak time accepted, in minutes.
    pub fn max_peak(&self) -> (r: u32)
        ensures
            r == self.spec_max_peak(),
    {
        match self {
            InsulinCurve::Bilinear => 75,
            InsulinCurve::RapidActing => 120,
            InsulinCurve::UltraRapid => 100,
        }
    }

    /// Whether the curve needs a duration of action of five hours or more.
    pub fn requires_long_dia(&self) -> (r: bool)
        ensures
            r == (self.spec_min_dia() >= 5),
    {
        match self {
            InsulinCurve::Bilinear => false,
            InsulinCurve::RapidActing => true,
            InsulinCurve::UltraRapid => true,
        }
    }

    /// Duration of action in minutes, raised to the curve's minimum.
    pub fn effective_dia(&self, dia_minutes: u32) -> (r: u32)
        ensures
            r == if dia_minutes >= 60 * self.spec_min_dia() {
                dia_minutes as int
            } else {
                60 * self.spec_min_dia()
            },
    {
        let least = 60 * self.min_dia();
        if dia_minutes >= least {
            dia_minutes
        } else {
            least
        }
    }

    /// Peak time in minutes: the custom one clamped to the curve's range, or
    /// the default.
    pub fn effective_peak(&self, peak: u32, use_custom: bool) -> (r: u32)
        ensures
            r == self.spec_effective_peak(peak, use_custom),
            self.spec_min_peak() <= r <= self.spec_max_peak(),
    {
        if use_custom {
            let lo = self.min_peak();
            let hi = self.max_peak();
            if peak < lo {
                lo
            } else if peak > hi {
                hi
            } else {
                peak
            }
        } else {
            self.default_peak()
        }
    }

    /// The lower-case, hyphenated name of the curve.
    pub fn to_string(&self) -> (r: String)
        ensures
            r@ == self.spec_name(),
    {
        match self {
            InsulinCurve::Bilinear => String::from_str("bilinear"),
            InsulinCurve::RapidActing => String::from_str("rapid-acting"),
            InsulinCurve::UltraRapid => String::from_str("ultra-rapid"),
        }
    }
}

/// What `str::to_lowercase` makes of a text.
pub uninterp spec fn lower_of(s: Seq<char>) -> Seq<char>;

/// Relies on `str::to_lowercase`: the result depends on the characters alone.
#[verifier::external_body]
fn lowercase(s: &str) -> (r: String)
    ensures
        r@ == lower_of(s@),
{
    s.to_lowercase()
}

/// Whether two texts hold the same characters.
pub fn same_text(a: &str, b: &str) -> (r: bool)
    ensures
        r == (a@ == b@),
{
    let n = a.unicode_len();
    if n != b.unicode_len() {
        return false;
    }
    let mut i: usize = 0;
    while i < n
        invariant
            n == a@.len(),
            n == b@.len(),
            i <= n,
            forall|j: int| 0 <= j < i ==> a@[j] == b@[j],
        decreases n - i,
    {
        if a.get_char(i) != b.get_char(i) {
            return false;
        }
        i = i + 1;
    }
    proof {
        assert(a@ =~= b@);
    }
    true
}

/// The curve that a lower-case name stands for, if any.
pub open spec fn curve_named(l: Seq<char>) -> Option<InsulinCurve> {
    if l == "bilinear"@ {
        Some(InsulinCurve::Bilinear)
    } else if l == "rapid-acting"@ || l == "rapidacting"@ || l == "rapid_acting"@ {
        Some(InsulinCurve::RapidActing)
    } else if l == "ultra-rapid"@ || l == "ultrarapid"@ || l == "ultra_rapid"@ {
        Some(InsulinCurve::UltraRapid)
    } else {
        None
    }
}

/// The message given for a name that is no curve.
pub open spec fn unknown_curve_message(s: Seq<char>) -> Seq<char> {
    "Unknown insulin curve: "@ + s
}

impl InsulinCurve {
    /// Reads a curve from its name once it has been lower-cased; `given`
    /// is the name as given, quoted in the error.
    pub fn from_lowercase(l: &str, given: &str) -> (r: Result<InsulinCurve, String>)
        ensures
            match curve_named(l@) {
                Some(c) => r == Ok::<InsulinCurve, String>(c),
                None => r.is_err() && r->Err_0@ == unknown_curve_message(given@),
            },
    {
        proof {
            reveal_strlit("bilinear");
            reveal_strlit("rapid-acting");
            reveal_strlit("rapidacting");
            reveal_strlit("rapid_acting");
            reveal_strlit("ultra-rapid");
            reveal_strlit("ultrarapid");
            reveal_strlit("ultra_rapid");
        }
        if same_text(l, "bilinear") {
            Ok(InsulinCurve::Bilinear)
        } else if same_text(l, "rapid-acting") || same_text(l, "rapidacting") || same_text(
            l,
            "rapid_acting",
        ) {
            Ok(InsulinCurve::RapidActing)
        } else if same_text(l, "ultra-rapid") || same_text(l, "ultrarapid") || same_text(
            l,
            "ultra_rapid",
        ) {
            Ok(InsulinCurve::UltraRapid)
        } else {
            let mut m = String::from_str("Unknown insulin curve: ");
            m.append(given);
            Err(m)
        }
    }

    /// Reads a curve from its name, in any letter case.
    pub fn parse(s: &str) -> (r: Result<InsulinCurve, String>)
        ensures
            match curve_named(lower_of(s@)) {
                Some(c) => r == Ok::<InsulinCurve, String>(c),
                None => r.is_err() && r->Err_0@ == unknown_curve_message(s@),
            },
    {
        let l = lowercase(s);
        InsulinCurve::from_lowercase(l.as_str(), s)
    }
}

impl std::str::FromStr for InsulinCurve {
    type Err = String;

    fn from_str(s: &str) -> Result<InsulinCurve, String> {
        InsulinCurve::parse(s)
    }
}

} // verus!
