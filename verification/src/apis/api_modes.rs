//! Whether an API is used for live or practice trading.
use crate::helpers::text::str_eq;
use vstd::prelude::*;

verus! {

/// The mode sets the base API endpoint: some brokers have separate endpoints for practice
/// and live accounts.
#[derive(Clone, Copy, Debug, PartialEq, Eq, Structural, Hash)]
pub enum Mode {
    Live,
    Practice,
}

impl Mode {
    /// The mode's name: `"live"` or `"practice"`.
    pub open spec fn spec_name(self) -> Seq<char> {
        match self {
            Mode::Live => "live"@,
            Mode::Practice => "practice"@,
        }
    }

    /// The mode's name, as it is displayed and serialised.
    pub fn to_str(&self) -> (r: &'static str)
        ensures
            r@ == self.spec_name(),
    {
        match self {
            Mode::Live => "live",
            Mode::Practice => "practice",
        }
    }

    /// The mode named `s`.
    pub fn from_str(s: &str) -> (r: Result<Mode, ()>)
        ensures
            s@ == "live"@ ==> r == Ok::<Mode, ()>(Mode::Live),
            s@ == "practice"@ ==> r == Ok::<Mode, ()>(Mode::Practice),
            s@ != "live"@ && s@ != "practice"@ ==> r is Err,
    {
        proof {
            reveal_strlit("live");
            reveal_strlit("practice");
            assert("live"@.len() != "practice"@.len());
        }
        if str_eq(s, "live") {
            Ok(Mode::Live)
        } else if str_eq(s, "practice") {
            Ok(Mode::Practice)
        } else {
            Err(())
        }
    }
}

/// A mode's name reads back as the mode.
pub proof fn law_mode_name_round_trip(mode: Mode, other: Mode)
    ensures
        (mode.spec_name() == other.spec_name()) == (mode == other),
{
    reveal_strlit("live");
    reveal_strlit("practice");
    assert("live"@.len() != "practice"@.len());
}

} // verus!
