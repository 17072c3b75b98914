//! The modifier keys held down while another key is pressed.

use vstd::prelude::*;

verus! {

/// The set of modifier keys that are held: any of Ctrl, Shift, Alt and the
/// logo key (Windows key, Command, Super). Two sets are equal when they hold
/// the same keys.
#[derive(Debug, Clone, Copy, PartialEq, Eq, Structural, Hash)]
pub struct Modifiers {
    pub ctrl: bool,
    pub shift: bool,
    pub alt: bool,
    pub logo: bool,
}

impl Modifiers {
    /// No modifier held.
    pub open spec fn spec_empty() -> Modifiers {
        Modifiers { ctrl: false, shift: false, alt: false, logo: false }
    }

    /// Ctrl held and nothing else.
    pub open spec fn spec_ctrl() -> Modifiers {
        Modifiers { ctrl: true, shift: false, alt: false, logo: false }
    }

    /// No modifier held.
    #[verifier::when_used_as_spec(spec_empty)]
    pub fn empty() -> (r: Modifiers)
        ensures
            r == Modifiers::spec_empty(),
    {
        Modifiers { ctrl: false, shift: false, alt: false, logo: false }
    }

    /// Ctrl held and nothing else.
    #[verifier::when_used_as_spec(spec_ctrl)]
    pub fn ctrl() -> (r: Modifiers)
        ensures
            r == Modifiers::spec_ctrl(),
    {
        Modifiers { ctrl: true, shift: false, alt: false, logo: false }
    }
}

impl Default for Modifiers {
    fn default() -> (r: Modifiers)
        ensures
            r == Modifiers::spec_empty(),
    {
        Modifiers::empty()
    }
}

} // verus!
