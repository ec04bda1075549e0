//! A small extension trait for reading a string as an affirmative answer.

use vstd::prelude::*;

verus! {

/// Strings that can be read as a yes-or-no answer.
pub trait OobeString {
    /// What counts as an affirmative answer for this value.
    spec fn spec_is_yes(&self) -> bool;

    /// Whether the value spells an affirmative answer.
    fn is_yes(&self) -> (r: bool)
        ensures
            r == self.spec_is_yes(),
    ;
}

impl OobeString for String {
    /// Exactly the words "yes" and "y" are affirmative.
    open spec fn spec_is_yes(&self) -> bool {
        self@ == "yes"@ || self@ == "y"@
    }

    fn is_yes(&self) -> (r: bool) {
        self.as_str().is_yes()
    }
}

impl<'a> OobeString for &'a str {
    /// Exactly the words "yes" and "y" are affirmative.
    open spec fn spec_is_yes(&self) -> bool {
        self@ == "yes"@ || self@ == "y"@
    }

    fn is_yes(&self) -> (r: bool) {
        let own: String = (*self).to_owned();
        let yes: String = "yes".to_owned();
        let y: String = "y".to_owned();
        own == yes || own == y
    }
}

} // verus!
