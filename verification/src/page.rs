//! The wizard's page sequencer: a fixed total order of pages, advanced
//! strictly forward by a single parameterless action.

use vstd::prelude::*;

verus! {

/// One discrete full-screen step of the wizard's linear flow.
#[derive(Clone, Copy, Debug, PartialEq, Eq, Structural)]
pub enum Page {
    Start,
    Firefox,
    Gmail,
    Optionals,
    Account,
}

impl Page {
    /// Position of a page in the fixed order, counted from the first.
    pub open spec fn index(self) -> int {
        match self {
            Page::Start => 0,
            Page::Firefox => 1,
            Page::Gmail => 2,
            Page::Optionals => 3,
            Page::Account => 4,
        }
    }

    /// The page shown after one advance action. The terminal page has no
    /// successor: advancing from it ends the session, so it maps to itself.
    pub open spec fn next(self) -> Page {
        match self {
            Page::Start => Page::Firefox,
            Page::Firefox => Page::Gmail,
            Page::Gmail => Page::Optionals,
            Page::Optionals => Page::Account,
            Page::Account => Page::Account,
        }
    }

    /// Whether this is the last page of the flow.
    pub open spec fn is_terminal(self) -> bool {
        self == Page::Account
    }

    /// Advances the page when the user activates the continue button.
    /// Returns true exactly when the action was taken on the terminal page,
    /// which tells the caller to end the session instead of showing more.
    pub fn advance(&mut self) -> (finished: bool)
        ensures
            finished == old(self).is_terminal(),
            *final(self) == old(self).next(),
            final(self).index() >= old(self).index(),
    {
        match *self {
            Page::Start => {
                *self = Page::Firefox;
                false
            },
            Page::Firefox => {
                *self = Page::Gmail;
                false
            },
            Page::Gmail => {
                *self = Page::Optionals;
                false
            },
            Page::Optionals => {
                *self = Page::Account;
                false
            },
            Page::Account => true,
        }
    }
}

impl Default for Page {
    /// The wizard opens on the first page.
    fn default() -> (r: Self)
        ensures
            r == Page::Start,
    {
        Page::Start
    }
}

/// The page reached after `n` advance actions, starting from the first page.
pub open spec fn page_after(n: nat) -> Page
    decreases n,
{
    if n == 0 {
        Page::Start
    } else {
        page_after((n - 1) as nat).next()
    }
}

/// The pages visited from the start form the fixed prefix
/// Start, Firefox, Gmail, Optionals, Account, and every further advance
/// stays on the terminal page, where the action ends the session.
pub proof fn lemma_page_sequence()
    ensures
        page_after(0) == Page::Start,
        page_after(1) == Page::Firefox,
        page_after(2) == Page::Gmail,
        page_after(3) == Page::Optionals,
        forall|n: nat| n >= 4 ==> #[trigger] page_after(n) == Page::Account,
{
    reveal_with_fuel(page_after, 5);
    assert forall|n: nat| n >= 4 implies #[trigger] page_after(n) == Page::Account by {
        lemma_page_after_terminal(n);
    }
}

/// After four advances the flow sits on the terminal page for good.
proof fn lemma_page_after_terminal(n: nat)
    requires
        n >= 4,
    ensures
        page_after(n) == Page::Account,
    decreases n,
{
    if n > 4 {
        lemma_page_after_terminal((n - 1) as nat);
    } else {
        reveal_with_fuel(page_after, 5);
    }
}

/// No exposed action moves the wizard to an earlier page: a page's successor
/// never sits before it in the fixed order.
pub proof fn lemma_no_backward_transition(p: Page)
    ensures
        p.next().index() >= p.index(),
{
}

} // verus!
