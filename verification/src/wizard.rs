//! The whole session state of the wizard, and the actions the graphical
//! shell exposes: advancing the page, toggling a program, editing a form
//! field, and recording hover feedback. Every action says exactly what it
//! changes and what it leaves alone.

use vstd::prelude::*;

use crate::account::AccountInfo;
use crate::account::EntryField;
use crate::page::Page;
use crate::programs::CheckboxState;
use crate::programs::OptionalProgram;
use crate::programs::OptionalPrograms;

verus! {

/// Whether the continue button of each page is currently hovered. Each page
/// keeps its own flag, as the buttons are distinct widgets.
#[derive(Clone, Copy, Debug, PartialEq, Eq, Structural)]
pub struct ButtonStates {
    pub start_page_button_hovered: bool,
    pub firefox_page_button_hovered: bool,
    pub gmail_page_button_hovered: bool,
    pub optionals_page_button_hovered: bool,
    pub account_page_button_hovered: bool,
}

impl ButtonStates {
    /// The hover flag belonging to one page's continue button.
    pub open spec fn spec_hovered(self, page: Page) -> bool {
        match page {
            Page::Start => self.start_page_button_hovered,
            Page::Firefox => self.firefox_page_button_hovered,
            Page::Gmail => self.gmail_page_button_hovered,
            Page::Optionals => self.optionals_page_button_hovered,
            Page::Account => self.account_page_button_hovered,
        }
    }

    /// Whether one page's continue button is hovered.
    pub fn hovered(&self, page: Page) -> (r: bool)
        ensures
            r == self.spec_hovered(page),
    {
        match page {
            Page::Start => self.start_page_button_hovered,
            Page::Firefox => self.firefox_page_button_hovered,
            Page::Gmail => self.gmail_page_button_hovered,
            Page::Optionals => self.optionals_page_button_hovered,
            Page::Account => self.account_page_button_hovered,
        }
    }

    /// Records whether the pointer rests on one page's continue button,
    /// leaving the other pages' flags alone.
    pub fn set_hovered(&mut self, page: Page, hovered: bool)
        ensures
            final(self).spec_hovered(page) == hovered,
            forall|other: Page|
                other != page ==> #[trigger] final(self).spec_hovered(other) == old(
                    self,
                ).spec_hovered(other),
    {
        match page {
            Page::Start => self.start_page_button_hovered = hovered,
            Page::Firefox => self.firefox_page_button_hovered = hovered,
            Page::Gmail => self.gmail_page_button_hovered = hovered,
            Page::Optionals => self.optionals_page_button_hovered = hovered,
            Page::Account => self.account_page_button_hovered = hovered,
        }
    }
}

impl Default for ButtonStates {
    /// No button is hovered before the pointer first reaches one.
    fn default() -> (r: Self)
        ensures
            r == (ButtonStates {
                start_page_button_hovered: false,
                firefox_page_button_hovered: false,
                gmail_page_button_hovered: false,
                optionals_page_button_hovered: false,
                account_page_button_hovered: false,
            }),
    {
        Self {
            start_page_button_hovered: false,
            firefox_page_button_hovered: false,
            gmail_page_button_hovered: false,
            optionals_page_button_hovered: false,
            account_page_button_hovered: false,
        }
    }
}

/// Everything the wizard remembers during a session. It is created at
/// start-up, mutated only by the actions below, and discarded when the
/// session ends.
#[derive(Debug)]
pub struct WizardState {
    pub current_page: Page,
    pub optional_program_state: OptionalPrograms,
    pub account_info_state: AccountInfo,
    pub button_states: ButtonStates,
}

impl WizardState {
    /// A fresh session: the first page, the default program selection, an
    /// empty form, and nothing hovered.
    pub fn new() -> (r: Self)
        ensures
            r.current_page == Page::Start,
            r.optional_program_state.zoom == (CheckboxState { checked: true, hovered: false }),
            r.optional_program_state.vlc == (CheckboxState { checked: true, hovered: false }),
            r.optional_program_state.lo_writer == (CheckboxState {
                checked: true,
                hovered: false,
            }),
            r.optional_program_state.lo_calc == (CheckboxState {
                checked: false,
                hovered: false,
            }),
            r.optional_program_state.lo_impress == (CheckboxState {
                checked: false,
                hovered: false,
            }),
            r.account_info_state.name@ == Seq::<char>::empty(),
            r.account_info_state.username@ == Seq::<char>::empty(),
            r.account_info_state.password@ == Seq::<char>::empty(),
            r.account_info_state.confirm_password@ == Seq::<char>::empty(),
            r.button_states == (ButtonStates {
                start_page_button_hovered: false,
                firefox_page_button_hovered: false,
                gmail_page_button_hovered: false,
                optionals_page_button_hovered: false,
                account_page_button_hovered: false,
            }),
    {
        Self {
            current_page: Page::default(),
            optional_program_state: OptionalPrograms::default(),
            account_info_state: AccountInfo::default(),
            button_states: ButtonStates::default(),
        }
    }

    /// The continue button was activated: the page advances one step forward,
    /// never backward, and everything else is kept. Returns true exactly when
    /// the terminal page was left, which ends the session.
    pub fn advance_page(&mut self) -> (finished: bool)
        ensures
            finished == old(self).current_page.is_terminal(),
            final(self).current_page == old(self).current_page.next(),
            final(self).current_page.index() >= old(self).current_page.index(),
            final(self).optional_program_state == old(self).optional_program_state,
            final(self).account_info_state.spec_field(EntryField::Fullname) == old(
                self,
            ).account_info_state.spec_field(EntryField::Fullname),
            final(self).account_info_state.spec_field(EntryField::Username) == old(
                self,
            ).account_info_state.spec_field(EntryField::Username),
            final(self).account_info_state.spec_field(EntryField::Password) == old(
                self,
            ).account_info_state.spec_field(EntryField::Password),
            final(self).account_info_state.spec_field(EntryField::ConfirmPassword) == old(
                self,
            ).account_info_state.spec_field(EntryField::ConfirmPassword),
            final(self).button_states == old(self).button_states,
    {
        self.current_page.advance()
    }

    /// A program's checkbox was activated: its selection flips and nothing
    /// else moves.
    pub fn toggle_program(&mut self, program: OptionalProgram)
        ensures
            final(self).current_page == old(self).current_page,
            final(self).optional_program_state.spec_state_of(program).checked == !old(
                self,
            ).optional_program_state.spec_state_of(program).checked,
            final(self).optional_program_state.spec_state_of(program).hovered == old(
                self,
            ).optional_program_state.spec_state_of(program).hovered,
            forall|other: OptionalProgram|
                other != program ==> #[trigger] final(self).optional_program_state.spec_state_of(
                    other,
                ) == old(self).optional_program_state.spec_state_of(other),
            final(self).account_info_state.spec_field(EntryField::Fullname) == old(
                self,
            ).account_info_state.spec_field(EntryField::Fullname),
            final(self).account_info_state.spec_field(EntryField::Username) == old(
                self,
            ).account_info_state.spec_field(EntryField::Username),
            final(self).account_info_state.spec_field(EntryField::Password) == old(
                self,
            ).account_info_state.spec_field(EntryField::Password),
            final(self).account_info_state.spec_field(EntryField::ConfirmPassword) == old(
                self,
            ).account_info_state.spec_field(EntryField::ConfirmPassword),
            final(self).button_states == old(self).button_states,
    {
        self.optional_program_state.toggle(program)
    }

    /// A form field was edited: it now holds exactly the characters typed,
    /// and nothing else moves.
    pub fn edit_field(&mut self, field: EntryField, text: String)
        ensures
            final(self).current_page == old(self).current_page,
            final(self).optional_program_state == old(self).optional_program_state,
            final(self).account_info_state.spec_field(field) == text@,
            forall|other: EntryField|
                other != field ==> #[trigger] final(self).account_info_state.spec_field(other)
                    == old(self).account_info_state.spec_field(other),
            final(self).button_states == old(self).button_states,
    {
        self.account_info_state.set_field(field, text)
    }
}

} // verus!
