//! The optional-software selection screen's state: five independent
//! checkboxes, one per offered program, each with a checked and a hovered
//! flag.

use vstd::prelude::*;

verus! {

/// Visual and logical state of one checkbox.
#[derive(Clone, Copy, Debug, PartialEq, Eq, Structural)]
pub struct CheckboxState {
    pub checked: bool,
    pub hovered: bool,
}

impl CheckboxState {
    /// A checkbox in its resting (not hovered) state with the given mark.
    pub fn checked(checked: bool) -> (r: Self)
        ensures
            r.checked == checked,
            !r.hovered,
    {
        Self { checked, hovered: false }
    }
}

/// One of the programs offered on the optional-software page.
#[derive(Clone, Copy, Debug, PartialEq, Eq, Structural)]
pub enum OptionalProgram {
    Zoom,
    Vlc,
    LoWriter,
    LoCalc,
    LoImpress,
}

/// The checkbox states of every offered program.
#[derive(Clone, Copy, Debug, PartialEq, Eq, Structural)]
pub struct OptionalPrograms {
    pub zoom: CheckboxState,
    pub vlc: CheckboxState,
    pub lo_writer: CheckboxState,
    pub lo_calc: CheckboxState,
    pub lo_impress: CheckboxState,
}

impl OptionalPrograms {
    /// The checkbox state belonging to one program.
    pub open spec fn spec_state_of(self, program: OptionalProgram) -> CheckboxState {
        match program {
            OptionalProgram::Zoom => self.zoom,
            OptionalProgram::Vlc => self.vlc,
            OptionalProgram::LoWriter => self.lo_writer,
            OptionalProgram::LoCalc => self.lo_calc,
            OptionalProgram::LoImpress => self.lo_impress,
        }
    }

    /// Whether one program is currently selected.
    pub fn is_checked(&self, program: OptionalProgram) -> (r: bool)
        ensures
            r == self.spec_state_of(program).checked,
    {
        match program {
            OptionalProgram::Zoom => self.zoom.checked,
            OptionalProgram::Vlc => self.vlc.checked,
            OptionalProgram::LoWriter => self.lo_writer.checked,
            OptionalProgram::LoCalc => self.lo_calc.checked,
            OptionalProgram::LoImpress => self.lo_impress.checked,
        }
    }

    /// Flips one program's selection when its checkbox is activated. The
    /// toggles are independent: every other program's state is untouched,
    /// and so is the hovered flag of the toggled one.
    pub fn toggle(&mut self, program: OptionalProgram)
        ensures
            final(self).spec_state_of(program).checked == !old(self).spec_state_of(
                program,
            ).checked,
            final(self).spec_state_of(program).hovered == old(self).spec_state_of(
                program,
            ).hovered,
            forall|other: OptionalProgram|
                other != program ==> #[trigger] final(self).spec_state_of(other) == old(
                    self,
                ).spec_state_of(other),
    {
        match program {
            OptionalProgram::Zoom => self.zoom.checked = !self.zoom.checked,
            OptionalProgram::Vlc => self.vlc.checked = !self.vlc.checked,
            OptionalProgram::LoWriter => self.lo_writer.checked = !self.lo_writer.checked,
            OptionalProgram::LoCalc => self.lo_calc.checked = !self.lo_calc.checked,
            OptionalProgram::LoImpress => self.lo_impress.checked = !self.lo_impress.checked,
        }
    }

    /// Records whether the pointer rests on one program's checkbox, touching
    /// nothing else.
    pub fn set_hovered(&mut self, program: OptionalProgram, hovered: bool)
        ensures
            final(self).spec_state_of(program).hovered == hovered,
            final(self).spec_state_of(program).checked == old(self).spec_state_of(
                program,
            ).checked,
            forall|other: OptionalProgram|
                other != program ==> #[trigger] final(self).spec_state_of(other) == old(
                    self,
                ).spec_state_of(other),
    {
        match program {
            OptionalProgram::Zoom => self.zoom.hovered = hovered,
            OptionalProgram::Vlc => self.vlc.hovered = hovered,
            OptionalProgram::LoWriter => self.lo_writer.hovered = hovered,
            OptionalProgram::LoCalc => self.lo_calc.hovered = hovered,
            OptionalProgram::LoImpress => self.lo_impress.hovered = hovered,
        }
    }
}

impl Default for OptionalPrograms {
    /// The selection the wizard opens with: the first three programs are
    /// preselected, the office spreadsheet and slideshow tools are not.
    fn default() -> (r: Self)
        ensures
            r.zoom == (CheckboxState { checked: true, hovered: false }),
            r.vlc == (CheckboxState { checked: true, hovered: false }),
            r.lo_writer == (CheckboxState { checked: true, hovered: false }),
            r.lo_calc == (CheckboxState { checked: false, hovered: false }),
            r.lo_impress == (CheckboxState { checked: false, hovered: false }),
    {
        Self {
            zoom: CheckboxState::checked(true),
            vlc: CheckboxState::checked(true),
            lo_writer: CheckboxState::checked(true),
            lo_calc: CheckboxState::checked(false),
            lo_impress: CheckboxState::checked(false),
        }
    }
}

} // verus!
