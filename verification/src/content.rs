//! The fixed content of the wizard: which heading each page shows, which
//! continue button it carries, and the label, hint and description texts of
//! the form fields and offered programs. The graphical shell only draws what
//! these functions decide.

use vstd::prelude::*;

use crate::account::EntryField;
use crate::page::Page;
use crate::programs::OptionalProgram;

verus! {

/// Which artwork the continue button of a page wears.
#[derive(Clone, Copy, Debug, PartialEq, Eq, Structural)]
pub enum ButtonKind {
    Start,
    Next,
    Finish,
}

/// The continue button shown on a page: the opening page invites the user to
/// start, the terminal page to finish, every page between to go on.
pub fn button_kind(page: Page) -> (r: ButtonKind)
    ensures
        r == spec_button_kind(page),
{
    match page {
        Page::Start => ButtonKind::Start,
        Page::Firefox => ButtonKind::Next,
        Page::Gmail => ButtonKind::Next,
        Page::Optionals => ButtonKind::Next,
        Page::Account => ButtonKind::Finish,
    }
}

/// The button kind belonging to each page.
pub open spec fn spec_button_kind(page: Page) -> ButtonKind {
    match page {
        Page::Start => ButtonKind::Start,
        Page::Firefox => ButtonKind::Next,
        Page::Gmail => ButtonKind::Next,
        Page::Optionals => ButtonKind::Next,
        Page::Account => ButtonKind::Finish,
    }
}

/// The heading text of each page.
pub open spec fn spec_heading_text(page: Page) -> Seq<char> {
    match page {
        Page::Start => "Let's get you\nstarted."@,
        Page::Firefox => "You can use Firefox to\nbrowse the web."@,
        Page::Gmail => "You can use Gmail to\nsend and receive emails."@,
        Page::Optionals => "Select optional programs."@,
        Page::Account => "Create a user account."@,
    }
}

/// The heading shown at the top of a page.
pub fn heading_text(page: Page) -> (r: &'static str)
    ensures
        r@ == spec_heading_text(page),
{
    match page {
        Page::Start => "Let's get you\nstarted.",
        Page::Firefox => "You can use Firefox to\nbrowse the web.",
        Page::Gmail => "You can use Gmail to\nsend and receive emails.",
        Page::Optionals => "Select optional programs.",
        Page::Account => "Create a user account.",
    }
}

/// The display name of each offered program.
pub open spec fn spec_program_name(program: OptionalProgram) -> Seq<char> {
    match program {
        OptionalProgram::Zoom => "Zoom"@,
        OptionalProgram::Vlc => "VLC"@,
        OptionalProgram::LoWriter => "LibreOffice Writer"@,
        OptionalProgram::LoCalc => "LibreOffice Calc"@,
        OptionalProgram::LoImpress => "LibreOffice Impress"@,
    }
}

/// The name under which a program is listed.
pub fn program_name(program: OptionalProgram) -> (r: &'static str)
    ensures
        r@ == spec_program_name(program),
{
    match program {
        OptionalProgram::Zoom => "Zoom",
        OptionalProgram::Vlc => "VLC",
        OptionalProgram::LoWriter => "LibreOffice Writer",
        OptionalProgram::LoCalc => "LibreOffice Calc",
        OptionalProgram::LoImpress => "LibreOffice Impress",
    }
}

/// The one-line description of each offered program.
pub open spec fn spec_program_description(program: OptionalProgram) -> Seq<char> {
    match program {
        OptionalProgram::Zoom => "Join video calls with friends, family, and coworkers."@,
        OptionalProgram::Vlc => "Play audio and video files, such as music and movies."@,
        OptionalProgram::LoWriter => "Create and edit document, similar to MS Word."@,
        OptionalProgram::LoCalc => "Create and edit spreadsheets, similar to MS Excel."@,
        OptionalProgram::LoImpress => "Create and edit slideshows, similar to MS PowerPoint."@,
    }
}

/// The description shown under a program's name.
pub fn program_description(program: OptionalProgram) -> (r: &'static str)
    ensures
        r@ == spec_program_description(program),
{
    match program {
        OptionalProgram::Zoom => "Join video calls with friends, family, and coworkers.",
        OptionalProgram::Vlc => "Play audio and video files, such as music and movies.",
        OptionalProgram::LoWriter => "Create and edit document, similar to MS Word.",
        OptionalProgram::LoCalc => "Create and edit spreadsheets, similar to MS Excel.",
        OptionalProgram::LoImpress => "Create and edit slideshows, similar to MS PowerPoint.",
    }
}

/// The programs in the order the selection screen lists them.
pub fn program_order() -> (r: Vec<OptionalProgram>)
    ensures
        r@ == seq![
            OptionalProgram::Zoom,
            OptionalProgram::Vlc,
            OptionalProgram::LoWriter,
            OptionalProgram::LoCalc,
            OptionalProgram::LoImpress,
        ],
{
    let mut order: Vec<OptionalProgram> = Vec::new();
    order.push(OptionalProgram::Zoom);
    order.push(OptionalProgram::Vlc);
    order.push(OptionalProgram::LoWriter);
    order.push(OptionalProgram::LoCalc);
    order.push(OptionalProgram::LoImpress);
    proof {
        assert(order@ =~= seq![
            OptionalProgram::Zoom,
            OptionalProgram::Vlc,
            OptionalProgram::LoWriter,
            OptionalProgram::LoCalc,
            OptionalProgram::LoImpress,
        ]);
    }
    order
}

/// The label printed above each text field of the form.
pub open spec fn spec_field_name(field: EntryField) -> Seq<char> {
    match field {
        EntryField::Fullname => "Full Name"@,
        EntryField::Username => "Username"@,
        EntryField::Password => "Password"@,
        EntryField::ConfirmPassword => "Confirm Password"@,
    }
}

/// The label a text field carries.
pub fn field_name(field: EntryField) -> (r: &'static str)
    ensures
        r@ == spec_field_name(field),
{
    match field {
        EntryField::Fullname => "Full Name",
        EntryField::Username => "Username",
        EntryField::Password => "Password",
        EntryField::ConfirmPassword => "Confirm Password",
    }
}

/// The placeholder shown in an empty field; the masked fields have none.
pub fn field_hint(field: EntryField) -> (r: Option<&'static str>)
    ensures
        match field {
            EntryField::Fullname => r is Some && r->0@ == "Willem Dafoe"@,
            EntryField::Username => r is Some && r->0@ == "willdafoe"@,
            EntryField::Password => r is None,
            EntryField::ConfirmPassword => r is None,
        },
{
    match field {
        EntryField::Fullname => Some("Willem Dafoe"),
        EntryField::Username => Some("willdafoe"),
        EntryField::Password => None,
        EntryField::ConfirmPassword => None,
    }
}

/// The warning printed beside the password fields.
pub fn password_warning() -> (r: &'static str)
    ensures
        r@ == "If you forget this password, you will\nlose all of your files and programs."@,
{
    "If you forget this password, you will\nlose all of your files and programs."
}

} // verus!
