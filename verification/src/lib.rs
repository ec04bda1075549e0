//! State model of a first-run setup wizard: a fixed, forward-only sequence of
//! pages, a set of independent optional-program toggles, and the free-text
//! fields of an account-creation form. The graphical shell drives this state
//! through the functions here; every transition and edit is specified and
//! verified.

pub mod account;
pub mod content;
pub mod page;
pub mod programs;
pub mod string_utils;
pub mod wizard;

pub use account::AccountInfo;
pub use account::EntryField;
pub use content::ButtonKind;
pub use page::Page;
pub use programs::CheckboxState;
pub use programs::OptionalProgram;
pub use programs::OptionalPrograms;
pub use string_utils::OobeString;
pub use wizard::ButtonStates;
pub use wizard::WizardState;
