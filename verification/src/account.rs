//! The account-creation form's state: four free-text fields, stored exactly
//! as entered, with no validation, transformation or truncation.

use vstd::prelude::*;

verus! {

/// One of the text fields on the account page.
#[derive(Clone, Copy, Debug, PartialEq, Eq, Structural)]
pub enum EntryField {
    Fullname,
    Username,
    Password,
    ConfirmPassword,
}

impl EntryField {
    /// Whether a field's contents are masked while typed.
    pub fn hide_entry(self) -> (r: bool)
        ensures
            r == (self == EntryField::Password || self == EntryField::ConfirmPassword),
    {
        match self {
            EntryField::Fullname => false,
            EntryField::Username => false,
            EntryField::Password => true,
            EntryField::ConfirmPassword => true,
        }
    }
}

/// The in-memory session record of what the user typed into the form.
#[derive(Debug)]
pub struct AccountInfo {
    pub name: String,
    pub username: String,
    pub password: String,
    pub confirm_password: String,
}

impl AccountInfo {
    /// The characters currently held by one field.
    pub open spec fn spec_field(self, field: EntryField) -> Seq<char> {
        match field {
            EntryField::Fullname => self.name@,
            EntryField::Username => self.username@,
            EntryField::Password => self.password@,
            EntryField::ConfirmPassword => self.confirm_password@,
        }
    }

    /// Stores an edit of one field verbatim: the field holds exactly the
    /// characters handed in, and no other field changes.
    pub fn set_field(&mut self, field: EntryField, text: String)
        ensures
            final(self).spec_field(field) == text@,
            forall|other: EntryField|
                other != field ==> #[trigger] final(self).spec_field(other) == old(
                    self,
                ).spec_field(other),
    {
        match field {
            EntryField::Fullname => self.name = text,
            EntryField::Username => self.username = text,
            EntryField::Password => self.password = text,
            EntryField::ConfirmPassword => self.confirm_password = text,
        }
    }

    /// Hands out one field's current contents unchanged.
    pub fn field_text(&self, field: EntryField) -> (r: &String)
        ensures
            r@ == self.spec_field(field),
    {
        match field {
            EntryField::Fullname => &self.name,
            EntryField::Username => &self.username,
            EntryField::Password => &self.password,
            EntryField::ConfirmPassword => &self.confirm_password,
        }
    }
}

impl Default for AccountInfo {
    /// Every field of the form starts out empty.
    fn default() -> (r: Self)
        ensures
            r.name@ == Seq::<char>::empty(),
            r.username@ == Seq::<char>::empty(),
            r.password@ == Seq::<char>::empty(),
            r.confirm_password@ == Seq::<char>::empty(),
    {
        Self {
            name: String::new(),
            username: String::new(),
            password: String::new(),
            confirm_password: String::new(),
        }
    }
}

} // verus!
