//! The user record as the backend stores it.

use crate::identifier::{hyphenated, uuid_text, uuid_value};
use crate::user::userable::Userable;
use vstd::prelude::*;

verus! {

/// What a stored user is: its identifier and its three fields.
pub struct Row {
    pub id: u128,
    pub first_name: Seq<char>,
    pub last_name: Seq<char>,
    pub email: Seq<char>,
}

/// A stored user.
#[derive(Debug)]
pub struct Model {
    pub id: u128,
    pub first_name: String,
    pub last_name: String,
    pub email: String,
}

impl View for Model {
    type V = Row;

    open spec fn view(&self) -> Row {
        Row {
            id: self.id,
            first_name: self.first_name@,
            last_name: self.last_name@,
            email: self.email@,
        }
    }
}

impl Clone for Model {
    fn clone(&self) -> (r: Model)
        ensures
            r == *self,
    {
        Model {
            id: self.id,
            first_name: self.first_name.clone(),
            last_name: self.last_name.clone(),
            email: self.email.clone(),
        }
    }
}

impl PartialEq for Model {
    fn eq(&self, other: &Model) -> (r: bool) {
        self.id == other.id && self.first_name == other.first_name && self.last_name
            == other.last_name && self.email == other.email
    }
}

impl vstd::std_specs::cmp::PartialEqSpecImpl for Model {
    open spec fn obeys_eq_spec() -> bool {
        true
    }

    open spec fn eq_spec(&self, other: &Model) -> bool {
        self@ == other@
    }
}

impl Eq for Model {

}

impl Userable for Model {
    open spec fn id_text(&self) -> Seq<char> {
        uuid_text(self.id)
    }

    open spec fn first_name(&self) -> Seq<char> {
        self.first_name@
    }

    open spec fn last_name(&self) -> Seq<char> {
        self.last_name@
    }

    open spec fn email(&self) -> Seq<char> {
        self.email@
    }

    /// The identifier in its hyphenated form, which reads back as the
    /// identifier.
    fn get_id(&self) -> (text: String)
        ensures
            uuid_value(text@) == Some(self.id),
    {
        hyphenated(self.id)
    }

    fn get_first_name(&self) -> (name: String) {
        self.first_name.clone()
    }

    fn get_lastname(&self) -> (name: String) {
        self.last_name.clone()
    }

    fn get_email(&self) -> (email: String) {
        self.email.clone()
    }
}

} // verus!
