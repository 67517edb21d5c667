//! What the library reads of a user, whatever type holds it.

use vstd::prelude::*;

verus! {

/// A user: an identifier that can be written as text, and three fields.
pub trait Userable: Sync + Send {
    /// The identifier, as text.
    spec fn id_text(&self) -> Seq<char>;

    spec fn first_name(&self) -> Seq<char>;

    spec fn last_name(&self) -> Seq<char>;

    spec fn email(&self) -> Seq<char>;

    fn get_id(&self) -> (text: String)
        ensures
            text@ == self.id_text(),
    ;

    fn get_first_name(&self) -> (name: String)
        ensures
            name@ == self.first_name(),
    ;

    fn get_lastname(&self) -> (name: String)
        ensures
            name@ == self.last_name(),
    ;

    fn get_email(&self) -> (email: String)
        ensures
            email@ == self.email(),
    ;
}

} // verus!
