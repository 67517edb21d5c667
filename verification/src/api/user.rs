//! The user as clients see it, and a page of such users.

use crate::entity::Row;
use crate::identifier::{hyphenated, parse, uuid_text, uuid_value};
use crate::management::SearchResult;
use crate::user::userable::Userable;
use vstd::prelude::*;

verus! {

/// A user, as it is sent and received.
#[derive(Debug)]
pub struct User {
    pub id: u128,
    pub first_name: String,
    pub last_name: String,
    pub email: String,
}

impl View for User {
    type V = Row;

    open spec fn view(&self) -> Row {
        Row {
            id: self.id,
            first_name: self.first_name@,
            last_name: self.last_name@,
            email: self.email@,
        }
    }
}

impl Default for User {
    /// The user with the all-zero identifier and empty fields.
    fn default() -> (r: User)
        ensures
            r@ == (Row {
                id: 0,
                first_name: Seq::<char>::empty(),
                last_name: Seq::<char>::empty(),
                email: Seq::<char>::empty(),
            }),
    {
        User { id: 0, first_name: String::new(), last_name: String::new(), email: String::new() }
    }
}

impl Clone for User {
    fn clone(&self) -> (r: User)
        ensures
            r == *self,
    {
        User {
            id: self.id,
            first_name: self.first_name.clone(),
            last_name: self.last_name.clone(),
            email: self.email.clone(),
        }
    }
}

impl Userable for User {
    open spec fn id_text(&self) -> Seq<char> {
        uuid_text(self.id)
    }

    open spec fn first_name(&self) -> Seq<char> {
        self.first_name@
    }

    open spec fn last_name(&self) -> Seq<char> {
        self.last_name@
    }

    open spec fn email(&self) -> Seq<char> {
        self.email@
    }

    /// The identifier in its hyphenated form, which reads back as the
    /// identifier.
    fn get_id(&self) -> (text: String)
        ensures
            uuid_value(text@) == Some(self.id),
    {
        hyphenated(self.id)
    }

    fn get_first_name(&self) -> (name: String) {
        self.first_name.clone()
    }

    fn get_lastname(&self) -> (name: String) {
        self.last_name.clone()
    }

    fn get_email(&self) -> (email: String) {
        self.email.clone()
    }
}

/// What `value` is as a `User`, where its identifier reads as `id`.
pub open spec fn as_row<U: Userable>(value: &U, id: u128) -> Row {
    Row { id, first_name: value.first_name(), last_name: value.last_name(), email: value.email() }
}

impl User {
    /// The user that `value` describes. The identifier of `value` must be
    /// text that reads as an identifier.
    pub fn from_userable<U: Userable>(value: &U) -> (r: User)
        requires
            uuid_value(value.id_text()) is Some,
        ensures
            r@ == as_row(value, uuid_value(value.id_text())->0),
    {
        let text = value.get_id();
        let id = match parse(text.as_str()) {
            Ok(id) => id,
            Err(_) => unreached(),
        };
        User {
            id,
            first_name: value.get_first_name(),
            last_name: value.get_lastname(),
            email: value.get_email(),
        }
    }

    /// The user that `value` describes, or nothing where the identifier of
    /// `value` does not read as one.
    pub fn try_from_userable<U: Userable>(value: &U) -> (r: Option<User>)
        ensures
            match uuid_value(value.id_text()) {
                Some(id) => r matches Some(user) && user@ == as_row(value, id),
                None => r is None,
            },
    {
        let text = value.get_id();
        match parse(text.as_str()) {
            Ok(_) => Some(User::from_userable(value)),
            Err(_) => None,
        }
    }
}

/// One page of users, and the number of pages, as clients see them.
pub struct UserSearchResult {
    pub num_pages: usize,
    pub result: Vec<User>,
}

impl Clone for UserSearchResult {
    fn clone(&self) -> (r: UserSearchResult)
        ensures
            r.num_pages == self.num_pages,
            r.result@ == self.result@,
    {
        UserSearchResult { num_pages: self.num_pages, result: self.get_result() }
    }
}

impl SearchResult for UserSearchResult {
    type Result = User;

    open spec fn num_pages(&self) -> nat {
        self.num_pages as nat
    }

    open spec fn result(&self) -> Seq<User> {
        self.result@
    }

    fn get_num_pages(&self) -> (pages: usize) {
        self.num_pages
    }

    fn get_result(&self) -> (items: Vec<User>) {
        let mut items: Vec<User> = Vec::new();
        let mut i: usize = 0;
        while i < self.result.len()
            invariant
                i <= self.result.len(),
                items@ == self.result@.subrange(0, i as int),
            decreases self.result.len() - i,
        {
            items.push(self.result[i].clone());
            i = i + 1;
        }
        assert(self.result@.subrange(0, i as int) == self.result@);
        items
    }
}

impl UserSearchResult {
    /// Whether every item of `found` has an identifier that reads as one.
    pub open spec fn presentable<R: SearchResult>(found: &R) -> bool where
        R::Result: Userable,
    {
        forall|i: int|
            0 <= i < found.result().len() ==> uuid_value(
                (#[trigger] found.result()[i]).id_text(),
            ) is Some
    }

    /// Whether `shown` presents `found`: the same number of pages, and item
    /// by item the same user.
    pub open spec fn presents<R: SearchResult>(shown: &UserSearchResult, found: &R) -> bool where
        R::Result: Userable,
    {
        &&& shown.num_pages == found.num_pages()
        &&& shown.result@.len() == found.result().len()
        &&& forall|i: int|
            0 <= i < found.result().len() ==> (#[trigger] shown.result@[i])@ == as_row(
                &found.result()[i],
                uuid_value(found.result()[i].id_text())->0,
            )
    }

    /// The page `found`, for clients. Every identifier in it must read as
    /// one.
    pub fn from_result<R: SearchResult>(found: &R) -> (r: UserSearchResult) where
        R::Result: Userable,

        requires
            Self::presentable(found),
        ensures
            Self::presents(&r, found),
    {
        let items = found.get_result();
        let mut result: Vec<User> = Vec::new();
        let mut i: usize = 0;
        while i < items.len()
            invariant
                i <= items.len(),
                items@ == found.result(),
                Self::presentable(found),
                result@.len() == i,
                forall|j: int|
                    0 <= j < i ==> (#[trigger] result@[j])@ == as_row(
                        &found.result()[j],
                        uuid_value(found.result()[j].id_text())->0,
                    ),
            decreases items.len() - i,
        {
            let user = User::from_userable(&items[i]);
            result.push(user);
            i = i + 1;
        }
        UserSearchResult { num_pages: found.get_num_pages(), result }
    }

    /// The page `found`, for clients, or nothing where an identifier in it
    /// does not read as one.
    pub fn try_from_result<R: SearchResult>(found: &R) -> (r: Option<UserSearchResult>) where
        R::Result: Userable,

        ensures
            r is Some <==> Self::presentable(found),
            r matches Some(shown) ==> Self::presents(&shown, found),
    {
        let items = found.get_result();
        let mut i: usize = 0;
        while i < items.len()
            invariant
                i <= items.len(),
                items@ == found.result(),
                forall|j: int|
                    0 <= j < i ==> uuid_value((#[trigger] found.result()[j]).id_text()) is Some,
            decreases items.len() - i,
        {
            let text = items[i].get_id();
            if parse(text.as_str()).is_err() {
                return None;
            }
            i = i + 1;
        }
        Some(Self::from_result(found))
    }
}

} // verus!
