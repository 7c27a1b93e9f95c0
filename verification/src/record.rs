//! The credential record and its mathematical model.

use vstd::prelude::*;

verus! {

/// What a record is, as plain mathematical values.
pub struct PasswordView {
    pub id: usize,
    pub title: Seq<char>,
    pub username: Seq<char>,
    pub password: Seq<char>,
}

/// One stored credential. An `id` of zero marks a record that the store has
/// not yet persisted.
#[derive(Debug, PartialEq, Eq)]
pub struct Password {
    pub id: usize,
    pub title: String,
    pub username: String,
    pub password: String,
}

impl View for Password {
    type V = PasswordView;

    open spec fn view(&self) -> PasswordView {
        PasswordView {
            id: self.id,
            title: self.title@,
            username: self.username@,
            password: self.password@,
        }
    }
}

impl Clone for Password {
    fn clone(&self) -> (copy: Self)
        ensures
            copy@ == self@,
    {
        Password {
            id: self.id,
            title: self.title.clone(),
            username: self.username.clone(),
            password: self.password.clone(),
        }
    }
}

impl Password {
    /// A record that has not been persisted: its id is the placeholder zero.
    pub fn new(title: String, username: String, password: String) -> (record: Password)
        ensures
            record@ == (PasswordView { id: 0, title: title@, username: username@, password: password@ }),
    {
        Password { id: 0, title, username, password }
    }

    /// A record as the store holds it, under the id that the store assigned.
    pub fn new_with_id(id: usize, title: String, username: String, password: String) -> (record:
        Password)
        ensures
            record@ == (PasswordView { id, title: title@, username: username@, password: password@ }),
    {
        Password { id, title, username, password }
    }
}

} // verus!
