//! The identity behind one connection.

use vstd::prelude::*;

verus! {

/// A connected user. `room` is the room the user is currently joined to;
/// `key` is the session's symmetric secret.
#[derive(Clone, Debug, PartialEq, Eq)]
pub struct User {
    pub id: u64,
    pub name: String,
    pub room: u64,
    pub token: Option<String>,
    pub key: [u8; 32],
}

pub struct UserView {
    pub id: u64,
    pub name: Seq<char>,
    pub room: u64,
    pub token: Option<Seq<char>>,
    pub key: Seq<u8>,
}

impl View for User {
    type V = UserView;

    open spec fn view(&self) -> UserView {
        UserView {
            id: self.id,
            name: self.name@,
            room: self.room,
            token: match self.token {
                Some(t) => Some(t@),
                None => None,
            },
            key: self.key@,
        }
    }
}

} // verus!
