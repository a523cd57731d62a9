//! Identifiers, one type for each kind, so that one kind is not passed
//! where another is meant.

use vstd::prelude::*;
use vstd::string::*;

verus! {

/// The identifier of a user.
#[derive(Debug, Clone, PartialEq, Eq, Hash)]
pub struct UserId(String);

impl View for UserId {
    type V = Seq<char>;

    closed spec fn view(&self) -> Seq<char> {
        self.0@
    }
}

impl UserId {
    /// The identifier with the text `id`.
    pub fn new(id: String) -> (r: Self)
        ensures
            r@ == id@,
    {
        UserId(id)
    }

    /// The text of the identifier.
    pub fn as_str(&self) -> (s: &str)
        ensures
            s@ == self@,
    {
        self.0.as_str()
    }

    /// The text of the identifier, as an owned string.
    pub fn into_inner(self) -> (s: String)
        ensures
            s@ == self@,
    {
        self.0
    }
}

/// The identifier of a client, that is of an application.
#[derive(Debug, Clone, PartialEq, Eq, Hash)]
pub struct ClientId(String);

impl View for ClientId {
    type V = Seq<char>;

    closed spec fn view(&self) -> Seq<char> {
        self.0@
    }
}

impl ClientId {
    /// The identifier with the text `id`.
    pub fn new(id: String) -> (r: Self)
        ensures
            r@ == id@,
    {
        ClientId(id)
    }

    /// The text of the identifier.
    pub fn as_str(&self) -> (s: &str)
        ensures
            s@ == self@,
    {
        self.0.as_str()
    }

    /// The text of the identifier, as an owned string.
    pub fn into_inner(self) -> (s: String)
        ensures
            s@ == self@,
    {
        self.0
    }
}

/// The identifier of a connection.
#[derive(Debug, Clone, PartialEq, Eq, Hash)]
pub struct ConnectionId(String);

impl View for ConnectionId {
    type V = Seq<char>;

    closed spec fn view(&self) -> Seq<char> {
        self.0@
    }
}

impl ConnectionId {
    /// The identifier with the text `id`.
    pub fn new(id: String) -> (r: Self)
        ensures
            r@ == id@,
    {
        ConnectionId(id)
    }

    /// The text of the identifier.
    pub fn as_str(&self) -> (s: &str)
        ensures
            s@ == self@,
    {
        self.0.as_str()
    }

    /// The text of the identifier, as an owned string.
    pub fn into_inner(self) -> (s: String)
        ensures
            s@ == self@,
    {
        self.0
    }
}

} // verus!
