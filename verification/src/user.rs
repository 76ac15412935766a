//! The user an event concerns.

use vstd::prelude::*;
use crate::text::{opt_str_view, opt_view};

verus! {

/// The user an event concerns: an identifier, and optionally a name and an
/// e-mail address.
#[derive(Debug)]
pub struct User {
    pub id: String,
    pub name: Option<String>,
    pub email: Option<String>,
}

/// The value of a [`User`], with its texts as character sequences.
pub struct UserView {
    pub id: Seq<char>,
    pub name: Option<Seq<char>>,
    pub email: Option<Seq<char>>,
}

impl View for User {
    type V = UserView;

    open spec fn view(&self) -> UserView {
        UserView { id: self.id@, name: opt_view(self.name), email: opt_view(self.email) }
    }
}

/// An owned copy of an optional text.
pub fn owned_opt(o: Option<&str>) -> (r: Option<String>)
    ensures
        opt_view(r) == opt_str_view(o),
{
    match o {
        Some(v) => Some(v.to_owned()),
        None => None,
    }
}

impl User {
    /// A user with the given identifier, name and e-mail address; an absent
    /// name or address stays absent.
    pub fn new(id: &str, name: Option<&str>, email: Option<&str>) -> (r: User)
        ensures
            r@ == (UserView { id: id@, name: opt_str_view(name), email: opt_str_view(email) }),
    {
        User { id: id.to_owned(), name: owned_opt(name), email: owned_opt(email) }
    }
}

} // verus!
