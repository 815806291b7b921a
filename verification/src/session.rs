//! The client-side session: who, if anyone, is logged in on this browser.

use vstd::prelude::*;

use crate::shared::LoggedUser;

verus! {

/// Either a logged-in viewer or a guest.
#[derive(Debug, PartialEq, Eq)]
pub enum Session {
    LoggedIn(LoggedUser),
    Guest,
}

impl Clone for Session {
    fn clone(&self) -> (r: Self)
        ensures
            r == *self,
    {
        match self {
            Session::LoggedIn(viewer) => Session::LoggedIn(viewer.clone()),
            Session::Guest => Session::Guest,
        }
    }
}

impl Default for Session {
    /// A fresh client starts out as a guest.
    fn default() -> (r: Self)
        ensures
            r is Guest,
    {
        Session::Guest
    }
}

impl Session {
    /// The session a stored user record gives rise to: logged in when one
    /// was stored, guest otherwise.
    pub fn new(viewer: Option<LoggedUser>) -> (r: Self)
        ensures
            match viewer {
                Some(user) => r == Session::LoggedIn(user),
                None => r is Guest,
            },
    {
        match viewer {
            Some(viewer) => Self::LoggedIn(viewer),
            None => Self::Guest,
        }
    }

    /// The logged-in user, if there is one.
    pub fn viewer(&self) -> (r: Option<&LoggedUser>)
        ensures
            match self {
                Session::LoggedIn(user) => r == Some(user),
                Session::Guest => r is None,
            },
    {
        match self {
            Self::LoggedIn(viewer) => Some(viewer),
            Self::Guest => None,
        }
    }
}

} // verus!
