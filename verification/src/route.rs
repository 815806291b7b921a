//! The client-side routes: which page a browser path leads to.

use vstd::prelude::*;

use crate::text::str_eq;

verus! {

/// The pages the client can navigate to.
#[derive(Debug, PartialEq, Eq, Clone, Copy, Structural)]
pub enum Route {
    Home,
    Login,
    Logout,
    Register,
    Profile,
    GiftIdeas,
    AddGiftIdea,
}

impl Route {
    /// The path segments of this route; home is the empty path.
    pub fn path(&self) -> (r: Vec<&'static str>)
        ensures
            match self {
                Route::Home => r@.len() == 0,
                Route::Login => r@.len() == 1 && r@[0]@ == "login"@,
                Route::Logout => r@.len() == 1 && r@[0]@ == "logout"@,
                Route::Register => r@.len() == 1 && r@[0]@ == "register"@,
                Route::Profile => r@.len() == 1 && r@[0]@ == "profile"@,
                Route::GiftIdeas => r@.len() == 1 && r@[0]@ == "gift_ideas"@,
                Route::AddGiftIdea => r@.len() == 1 && r@[0]@ == "add_gift_idea"@,
            },
    {
        match self {
            Route::Home => vec![],
            Route::Login => vec!["login"],
            Route::Logout => vec!["logout"],
            Route::Register => vec!["register"],
            Route::Profile => vec!["profile"],
            Route::GiftIdeas => vec!["gift_ideas"],
            Route::AddGiftIdea => vec!["add_gift_idea"],
        }
    }

    /// The route a URL's first path segment names, if any.
    pub open spec fn of_segment(segment: Option<Seq<char>>) -> Result<Route, ()> {
        match segment {
            None => Ok(Route::Home),
            Some(s) => if s == ""@ {
                Ok(Route::Home)
            } else if s == "login"@ {
                Ok(Route::Login)
            } else if s == "logout"@ {
                Ok(Route::Logout)
            } else if s == "register"@ {
                Ok(Route::Register)
            } else if s == "home"@ {
                Ok(Route::Home)
            } else if s == "profile"@ {
                Ok(Route::Profile)
            } else if s == "gift_ideas"@ {
                Ok(Route::GiftIdeas)
            } else if s == "add_gift_idea"@ {
                Ok(Route::AddGiftIdea)
            } else {
                Err(())
            },
        }
    }

    /// Parse a URL's first path segment into a route; an unknown segment
    /// is rejected.
    pub fn try_from_segment(segment: Option<&str>) -> (r: Result<Route, ()>)
        ensures
            r == Route::of_segment(
                match segment {
                    Some(s) => Some(s@),
                    None => None,
                },
            ),
    {
        match segment {
            None => Ok(Route::Home),
            Some(s) => if str_eq(s, "") {
                Ok(Route::Home)
            } else if str_eq(s, "login") {
                Ok(Route::Login)
            } else if str_eq(s, "logout") {
                Ok(Route::Logout)
            } else if str_eq(s, "register") {
                Ok(Route::Register)
            } else if str_eq(s, "home") {
                Ok(Route::Home)
            } else if str_eq(s, "profile") {
                Ok(Route::Profile)
            } else if str_eq(s, "gift_ideas") {
                Ok(Route::GiftIdeas)
            } else if str_eq(s, "add_gift_idea") {
                Ok(Route::AddGiftIdea)
            } else {
                Err(())
            },
        }
    }
}

} // verus!
