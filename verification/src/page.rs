//! The page chrome's knowledge of where it is: which navbar link counts as
//! active on which page.

use vstd::prelude::*;
use vstd::string::StringExecFns;

use crate::route::Route;

verus! {

/// The browser-tab title of a page: the app's name, a dash, the page's
/// own title.
pub fn page_title(title_prefix: &str) -> (r: String)
    ensures
        r@ == "Gifts - "@ + title_prefix@,
{
    let mut title = "Gifts - ".to_owned();
    title.append(title_prefix);
    title
}

/// The page kinds the header can highlight; `Other` covers the transient
/// redirect and not-found views.
#[derive(Debug, PartialEq, Eq, Clone, Copy, Structural)]
pub enum Page {
    Other,
    Home,
    Login,
    Register,
    Profile,
    GiftIdeas,
    AddGiftIdea,
}

/// Whether a navbar link for `route` counts as active on `page`.
pub open spec fn is_active_spec(page: Page, route: Route) -> bool {
    match (page, route) {
        (Page::Home, Route::Home) => true,
        (Page::Login, Route::Login) => true,
        (Page::Register, Route::Register) => true,
        (Page::Profile, Route::Profile) => true,
        (Page::GiftIdeas, Route::GiftIdeas) => true,
        (Page::AddGiftIdea, Route::AddGiftIdea) => true,
        _ => false,
    }
}

impl Page {
    /// Whether the navbar link for `route` is highlighted on this page.
    pub fn is_active(&self, route: &Route) -> (r: bool)
        ensures
            r == is_active_spec(*self, *route),
    {
        match (self, route) {
            (Page::Home, Route::Home) => true,
            (Page::Login, Route::Login) => true,
            (Page::Register, Route::Register) => true,
            (Page::Profile, Route::Profile) => true,
            (Page::GiftIdeas, Route::GiftIdeas) => true,
            (Page::AddGiftIdea, Route::AddGiftIdea) => true,
            _ => false,
        }
    }
}

} // verus!
