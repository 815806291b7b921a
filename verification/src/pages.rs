//! The client's page machinery as a state machine: the tagged union of page
//! models, the forms the pages carry, and the dispatch that turns a route
//! change or a global message into the next page model plus the outside
//! effects the browser shell must perform (storage writes, navigation,
//! fetches).

use vstd::prelude::*;

use crate::route::Route;
use crate::session::Session;
use crate::shared::GiftIdeaRequestBody;
use crate::shared::GiftIdeaResponseBody;
use crate::shared::LoggedUser;
use crate::shared::LoginRequestBody;
use crate::shared::MinimalUserInfo;
use crate::shared::RegisterRequestBody;

verus! {

/// The login form.
#[derive(Debug, PartialEq, Eq)]
pub struct LoginForm {
    pub email: String,
    pub password: String,
}

impl Default for LoginForm {
    /// Both fields start out blank.
    fn default() -> (r: Self)
        ensures
            r.email@ == Seq::<char>::empty(),
            r.password@ == Seq::<char>::empty(),
    {
        LoginForm { email: String::new(), password: String::new() }
    }
}

impl From<LoginForm> for LoginRequestBody {
    fn from(form: LoginForm) -> (r: LoginRequestBody) {
        LoginRequestBody { email: form.email, password: form.password }
    }
}

impl vstd::std_specs::convert::FromSpecImpl<LoginForm> for LoginRequestBody {
    open spec fn obeys_from_spec() -> bool {
        true
    }

    open spec fn from_spec(form: LoginForm) -> LoginRequestBody {
        LoginRequestBody { email: form.email, password: form.password }
    }
}

/// The registration form; the password must be typed twice.
#[derive(Debug, PartialEq, Eq)]
pub struct RegisterForm {
    pub first_name: String,
    pub last_name: String,
    pub email: String,
    pub phone: String,
    pub password: String,
    pub confirm_password: String,
}

impl Default for RegisterForm {
    /// Every field starts out blank.
    fn default() -> (r: Self)
        ensures
            r.first_name@ == Seq::<char>::empty(),
            r.last_name@ == Seq::<char>::empty(),
            r.email@ == Seq::<char>::empty(),
            r.phone@ == Seq::<char>::empty(),
            r.password@ == Seq::<char>::empty(),
            r.confirm_password@ == Seq::<char>::empty(),
    {
        RegisterForm {
            first_name: String::new(),
            last_name: String::new(),
            email: String::new(),
            phone: String::new(),
            password: String::new(),
            confirm_password: String::new(),
        }
    }
}

impl RegisterForm {
    /// The form only submits once the confirmation matches the password.
    pub fn submit_allowed(&self) -> (r: bool)
        ensures
            r == (self.confirm_password@ == self.password@),
    {
        crate::text::str_eq(self.confirm_password.as_str(), self.password.as_str())
    }
}

impl From<RegisterForm> for RegisterRequestBody {
    fn from(form: RegisterForm) -> (r: RegisterRequestBody) {
        RegisterRequestBody {
            email: form.email,
            password: form.password,
            first_name: Some(form.first_name),
            last_name: Some(form.last_name),
            phone: Some(form.phone),
        }
    }
}

impl vstd::std_specs::convert::FromSpecImpl<RegisterForm> for RegisterRequestBody {
    open spec fn obeys_from_spec() -> bool {
        true
    }

    open spec fn from_spec(form: RegisterForm) -> RegisterRequestBody {
        RegisterRequestBody {
            email: form.email,
            password: form.password,
            first_name: Some(form.first_name),
            last_name: Some(form.last_name),
            phone: Some(form.phone),
        }
    }
}

/// The add-gift-idea form.
#[derive(Debug, PartialEq, Eq)]
pub struct AddGiftForm {
    pub title: String,
    pub description: String,
    pub price: String,
    pub url: String,
    pub owner_id: i32,
    pub recipient_user_id: i32,
}

impl Default for AddGiftForm {
    /// Blank text fields, no owner, and the placeholder recipient `0`.
    fn default() -> (r: Self)
        ensures
            r.title@ == Seq::<char>::empty(),
            r.description@ == Seq::<char>::empty(),
            r.price@ == Seq::<char>::empty(),
            r.url@ == Seq::<char>::empty(),
            r.owner_id == 0,
            r.recipient_user_id == 0,
    {
        AddGiftForm {
            title: String::new(),
            description: String::new(),
            price: String::new(),
            url: String::new(),
            owner_id: 0,
            recipient_user_id: 0,
        }
    }
}

impl AddGiftForm {
    /// The form only submits once a title is typed and a recipient picked
    /// (the placeholder entry carries id `0`).
    pub fn submit_allowed(&self) -> (r: bool)
        ensures
            r == (self.title@.len() > 0 && self.recipient_user_id != 0),
    {
        !self.title.as_str().is_empty() && self.recipient_user_id != 0
    }
}

impl From<AddGiftForm> for GiftIdeaRequestBody {
    fn from(form: AddGiftForm) -> (r: GiftIdeaRequestBody) {
        GiftIdeaRequestBody {
            title: form.title,
            description: Some(form.description),
            price: Some(form.price),
            url: Some(form.url),
            owner_id: form.owner_id,
            recipient_user_id: form.recipient_user_id,
        }
    }
}

impl vstd::std_specs::convert::FromSpecImpl<AddGiftForm> for GiftIdeaRequestBody {
    open spec fn obeys_from_spec() -> bool {
        true
    }

    open spec fn from_spec(form: AddGiftForm) -> GiftIdeaRequestBody {
        GiftIdeaRequestBody {
            title: form.title,
            description: Some(form.description),
            price: Some(form.price),
            url: Some(form.url),
            owner_id: form.owner_id,
            recipient_user_id: form.recipient_user_id,
        }
    }
}

/// The model of the gift-list page.
#[derive(Debug)]
pub struct GiftIdeasModel {
    pub session: Session,
    pub gift_ideas: Vec<GiftIdeaResponseBody>,
}

/// The model of the add-gift-idea page.
#[derive(Debug)]
pub struct AddGiftModel {
    pub session: Session,
    pub recipients: Vec<MinimalUserInfo>,
    pub form: AddGiftForm,
}

/// The model of the profile page.
#[derive(Debug)]
pub struct ProfileModel {
    pub session: Session,
    pub email: String,
    pub first_name: String,
    pub last_name: String,
    pub phone: String,
}

/// One model per page kind: the client is always on exactly one page, and
/// every page carries the session.
#[derive(Debug)]
pub enum PageModel {
    Redirect(Session),
    NotFound(Session),
    Home(Session),
    Login(Session, LoginForm),
    Register(Session, RegisterForm),
    Profile(ProfileModel),
    GiftIdeas(GiftIdeasModel),
    AddGiftIdea(AddGiftModel),
}

impl Default for PageModel {
    /// A fresh client starts on the transient redirect view as a guest.
    fn default() -> (r: Self)
        ensures
            r == PageModel::Redirect(Session::Guest),
    {
        PageModel::Redirect(Session::Guest)
    }
}

/// The session a page model carries.
pub open spec fn session_of_spec(model: PageModel) -> Session {
    match model {
        PageModel::Redirect(session) => session,
        PageModel::NotFound(session) => session,
        PageModel::Home(session) => session,
        PageModel::Login(session, _) => session,
        PageModel::Register(session, _) => session,
        PageModel::Profile(m) => m.session,
        PageModel::GiftIdeas(m) => m.session,
        PageModel::AddGiftIdea(m) => m.session,
    }
}

/// Take the session out of a page model, as the router does before it
/// builds the next page.
pub fn session_of(model: PageModel) -> (r: Session)
    ensures
        r == session_of_spec(model),
{
    match model {
        PageModel::Redirect(session) => session,
        PageModel::NotFound(session) => session,
        PageModel::Home(session) => session,
        PageModel::Login(session, _) => session,
        PageModel::Register(session, _) => session,
        PageModel::Profile(m) => m.session,
        PageModel::GiftIdeas(m) => m.session,
        PageModel::AddGiftIdea(m) => m.session,
    }
}

/// What the browser shell must do after a dispatch step: everything here
/// is outside work — storage, navigation, network — performed in order.
#[derive(Debug, PartialEq, Eq)]
pub enum Effect {
    /// Drop the stored user record from browser storage.
    RemoveStoredUser,
    /// Broadcast the new session to every page.
    SendSessionChanged(Session),
    /// Navigate to a route (and broadcast that it was pushed).
    GoTo(Route),
    /// Ask the API for every gift idea.
    FetchAllGifts,
    /// Ask the API for every user's minimal info.
    FetchAllUsers,
    /// Hand a route to the router without touching the browser history.
    RouteChanged(Route),
}

/// A message every page can hear: a route was pushed, or the session
/// changed after a login or logout.
#[derive(Debug)]
pub enum GlobalMsg {
    RoutePushed(Route),
    SessionChanged(Session),
}

/// The broadcast step: a pushed route is handed on to the router, and a
/// changed session reaches the current page, which takes the new session
/// over and navigates — to the gift list after a login, home after a
/// register or profile change, to the login page when a gift page loses
/// its viewer, home from the transient pages.
pub fn sink(msg: GlobalMsg, model: PageModel) -> (r: (PageModel, Vec<Effect>))
    ensures
        match msg {
            GlobalMsg::RoutePushed(route) => r.0 == model && r.1@ =~= seq![
                Effect::RouteChanged(route),
            ],
            GlobalMsg::SessionChanged(session) => match model {
                PageModel::Redirect(_) | PageModel::NotFound(_) => r.0 == PageModel::Redirect(
                    session,
                ) && r.1@ =~= seq![Effect::GoTo(Route::Home)],
                PageModel::Home(_) => r.0 == PageModel::Home(session) && r.1@ =~= Seq::<
                    Effect,
                >::empty(),
                PageModel::Login(_, form) => r.0 == PageModel::Login(session, form) && r.1@
                    =~= seq![Effect::GoTo(Route::GiftIdeas)],
                PageModel::Register(_, form) => r.0 == PageModel::Register(session, form) && r.1@
                    =~= seq![Effect::GoTo(Route::Home)],
                PageModel::Profile(m) => r.0 == PageModel::Profile(
                    ProfileModel { session, ..m },
                ) && r.1@ =~= seq![Effect::GoTo(Route::Home)],
                PageModel::GiftIdeas(m) => r.0 == PageModel::GiftIdeas(
                    GiftIdeasModel { session, ..m },
                ) && r.1@ =~= seq![Effect::GoTo(Route::Login)],
                PageModel::AddGiftIdea(m) => r.0 == PageModel::AddGiftIdea(
                    AddGiftModel { session, ..m },
                ) && r.1@ =~= seq![Effect::GoTo(Route::Login)],
            },
        },
{
    match msg {
        GlobalMsg::RoutePushed(route) => {
            let mut effects: Vec<Effect> = Vec::new();
            effects.push(Effect::RouteChanged(route));
            (model, effects)
        },
        GlobalMsg::SessionChanged(session) => {
            let mut effects: Vec<Effect> = Vec::new();
            match model {
                PageModel::Redirect(_) | PageModel::NotFound(_) => {
                    effects.push(Effect::GoTo(Route::Home));
                    (PageModel::Redirect(session), effects)
                },
                PageModel::Home(_) => (PageModel::Home(session), effects),
                PageModel::Login(_, form) => {
                    effects.push(Effect::GoTo(Route::GiftIdeas));
                    (PageModel::Login(session, form), effects)
                },
                PageModel::Register(_, form) => {
                    effects.push(Effect::GoTo(Route::Home));
                    (PageModel::Register(session, form), effects)
                },
                PageModel::Profile(m) => {
                    effects.push(Effect::GoTo(Route::Home));
                    (
                        PageModel::Profile(
                            ProfileModel {
                                session,
                                email: m.email,
                                first_name: m.first_name,
                                last_name: m.last_name,
                                phone: m.phone,
                            },
                        ),
                        effects,
                    )
                },
                PageModel::GiftIdeas(m) => {
                    effects.push(Effect::GoTo(Route::Login));
                    (
                        PageModel::GiftIdeas(
                            GiftIdeasModel { session, gift_ideas: m.gift_ideas },
                        ),
                        effects,
                    )
                },
                PageModel::AddGiftIdea(m) => {
                    effects.push(Effect::GoTo(Route::Login));
                    (
                        PageModel::AddGiftIdea(
                            AddGiftModel { session, recipients: m.recipients, form: m.form },
                        ),
                        effects,
                    )
                },
            }
        },
    }
}

/// A navigation step: the next page model for a parsed route, plus the
/// effects to perform. A missing route shows the not-found page; logout
/// leaves the page standing, clears the stored user, broadcasts a guest
/// session and goes home; the gift-list page checks the stored user and
/// redirects to the login page when none is there, then starts its fetch.
/// The profile and add-gift pages read the stored user's fields, so they
/// are only entered with one present.
pub fn change_model_by_route(
    route: Option<Route>,
    model: PageModel,
    stored_user: Option<LoggedUser>,
) -> (r: (PageModel, Vec<Effect>))
    requires
        route == Some(Route::Profile) || route == Some(Route::AddGiftIdea)
            ==> stored_user is Some,
    ensures
        ({
            let session = session_of_spec(model);
            match route {
                None => r.0 == PageModel::NotFound(session) && r.1@ =~= Seq::<Effect>::empty(),
                Some(Route::Logout) => r.0 == model && r.1@ =~= seq![
                    Effect::RemoveStoredUser,
                    Effect::SendSessionChanged(Session::Guest),
                    Effect::GoTo(Route::Home),
                ],
                Some(Route::Home) => r.0 == PageModel::Home(session) && r.1@ =~= Seq::<
                    Effect,
                >::empty(),
                Some(Route::Login) => (match r.0 {
                    PageModel::Login(s, form) => s == session && form.email@ == Seq::<
                        char,
                    >::empty() && form.password@ == Seq::<char>::empty(),
                    _ => false,
                }) && r.1@ =~= Seq::<Effect>::empty(),
                Some(Route::Register) => (match r.0 {
                    PageModel::Register(s, form) => {
                        &&& s == session
                        &&& form.first_name@ == Seq::<char>::empty()
                        &&& form.last_name@ == Seq::<char>::empty()
                        &&& form.email@ == Seq::<char>::empty()
                        &&& form.phone@ == Seq::<char>::empty()
                        &&& form.password@ == Seq::<char>::empty()
                        &&& form.confirm_password@ == Seq::<char>::empty()
                    },
                    _ => false,
                }) && r.1@ =~= Seq::<Effect>::empty(),
                Some(Route::Profile) => (match (r.0, stored_user) {
                    (PageModel::Profile(m), Some(user)) => {
                        &&& m.session == Session::LoggedIn(user)
                        &&& m.email == user.email
                        &&& m.first_name == user.first_name
                        &&& m.last_name == user.last_name
                        &&& m.phone@ == Seq::<char>::empty()
                    },
                    _ => false,
                }) && r.1@ =~= Seq::<Effect>::empty(),
                Some(Route::GiftIdeas) => (match r.0 {
                    PageModel::GiftIdeas(m) => {
                        &&& (match stored_user {
                            Some(user) => m.session == Session::LoggedIn(user),
                            None => m.session is Guest,
                        })
                        &&& m.gift_ideas@ =~= Seq::<GiftIdeaResponseBody>::empty()
                    },
                    _ => false,
                }) && (match stored_user {
                    Some(_) => r.1@ =~= seq![Effect::FetchAllGifts],
                    None => r.1@ =~= seq![Effect::GoTo(Route::Login), Effect::FetchAllGifts],
                }),
                Some(Route::AddGiftIdea) => (match (r.0, stored_user) {
                    (PageModel::AddGiftIdea(m), Some(user)) => {
                        &&& m.session == Session::LoggedIn(user)
                        &&& m.recipients@ =~= Seq::<MinimalUserInfo>::empty()
                        &&& m.form.title@ == Seq::<char>::empty()
                        &&& m.form.description@ == Seq::<char>::empty()
                        &&& m.form.price@ == Seq::<char>::empty()
                        &&& m.form.url@ == Seq::<char>::empty()
                        &&& m.form.owner_id == user.id
                        &&& m.form.recipient_user_id == 0
                    },
                    _ => false,
                }) && r.1@ =~= seq![Effect::FetchAllUsers],
            }
        }),
{
    match route {
        None => (PageModel::NotFound(session_of(model)), Vec::new()),
        Some(Route::Logout) => {
            let mut effects: Vec<Effect> = Vec::new();
            effects.push(Effect::RemoveStoredUser);
            effects.push(Effect::SendSessionChanged(Session::Guest));
            effects.push(Effect::GoTo(Route::Home));
            (model, effects)
        },
        Some(Route::Home) => (PageModel::Home(session_of(model)), Vec::new()),
        Some(Route::Login) => (
            PageModel::Login(session_of(model), LoginForm::default()),
            Vec::new(),
        ),
        Some(Route::Register) => (
            PageModel::Register(session_of(model), RegisterForm::default()),
            Vec::new(),
        ),
        Some(Route::Profile) => {
            let user = stored_user.unwrap();
            let page = ProfileModel {
                session: Session::LoggedIn(user.clone()),
                email: user.email,
                first_name: user.first_name,
                last_name: user.last_name,
                phone: String::new(),
            };
            (PageModel::Profile(page), Vec::new())
        },
        Some(Route::GiftIdeas) => {
            let mut effects: Vec<Effect> = Vec::new();
            let logged_in = stored_user.is_some();
            let session = Session::new(stored_user);
            if !logged_in {
                effects.push(Effect::GoTo(Route::Login));
            }
            effects.push(Effect::FetchAllGifts);
            (PageModel::GiftIdeas(GiftIdeasModel { session, gift_ideas: Vec::new() }), effects)
        },
        Some(Route::AddGiftIdea) => {
            let user = stored_user.unwrap();
            let mut effects: Vec<Effect> = Vec::new();
            effects.push(Effect::FetchAllUsers);
            let mut form = AddGiftForm::default();
            form.owner_id = user.id;
            let page = AddGiftModel {
                session: Session::LoggedIn(user),
                recipients: Vec::new(),
                form,
            };
            (PageModel::AddGiftIdea(page), effects)
        },
    }
}

} // verus!
