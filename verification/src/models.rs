//! The entity rows of the store — users, gift ideas, destinations and their
//! association rows — together with the insert shapes (`New*`) and the
//! conversions between rows and the request/response bodies.
//!
//! Timestamps are kept as seconds since the Unix epoch; the only thing the
//! clock crate is asked for is the current moment.

use vstd::prelude::*;

use crate::shared::GiftIdeaRequestBody;
use crate::shared::GiftIdeaResponseBody;
use crate::shared::LoginRequestBody;
use crate::shared::MinimalUserInfo;
use crate::shared::RegisterRequestBody;

verus! {

/// A registered account holder; also the recipient or the reserver of a
/// gift idea. The password is stored as entered.
#[derive(Debug, PartialEq, Eq)]
pub struct User {
    pub id: i32,
    pub email: String,
    pub password: String,
    pub first_name: Option<String>,
    pub last_name: Option<String>,
    pub phone: Option<String>,
}

impl Clone for User {
    fn clone(&self) -> (r: Self)
        ensures
            r == *self,
    {
        User {
            id: self.id,
            email: self.email.clone(),
            password: self.password.clone(),
            first_name: self.first_name.clone(),
            last_name: self.last_name.clone(),
            phone: self.phone.clone(),
        }
    }
}

/// A user row before the store has assigned an id.
#[derive(Debug, PartialEq, Eq)]
pub struct NewUser {
    pub first_name: Option<String>,
    pub last_name: Option<String>,
    pub email: String,
    pub phone: Option<String>,
    pub password: String,
}

impl Clone for NewUser {
    fn clone(&self) -> (r: Self)
        ensures
            r == *self,
    {
        NewUser {
            first_name: self.first_name.clone(),
            last_name: self.last_name.clone(),
            email: self.email.clone(),
            phone: self.phone.clone(),
            password: self.password.clone(),
        }
    }
}

impl NewUser {
    pub fn new(email: String, password: String) -> (r: NewUser)
        ensures
            r == (NewUser {
                email,
                password,
                first_name: None::<String>,
                last_name: None::<String>,
                phone: None::<String>,
            }),
    {
        NewUser { email, password, first_name: None, last_name: None, phone: None }
    }
}

/// What a registration body turns into before it is inserted.
pub open spec fn new_user_of_register(body: RegisterRequestBody) -> NewUser {
    NewUser {
        email: body.email,
        password: body.password,
        first_name: body.first_name,
        last_name: body.last_name,
        phone: body.phone,
    }
}

impl From<RegisterRequestBody> for NewUser {
    fn from(body: RegisterRequestBody) -> (r: NewUser) {
        NewUser {
            email: body.email,
            password: body.password,
            first_name: body.first_name,
            last_name: body.last_name,
            phone: body.phone,
        }
    }
}

impl vstd::std_specs::convert::FromSpecImpl<RegisterRequestBody> for NewUser {
    open spec fn obeys_from_spec() -> bool {
        true
    }

    open spec fn from_spec(body: RegisterRequestBody) -> NewUser {
        new_user_of_register(body)
    }
}

/// What a login body turns into: email and password, nothing else.
pub open spec fn new_user_of_login(body: LoginRequestBody) -> NewUser {
    NewUser {
        email: body.email,
        password: body.password,
        first_name: None,
        last_name: None,
        phone: None,
    }
}

impl From<LoginRequestBody> for NewUser {
    fn from(body: LoginRequestBody) -> (r: NewUser) {
        NewUser::new(body.email, body.password)
    }
}

impl vstd::std_specs::convert::FromSpecImpl<LoginRequestBody> for NewUser {
    open spec fn obeys_from_spec() -> bool {
        true
    }

    open spec fn from_spec(body: LoginRequestBody) -> NewUser {
        new_user_of_login(body)
    }
}

/// The password-free projection of a user row.
pub open spec fn minimal_info_of(u: User) -> MinimalUserInfo {
    MinimalUserInfo {
        id: u.id,
        email: u.email,
        first_name: u.first_name,
        last_name: u.last_name,
        phone: u.phone,
    }
}

impl From<User> for MinimalUserInfo {
    fn from(body: User) -> (r: MinimalUserInfo) {
        MinimalUserInfo {
            id: body.id,
            email: body.email,
            first_name: body.first_name,
            last_name: body.last_name,
            phone: body.phone,
        }
    }
}

impl vstd::std_specs::convert::FromSpecImpl<User> for MinimalUserInfo {
    open spec fn obeys_from_spec() -> bool {
        true
    }

    open spec fn from_spec(body: User) -> MinimalUserInfo {
        minimal_info_of(body)
    }
}

/// A mailing address; present in the schema, not exercised by any route.
#[derive(Debug, PartialEq, Eq)]
pub struct Destination {
    pub id: i32,
    pub name: String,
    pub street: String,
    pub city: String,
    pub state: String,
    pub postal_code: String,
}

/// A destination row before the store has assigned an id.
#[derive(Debug, PartialEq, Eq)]
pub struct NewDestination {
    pub name: String,
    pub street: String,
    pub city: String,
    pub state: String,
    pub postal_code: String,
}

impl NewDestination {
    pub fn new(
        name: String,
        street: String,
        city: String,
        state: String,
        postal_code: String,
    ) -> (r: NewDestination)
        ensures
            r == (NewDestination { name, street, city, state, postal_code }),
    {
        NewDestination { name, street, city, state, postal_code }
    }
}

/// A gift idea: created by its owner, meant for a recipient, and optionally
/// claimed by a reserver. At most one reserver at a time — the claim is a
/// single scalar field.
#[derive(Debug, PartialEq, Eq)]
pub struct GiftIdea {
    pub id: i32,
    pub title: String,
    pub description: Option<String>,
    pub price: Option<String>,
    pub url: Option<String>,
    pub date_added: i64,
    pub date_last_modified: i64,
    pub date_reserved: Option<i64>,
    pub owner_id: i32,
    pub recipient_user_id: i32,
    pub reserved_by_user_id: Option<i32>,
}

impl Clone for GiftIdea {
    fn clone(&self) -> (r: Self)
        ensures
            r == *self,
    {
        GiftIdea {
            id: self.id,
            title: self.title.clone(),
            description: self.description.clone(),
            price: self.price.clone(),
            url: self.url.clone(),
            date_added: self.date_added,
            date_last_modified: self.date_last_modified,
            date_reserved: self.date_reserved,
            owner_id: self.owner_id,
            recipient_user_id: self.recipient_user_id,
            reserved_by_user_id: self.reserved_by_user_id,
        }
    }
}

/// The projection of a gift idea the reserve/unreserve endpoints answer with.
pub open spec fn response_of(g: GiftIdea) -> GiftIdeaResponseBody {
    GiftIdeaResponseBody {
        id: g.id,
        title: g.title,
        description: g.description,
        price: g.price,
        url: g.url,
        owner_id: g.owner_id,
        recipient_user_id: g.recipient_user_id,
        reserved_by_user_id: g.reserved_by_user_id,
    }
}

impl From<GiftIdea> for GiftIdeaResponseBody {
    fn from(body: GiftIdea) -> (r: GiftIdeaResponseBody) {
        GiftIdeaResponseBody {
            id: body.id,
            title: body.title,
            description: body.description,
            price: body.price,
            url: body.url,
            owner_id: body.owner_id,
            recipient_user_id: body.recipient_user_id,
            reserved_by_user_id: body.reserved_by_user_id,
        }
    }
}

impl vstd::std_specs::convert::FromSpecImpl<GiftIdea> for GiftIdeaResponseBody {
    open spec fn obeys_from_spec() -> bool {
        true
    }

    open spec fn from_spec(body: GiftIdea) -> GiftIdeaResponseBody {
        response_of(body)
    }
}

/// A gift idea before the store has assigned an id. The timestamps are
/// filled with the moment the value was built.
#[derive(Debug, PartialEq, Eq)]
pub struct NewGiftIdea {
    pub title: String,
    pub description: Option<String>,
    pub price: Option<String>,
    pub url: Option<String>,
    pub date_added: i64,
    pub date_last_modified: i64,
    pub date_reserved: Option<i64>,
    pub owner_id: i32,
    pub recipient_user_id: i32,
    pub reserved_by_user_id: Option<i32>,
}

impl Clone for NewGiftIdea {
    fn clone(&self) -> (r: Self)
        ensures
            r == *self,
    {
        NewGiftIdea {
            title: self.title.clone(),
            description: self.description.clone(),
            price: self.price.clone(),
            url: self.url.clone(),
            date_added: self.date_added,
            date_last_modified: self.date_last_modified,
            date_reserved: self.date_reserved,
            owner_id: self.owner_id,
            recipient_user_id: self.recipient_user_id,
            reserved_by_user_id: self.reserved_by_user_id,
        }
    }
}

/// Relies on `chrono::Utc::now` for the wall clock; the value depends on the
/// moment of the call, so nothing relates one call to another. The source
/// aborts if the system clock is set before the Unix epoch, hence the result
/// is never negative.
#[verifier::external_body]
fn now_timestamp() -> (r: i64)
    ensures
        r >= 0,
{
    chrono::Utc::now().timestamp()
}

impl NewGiftIdea {
    /// A fresh gift idea: no description, price or link yet, not reserved,
    /// timestamped with the current moment.
    pub fn new(title: String, owner_id: i32, recipient_user_id: i32) -> (r: NewGiftIdea)
        ensures
            r.title == title,
            r.description is None,
            r.price is None,
            r.url is None,
            r.date_reserved is None,
            r.owner_id == owner_id,
            r.recipient_user_id == recipient_user_id,
            r.reserved_by_user_id is None,
            r.date_added >= 0,
            r.date_last_modified >= 0,
    {
        NewGiftIdea {
            title,
            description: None,
            price: None,
            url: None,
            date_added: now_timestamp(),
            date_last_modified: now_timestamp(),
            date_reserved: None,
            owner_id,
            recipient_user_id,
            reserved_by_user_id: None,
        }
    }

    /// What an add request turns into before it is inserted. The timestamps
    /// come from the clock, so only the other fields are pinned down.
    pub fn from_request(body: GiftIdeaRequestBody) -> (r: NewGiftIdea)
        ensures
            r.title == body.title,
            r.description == body.description,
            r.price == body.price,
            r.url == body.url,
            r.owner_id == body.owner_id,
            r.recipient_user_id == body.recipient_user_id,
            r.reserved_by_user_id is None,
            r.date_reserved is None,
    {
        let mut gift_idea = NewGiftIdea::new(body.title, body.owner_id, body.recipient_user_id);
        gift_idea.description = body.description;
        gift_idea.price = body.price;
        gift_idea.url = body.url;
        gift_idea
    }
}

/// An association row between a user and a destination.
#[derive(Debug, PartialEq, Eq, Clone, Copy, Structural)]
pub struct UserDestination {
    pub id: i32,
    pub user_id: i32,
    pub destination_id: i32,
}

/// A user/destination association before the store has assigned an id.
#[derive(Debug, PartialEq, Eq, Clone, Copy, Structural)]
pub struct NewUserDestination {
    pub user_id: i32,
    pub destination_id: i32,
}

impl NewUserDestination {
    pub fn new(user_id: i32, destination_id: i32) -> (r: NewUserDestination)
        ensures
            r == (NewUserDestination { user_id, destination_id }),
    {
        NewUserDestination { user_id, destination_id }
    }
}

} // verus!
