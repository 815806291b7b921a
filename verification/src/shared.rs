//! Request and response bodies exchanged between the client and the API.

use vstd::prelude::*;

verus! {

/// The account record the client keeps for the logged-in user.
#[derive(Debug, PartialEq, Eq)]
pub struct LoggedUser {
    pub id: i32,
    pub email: String,
    pub first_name: String,
    pub last_name: String,
}

impl Clone for LoggedUser {
    fn clone(&self) -> (r: Self)
        ensures
            r == *self,
    {
        LoggedUser {
            id: self.id,
            email: self.email.clone(),
            first_name: self.first_name.clone(),
            last_name: self.last_name.clone(),
        }
    }
}

/// Body of `POST /v1/users/add`: the registration form.
#[derive(Debug, PartialEq, Eq)]
pub struct RegisterRequestBody {
    pub email: String,
    pub password: String,
    pub first_name: Option<String>,
    pub last_name: Option<String>,
    pub phone: Option<String>,
}

/// The full user row echoed back after a registration.
#[derive(Debug, PartialEq, Eq)]
pub struct RegisterResponseBody {
    pub id: i32,
    pub email: String,
    pub password: String,
    pub first_name: Option<String>,
    pub last_name: Option<String>,
    pub phone: Option<String>,
}

/// What `GET /v1/users/find_all` reports per user: no password field.
#[derive(Debug, PartialEq, Eq)]
pub struct MinimalUserInfo {
    pub id: i32,
    pub email: String,
    pub first_name: Option<String>,
    pub last_name: Option<String>,
    pub phone: Option<String>,
}

impl Clone for MinimalUserInfo {
    fn clone(&self) -> (r: Self)
        ensures
            r == *self,
    {
        MinimalUserInfo {
            id: self.id,
            email: self.email.clone(),
            first_name: self.first_name.clone(),
            last_name: self.last_name.clone(),
            phone: self.phone.clone(),
        }
    }
}

/// Body of `POST /v1/users/login`.
#[derive(Debug, PartialEq, Eq)]
pub struct LoginRequestBody {
    pub email: String,
    pub password: String,
}

/// The full user row echoed back after a login.
#[derive(Debug, PartialEq, Eq)]
pub struct LoginResponseBody {
    pub id: i32,
    pub email: String,
    pub password: String,
    pub first_name: Option<String>,
    pub last_name: Option<String>,
    pub phone: Option<String>,
}

/// Body of `POST /v1/gifts/add`: a new gift idea, before the store assigns
/// an id and timestamps.
#[derive(Debug, PartialEq, Eq)]
pub struct GiftIdeaRequestBody {
    pub title: String,
    pub description: Option<String>,
    pub price: Option<String>,
    pub url: Option<String>,
    pub owner_id: i32,
    pub recipient_user_id: i32,
}

/// The projection of a gift idea the reserve/unreserve endpoints answer
/// with: the visible fields, without the internal timestamps.
#[derive(Debug, PartialEq, Eq)]
pub struct GiftIdeaResponseBody {
    pub id: i32,
    pub title: String,
    pub description: Option<String>,
    pub price: Option<String>,
    pub url: Option<String>,
    pub owner_id: i32,
    pub recipient_user_id: i32,
    pub reserved_by_user_id: Option<i32>,
}

impl Clone for GiftIdeaResponseBody {
    fn clone(&self) -> (r: Self)
        ensures
            r == *self,
    {
        GiftIdeaResponseBody {
            id: self.id,
            title: self.title.clone(),
            description: self.description.clone(),
            price: self.price.clone(),
            url: self.url.clone(),
            owner_id: self.owner_id,
            recipient_user_id: self.recipient_user_id,
            reserved_by_user_id: self.reserved_by_user_id,
        }
    }
}

} // verus!
