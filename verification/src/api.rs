//! The API layer: one function per route, mapping each repository or
//! reservation outcome to the status the server answers with.
//!
//! A found entity or a finished operation answers 200 with the entity as its
//! body; a missing entity on a find answers 404 naming the requested key; an
//! empty table on a find-all answers 404 rather than an empty array; any
//! store failure — a broken constraint, a row missing where an update or a
//! reservation needed one, no id left to assign — collapses to a plain 500.

use vstd::prelude::*;

use crate::models::new_user_of_login;
use crate::models::new_user_of_register;
use crate::models::GiftIdea;
use crate::models::NewGiftIdea;
use crate::models::NewUser;
use crate::models::User;
use crate::shared::GiftIdeaRequestBody;
use crate::shared::GiftIdeaResponseBody;
use crate::shared::LoginRequestBody;
use crate::shared::MinimalUserInfo;
use crate::shared::RegisterRequestBody;
use crate::store::has_gift_with_id;
use crate::store::has_user_with_email;
use crate::store::Store;

verus! {

/// Which key a 404 answer names in its plain-text body.
#[derive(Debug, PartialEq, Eq)]
pub enum MissingKey {
    UserId(i32),
    UserEmail(String),
    GiftId(i32),
    NoUsers,
    NoGifts,
}

/// What a route answers: 200 with a JSON body, 404 naming the missing key,
/// or an undifferentiated 500.
#[derive(Debug)]
pub enum ApiResponse<T> {
    Success(T),
    NotFound(MissingKey),
    ServerError,
}

impl<T> ApiResponse<T> {
    /// The HTTP status code of this answer.
    pub open spec fn status_spec(&self) -> int {
        match self {
            ApiResponse::Success(_) => 200,
            ApiResponse::NotFound(_) => 404,
            ApiResponse::ServerError => 500,
        }
    }

    pub fn status_code(&self) -> (c: u16)
        ensures
            c as int == self.status_spec(),
    {
        match self {
            ApiResponse::Success(_) => 200,
            ApiResponse::NotFound(_) => 404,
            ApiResponse::ServerError => 500,
        }
    }
}

/// `POST /v1/users/add` — register a user; a duplicate email, like any
/// other store failure, answers 500.
pub fn add_user(store: &mut Store, form: RegisterRequestBody) -> (r: ApiResponse<User>)
    requires
        old(store).wf(),
    ensures
        final(store).wf(),
        match r {
            ApiResponse::Success(u) => Store::add_user_post(
                *old(store),
                *final(store),
                new_user_of_register(form),
                Ok(u),
            ),
            ApiResponse::NotFound(_) => false,
            ApiResponse::ServerError => (has_user_with_email(old(store)@.users, form.email@)
                || old(store)@.next_user_id == i32::MAX as int) && final(store)@ == old(store)@,
        },
{
    let new_user = NewUser::from(form);
    match store.add_user(&new_user) {
        Ok(u) => ApiResponse::Success(u),
        Err(_) => ApiResponse::ServerError,
    }
}

/// `POST /v1/users/login` — the user whose email and password both match;
/// failed credentials answer 404 naming the email.
pub fn login(store: &Store, form: LoginRequestBody) -> (r: ApiResponse<User>)
    ensures
        match r {
            ApiResponse::Success(u) => Store::login_post(*store, new_user_of_login(form), Some(u)),
            ApiResponse::NotFound(k) => Store::login_post(*store, new_user_of_login(form), None)
                && k == MissingKey::UserEmail(form.email),
            ApiResponse::ServerError => false,
        },
{
    let email = form.email.clone();
    let new_user = NewUser::from(form);
    match store.login(&new_user) {
        Some(u) => ApiResponse::Success(u),
        None => ApiResponse::NotFound(MissingKey::UserEmail(email)),
    }
}

/// `PATCH /v1/users/update` — replace the row keyed by the body's email; a
/// missing row answers 500, as every store failure does on this route.
pub fn update_user(store: &mut Store, form: NewUser) -> (r: ApiResponse<User>)
    requires
        old(store).wf(),
    ensures
        final(store).wf(),
        match r {
            ApiResponse::Success(u) => Store::update_user_post(
                *old(store),
                *final(store),
                form,
                Ok(u),
            ),
            ApiResponse::NotFound(_) => false,
            ApiResponse::ServerError => !has_user_with_email(old(store)@.users, form.email@)
                && final(store)@ == old(store)@,
        },
{
    match store.update_user(&form) {
        Ok(u) => ApiResponse::Success(u),
        Err(_) => ApiResponse::ServerError,
    }
}

/// `GET /v1/users/find_all` — every user's minimal info; an empty table
/// answers 404, not an empty array.
pub fn find_all_users(store: &Store) -> (r: ApiResponse<Vec<MinimalUserInfo>>)
    ensures
        match r {
            ApiResponse::Success(us) => store@.users.len() > 0 && Store::find_all_users_post(
                *store,
                us@,
            ),
            ApiResponse::NotFound(k) => store@.users.len() == 0 && k == MissingKey::NoUsers,
            ApiResponse::ServerError => false,
        },
{
    let users = store.find_all_users();
    if users.len() > 0 {
        ApiResponse::Success(users)
    } else {
        ApiResponse::NotFound(MissingKey::NoUsers)
    }
}

/// `GET /v1/users/find_by_id/{id}` — the user, or 404 naming the id.
pub fn find_user_by_id(store: &Store, user_id: i32) -> (r: ApiResponse<User>)
    ensures
        match r {
            ApiResponse::Success(u) => Store::find_user_by_id_post(*store, user_id, Some(u)),
            ApiResponse::NotFound(k) => Store::find_user_by_id_post(*store, user_id, None) && k
                == MissingKey::UserId(user_id),
            ApiResponse::ServerError => false,
        },
{
    match store.find_user_by_id(user_id) {
        Some(u) => ApiResponse::Success(u),
        None => ApiResponse::NotFound(MissingKey::UserId(user_id)),
    }
}

/// `GET /v1/users/find_by_email/{email}` — the user, or 404 naming the
/// email.
pub fn find_user_by_email(store: &Store, user_email: String) -> (r: ApiResponse<User>)
    ensures
        match r {
            ApiResponse::Success(u) => Store::find_user_by_email_post(
                *store,
                user_email@,
                Some(u),
            ),
            ApiResponse::NotFound(k) => Store::find_user_by_email_post(*store, user_email@, None)
                && k == MissingKey::UserEmail(user_email),
            ApiResponse::ServerError => false,
        },
{
    match store.find_user_by_email(user_email.as_str()) {
        Some(u) => ApiResponse::Success(u),
        None => ApiResponse::NotFound(MissingKey::UserEmail(user_email)),
    }
}

/// `POST /v1/gifts/add` — insert a gift idea built from the body, with the
/// clock filling the timestamps; only an exhausted store fails.
pub fn add_gift(store: &mut Store, form: GiftIdeaRequestBody) -> (r: ApiResponse<GiftIdea>)
    requires
        old(store).wf(),
    ensures
        final(store).wf(),
        match r {
            ApiResponse::Success(g) => exists|ng: NewGiftIdea|
                {
                    &&& ng.title == form.title
                    &&& ng.description == form.description
                    &&& ng.price == form.price
                    &&& ng.url == form.url
                    &&& ng.owner_id == form.owner_id
                    &&& ng.recipient_user_id == form.recipient_user_id
                    &&& ng.reserved_by_user_id is None
                    &&& ng.date_reserved is None
                    &&& #[trigger] Store::add_gift_post(*old(store), *final(store), ng, Ok(g))
                },
            ApiResponse::NotFound(_) => false,
            ApiResponse::ServerError => old(store)@.next_gift_id == i32::MAX as int
                && final(store)@ == old(store)@,
        },
{
    let new_gift = NewGiftIdea::from_request(form);
    match store.add_gift_idea(&new_gift) {
        Ok(g) => {
            proof {
                assert(Store::add_gift_post(*old(store), *store, new_gift, Ok(g)));
            }
            ApiResponse::Success(g)
        },
        Err(_) => ApiResponse::ServerError,
    }
}

/// `PATCH /v1/gifts/update` — replace the row keyed by the body's id; a
/// missing row answers 500.
pub fn update_gift(store: &mut Store, form: GiftIdea) -> (r: ApiResponse<GiftIdea>)
    requires
        old(store).wf(),
    ensures
        final(store).wf(),
        match r {
            ApiResponse::Success(g) => Store::update_gift_post(
                *old(store),
                *final(store),
                form,
                Ok(g),
            ),
            ApiResponse::NotFound(_) => false,
            ApiResponse::ServerError => !has_gift_with_id(old(store)@.gift_ideas, form.id as int)
                && final(store)@ == old(store)@,
        },
{
    match store.update_gift_idea(&form) {
        Ok(g) => ApiResponse::Success(g),
        Err(_) => ApiResponse::ServerError,
    }
}

/// `GET /v1/gifts/find_by_id/{id}` — the gift idea, or 404 naming the id.
pub fn find_gift_by_id(store: &Store, gift_id: i32) -> (r: ApiResponse<GiftIdea>)
    ensures
        match r {
            ApiResponse::Success(g) => Store::find_gift_by_id_post(*store, gift_id, Some(g)),
            ApiResponse::NotFound(k) => Store::find_gift_by_id_post(*store, gift_id, None) && k
                == MissingKey::GiftId(gift_id),
            ApiResponse::ServerError => false,
        },
{
    match store.find_gift_by_id(gift_id) {
        Some(g) => ApiResponse::Success(g),
        None => ApiResponse::NotFound(MissingKey::GiftId(gift_id)),
    }
}

/// `GET /v1/gifts/find_all` — every gift-idea row; an empty table answers
/// 404, not an empty array.
pub fn find_all_gifts(store: &Store) -> (r: ApiResponse<Vec<GiftIdea>>)
    ensures
        match r {
            ApiResponse::Success(gs) => store@.gift_ideas.len() > 0 && gs@ == store@.gift_ideas,
            ApiResponse::NotFound(k) => store@.gift_ideas.len() == 0 && k == MissingKey::NoGifts,
            ApiResponse::ServerError => false,
        },
{
    let gifts = store.find_all_gifts();
    if gifts.len() > 0 {
        ApiResponse::Success(gifts)
    } else {
        ApiResponse::NotFound(MissingKey::NoGifts)
    }
}

/// `PATCH /v1/gifts/reserve/{giftId}/{userId}` — record `user_id` as the
/// one holder of the gift idea, overwriting any earlier holder. On a
/// missing id the original aborts the request, which surfaces as the
/// undifferentiated 500.
pub fn reserve(store: &mut Store, gift_id: i32, user_id: i32) -> (r: ApiResponse<
    GiftIdeaResponseBody,
>)
    requires
        old(store).wf(),
    ensures
        final(store).wf(),
        match r {
            ApiResponse::Success(body) => Store::reserve_post(
                *old(store),
                *final(store),
                gift_id,
                user_id,
                body,
            ),
            ApiResponse::NotFound(_) => false,
            ApiResponse::ServerError => !has_gift_with_id(old(store)@.gift_ideas, gift_id as int)
                && final(store)@ == old(store)@,
        },
{
    if store.has_gift(gift_id) {
        ApiResponse::Success(store.reserve(gift_id, user_id))
    } else {
        ApiResponse::ServerError
    }
}

/// `PATCH /v1/gifts/unreserve/{giftId}` — clear the holder of the gift
/// idea, whoever held it. A missing id answers 500, as in `reserve`.
pub fn unreserve(store: &mut Store, gift_id: i32) -> (r: ApiResponse<GiftIdeaResponseBody>)
    requires
        old(store).wf(),
    ensures
        final(store).wf(),
        match r {
            ApiResponse::Success(body) => Store::unreserve_post(
                *old(store),
                *final(store),
                gift_id,
                body,
            ),
            ApiResponse::NotFound(_) => false,
            ApiResponse::ServerError => !has_gift_with_id(old(store)@.gift_ideas, gift_id as int)
                && final(store)@ == old(store)@,
        },
{
    if store.has_gift(gift_id) {
        ApiResponse::Success(store.unreserve(gift_id))
    } else {
        ApiResponse::ServerError
    }
}

/// `DELETE /v1/gifts/delete/{giftId}` — always 200, with `true` exactly
/// when a row was removed.
pub fn delete_gift(store: &mut Store, gift_id: i32) -> (r: ApiResponse<bool>)
    requires
        old(store).wf(),
    ensures
        final(store).wf(),
        match r {
            ApiResponse::Success(removed) => Store::delete_gift_post(
                *old(store),
                *final(store),
                gift_id,
                removed,
            ),
            ApiResponse::NotFound(_) => false,
            ApiResponse::ServerError => false,
        },
{
    ApiResponse::Success(store.delete_gift(gift_id))
}

} // verus!
