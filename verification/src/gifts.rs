//! The earlier, flatter shape of the gifts table: a plain gift record with
//! optional links to the user it is meant for and the user who reserved it,
//! plus the user/gift association rows. The richer
//! [`GiftIdea`](crate::models::GiftIdea) rows supersede these, but the
//! record shapes remain part of the public surface.

use vstd::prelude::*;

verus! {

/// A flat gift record of the older schema revision.
#[derive(Debug, PartialEq, Eq)]
pub struct Gift {
    pub id: i32,
    pub name: String,
    pub description: Option<String>,
    pub price: Option<String>,
    pub url: Option<String>,
    pub intended_for_user_id: Option<i32>,
    pub reserved_by_user_id: Option<i32>,
}

impl Clone for Gift {
    fn clone(&self) -> (r: Self)
        ensures
            r == *self,
    {
        Gift {
            id: self.id,
            name: self.name.clone(),
            description: self.description.clone(),
            price: self.price.clone(),
            url: self.url.clone(),
            intended_for_user_id: self.intended_for_user_id,
            reserved_by_user_id: self.reserved_by_user_id,
        }
    }
}

/// A gift record before the store has assigned an id.
#[derive(Debug, PartialEq, Eq)]
pub struct NewGift {
    pub name: String,
    pub description: Option<String>,
    pub price: Option<String>,
    pub url: Option<String>,
    pub intended_for_user_id: Option<i32>,
    pub reserved_by_user_id: Option<i32>,
}

impl NewGift {
    /// A bare gift record: only the name is filled in. Despite taking the
    /// two user ids, both associations start out empty.
    #[allow(unused_variables)]
    pub fn new(name: String, intended_for_user_id: i32, reserved_by_user_id: i32) -> (r: NewGift)
        ensures
            r.name == name,
            r.description is None,
            r.price is None,
            r.url is None,
            r.intended_for_user_id is None,
            r.reserved_by_user_id is None,
    {
        NewGift {
            name,
            description: None,
            price: None,
            url: None,
            intended_for_user_id: None,
            reserved_by_user_id: None,
        }
    }
}

/// An association row between a user and a gift.
#[derive(Debug, PartialEq, Eq, Clone, Copy, Structural)]
pub struct UserGift {
    pub id: i32,
    pub user_id: i32,
    pub gift_id: i32,
}

/// A user/gift association before the store has assigned an id.
#[derive(Debug, PartialEq, Eq, Clone, Copy, Structural)]
pub struct NewUserGift {
    pub user_id: i32,
    pub gift_id: i32,
}

impl NewUserGift {
    pub fn new(user_id: i32, gift_id: i32) -> (r: NewUserGift)
        ensures
            r == (NewUserGift { user_id, gift_id }),
    {
        NewUserGift { user_id, gift_id }
    }
}

} // verus!
