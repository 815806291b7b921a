//! The entity store: one users table and one gift-ideas table, with the
//! repository operations of each and the reservation transitions of a gift
//! idea.
//!
//! Ids are assigned by the store, counting up from 1, so id uniqueness and
//! the uniqueness of user emails are invariants of the store
//! ([`Store::wf`]). Every operation states its whole effect through a `_post`
//! predicate over the store before and after the call, so that the laws about
//! sequences of operations can be proved from the contracts alone.

use vstd::prelude::*;

use crate::models::minimal_info_of;
use crate::models::response_of;
use crate::models::GiftIdea;
use crate::models::NewGiftIdea;
use crate::models::NewUser;
use crate::models::User;
use crate::shared::GiftIdeaResponseBody;
use crate::shared::MinimalUserInfo;
use crate::text::str_eq;

verus! {

/// How a repository operation can fail.
///
/// `NotFound` — no row matches the given key.
/// `ConstraintViolation` — an insert would break a uniqueness constraint.
/// `Unavailable` — the store cannot take the operation at all (no id left
/// to assign).
#[derive(Debug, PartialEq, Eq, Clone, Copy, Structural)]
pub enum StoreError {
    NotFound,
    ConstraintViolation,
    Unavailable,
}

/// The relational store: the two exercised tables and the next id each
/// would assign.
pub struct Store {
    users: Vec<User>,
    gift_ideas: Vec<GiftIdea>,
    next_user_id: i32,
    next_gift_id: i32,
}

/// The mathematical content of a store: the two tables as sequences of rows.
pub struct StoreView {
    pub users: Seq<User>,
    pub gift_ideas: Seq<GiftIdea>,
    pub next_user_id: int,
    pub next_gift_id: int,
}

impl View for Store {
    type V = StoreView;

    closed spec fn view(&self) -> StoreView {
        StoreView {
            users: self.users@,
            gift_ideas: self.gift_ideas@,
            next_user_id: self.next_user_id as int,
            next_gift_id: self.next_gift_id as int,
        }
    }
}

/// No two user rows share an id.
pub open spec fn user_ids_unique(users: Seq<User>) -> bool {
    forall|i: int, j: int|
        0 <= i < j < users.len() ==> (#[trigger] users[i]).id != (#[trigger] users[j]).id
}

/// No two user rows share an email: email is the login key.
pub open spec fn user_emails_unique(users: Seq<User>) -> bool {
    forall|i: int, j: int|
        0 <= i < j < users.len() ==> (#[trigger] users[i]).email@ != (#[trigger] users[j]).email@
}

/// No two gift-idea rows share an id.
pub open spec fn gift_ids_unique(gifts: Seq<GiftIdea>) -> bool {
    forall|i: int, j: int|
        0 <= i < j < gifts.len() ==> (#[trigger] gifts[i]).id != (#[trigger] gifts[j]).id
}

/// Some user row carries this id.
pub open spec fn has_user_with_id(users: Seq<User>, id: int) -> bool {
    exists|i: int| 0 <= i < users.len() && (#[trigger] users[i]).id == id
}

/// Some user row carries this email.
pub open spec fn has_user_with_email(users: Seq<User>, email: Seq<char>) -> bool {
    exists|i: int| 0 <= i < users.len() && (#[trigger] users[i]).email@ == email
}

/// Some gift-idea row carries this id.
pub open spec fn has_gift_with_id(gifts: Seq<GiftIdea>, id: int) -> bool {
    exists|i: int| 0 <= i < gifts.len() && (#[trigger] gifts[i]).id == id
}

/// Some gift-idea row carries this title.
pub open spec fn has_gift_with_title(gifts: Seq<GiftIdea>, title: Seq<char>) -> bool {
    exists|i: int| 0 <= i < gifts.len() && (#[trigger] gifts[i]).title@ == title
}

/// The user row an insert of `nu` produces once the store assigns `id`.
pub open spec fn user_with_id(nu: NewUser, id: i32) -> User {
    User {
        id,
        email: nu.email,
        password: nu.password,
        first_name: nu.first_name,
        last_name: nu.last_name,
        phone: nu.phone,
    }
}

/// The gift-idea row an insert of `ng` produces once the store assigns `id`.
pub open spec fn gift_with_id(ng: NewGiftIdea, id: i32) -> GiftIdea {
    GiftIdea {
        id,
        title: ng.title,
        description: ng.description,
        price: ng.price,
        url: ng.url,
        date_added: ng.date_added,
        date_last_modified: ng.date_last_modified,
        date_reserved: ng.date_reserved,
        owner_id: ng.owner_id,
        recipient_user_id: ng.recipient_user_id,
        reserved_by_user_id: ng.reserved_by_user_id,
    }
}

/// The same gift idea with only its reservation holder changed.
pub open spec fn with_reservation(g: GiftIdea, holder: Option<i32>) -> GiftIdea {
    GiftIdea { reserved_by_user_id: holder, ..g }
}

impl Store {
    /// Ids were assigned by counting up from 1, and the uniqueness
    /// constraints of the schema hold.
    pub open spec fn wf(&self) -> bool {
        &&& user_ids_unique(self@.users)
        &&& user_emails_unique(self@.users)
        &&& gift_ids_unique(self@.gift_ideas)
        &&& 1 <= self@.next_user_id <= i32::MAX
        &&& 1 <= self@.next_gift_id <= i32::MAX
        &&& forall|i: int|
            0 <= i < self@.users.len() ==> 1 <= (#[trigger] self@.users[i]).id
                < self@.next_user_id
        &&& forall|i: int|
            0 <= i < self@.gift_ideas.len() ==> 1 <= (#[trigger] self@.gift_ideas[i]).id
                < self@.next_gift_id
    }

    /// An empty store, as the initial schema migration leaves it.
    pub fn new() -> (r: Store)
        ensures
            r.wf(),
            r@.users == Seq::<User>::empty(),
            r@.gift_ideas == Seq::<GiftIdea>::empty(),
            r@.next_user_id == 1,
            r@.next_gift_id == 1,
    {
        let r = Store { users: Vec::new(), gift_ideas: Vec::new(), next_user_id: 1, next_gift_id: 1 };
        proof {
            assert(r@.users =~= Seq::<User>::empty());
            assert(r@.gift_ideas =~= Seq::<GiftIdea>::empty());
        }
        r
    }

    /// The row with this user id, if any.
    pub open spec fn find_user_by_id_post(s: Store, uid: i32, r: Option<User>) -> bool {
        match r {
            Some(u) => s@.users.contains(u) && u.id == uid,
            None => !has_user_with_id(s@.users, uid as int),
        }
    }

    pub fn find_user_by_id(&self, uid: i32) -> (r: Option<User>)
        ensures
            Store::find_user_by_id_post(*self, uid, r),
    {
        let mut n: usize = 0;
        while n < self.users.len()
            invariant
                n <= self.users.len(),
                forall|k: int| 0 <= k < n ==> (#[trigger] self.users@[k]).id != uid,
            decreases self.users.len() - n,
        {
            if self.users[n].id == uid {
                return Some(self.users[n].clone());
            }
            n += 1;
        }
        None
    }

    /// The row with this email, if any.
    pub open spec fn find_user_by_email_post(s: Store, email: Seq<char>, r: Option<User>) -> bool {
        match r {
            Some(u) => s@.users.contains(u) && u.email@ == email,
            None => !has_user_with_email(s@.users, email),
        }
    }

    pub fn find_user_by_email(&self, mail: &str) -> (r: Option<User>)
        ensures
            Store::find_user_by_email_post(*self, mail@, r),
    {
        let mut n: usize = 0;
        while n < self.users.len()
            invariant
                n <= self.users.len(),
                forall|k: int| 0 <= k < n ==> (#[trigger] self.users@[k]).email@ != mail@,
            decreases self.users.len() - n,
        {
            if str_eq(self.users[n].email.as_str(), mail) {
                return Some(self.users[n].clone());
            }
            n += 1;
        }
        None
    }

    /// The row whose email and password both match, if any: a login attempt.
    pub open spec fn login_post(s: Store, nu: NewUser, r: Option<User>) -> bool {
        match r {
            Some(u) => s@.users.contains(u) && u.email@ == nu.email@ && u.password@
                == nu.password@,
            None => forall|i: int|
                0 <= i < s@.users.len() ==> !((#[trigger] s@.users[i]).email@ == nu.email@
                    && s@.users[i].password@ == nu.password@),
        }
    }

    pub fn login(&self, user: &NewUser) -> (r: Option<User>)
        ensures
            Store::login_post(*self, *user, r),
    {
        let mut n: usize = 0;
        while n < self.users.len()
            invariant
                n <= self.users.len(),
                forall|k: int|
                    0 <= k < n ==> !((#[trigger] self.users@[k]).email@ == user.email@
                        && self.users@[k].password@ == user.password@),
            decreases self.users.len() - n,
        {
            if str_eq(self.users[n].email.as_str(), user.email.as_str()) && str_eq(
                self.users[n].password.as_str(),
                user.password.as_str(),
            ) {
                return Some(self.users[n].clone());
            }
            n += 1;
        }
        None
    }

    /// Every user row, projected to its password-free minimal info, in
    /// table order.
    pub open spec fn find_all_users_post(s: Store, r: Seq<MinimalUserInfo>) -> bool {
        &&& r.len() == s@.users.len()
        &&& forall|i: int| 0 <= i < r.len() ==> r[i] == minimal_info_of(#[trigger] s@.users[i])
    }

    pub fn find_all_users(&self) -> (r: Vec<MinimalUserInfo>)
        ensures
            Store::find_all_users_post(*self, r@),
    {
        let mut out: Vec<MinimalUserInfo> = Vec::new();
        let mut n: usize = 0;
        while n < self.users.len()
            invariant
                n <= self.users.len(),
                out@.len() == n,
                forall|i: int|
                    0 <= i < n ==> out@[i] == minimal_info_of(#[trigger] self.users@[i]),
            decreases self.users.len() - n,
        {
            out.push(MinimalUserInfo::from(self.users[n].clone()));
            n += 1;
        }
        out
    }

    /// An insert: rejected on a duplicate email (the unique login key) or
    /// when no id is left to assign; otherwise the row is appended with the
    /// next id and handed back.
    pub open spec fn add_user_post(
        pre: Store,
        post: Store,
        nu: NewUser,
        r: Result<User, StoreError>,
    ) -> bool {
        if has_user_with_email(pre@.users, nu.email@) {
            &&& r == Err::<User, StoreError>(StoreError::ConstraintViolation)
            &&& post@ == pre@
        } else if pre@.next_user_id == i32::MAX as int {
            &&& r == Err::<User, StoreError>(StoreError::Unavailable)
            &&& post@ == pre@
        } else {
            let u = user_with_id(nu, pre@.next_user_id as i32);
            &&& r == Ok::<User, StoreError>(u)
            &&& post@.users == pre@.users.push(u)
            &&& post@.gift_ideas == pre@.gift_ideas
            &&& post@.next_user_id == pre@.next_user_id + 1
            &&& post@.next_gift_id == pre@.next_gift_id
        }
    }

    pub fn add_user(&mut self, new_user: &NewUser) -> (r: Result<User, StoreError>)
        requires
            old(self).wf(),
        ensures
            final(self).wf(),
            Store::add_user_post(*old(self), *final(self), *new_user, r),
    {
        if self.find_user_by_email(new_user.email.as_str()).is_some() {
            return Err(StoreError::ConstraintViolation);
        }
        if self.next_user_id == i32::MAX {
            return Err(StoreError::Unavailable);
        }
        let u = User {
            id: self.next_user_id,
            email: new_user.email.clone(),
            password: new_user.password.clone(),
            first_name: new_user.first_name.clone(),
            last_name: new_user.last_name.clone(),
            phone: new_user.phone.clone(),
        };
        let out = u.clone();
        self.users.push(u);
        self.next_user_id = self.next_user_id + 1;
        Ok(out)
    }

    /// A full-column replace keyed by email: the matching row keeps its id
    /// and takes every other field from `nu`; absent a match, `NotFound`.
    pub open spec fn update_user_post(
        pre: Store,
        post: Store,
        nu: NewUser,
        r: Result<User, StoreError>,
    ) -> bool {
        if has_user_with_email(pre@.users, nu.email@) {
            exists|i: int|
                {
                    &&& 0 <= i < pre@.users.len()
                    &&& (#[trigger] pre@.users[i]).email@ == nu.email@
                    &&& r == Ok::<User, StoreError>(user_with_id(nu, pre@.users[i].id))
                    &&& post@.users == pre@.users.update(i, user_with_id(nu, pre@.users[i].id))
                    &&& post@.gift_ideas == pre@.gift_ideas
                    &&& post@.next_user_id == pre@.next_user_id
                    &&& post@.next_gift_id == pre@.next_gift_id
                }
        } else {
            &&& r == Err::<User, StoreError>(StoreError::NotFound)
            &&& post@ == pre@
        }
    }

    pub fn update_user(&mut self, user: &NewUser) -> (r: Result<User, StoreError>)
        requires
            old(self).wf(),
        ensures
            final(self).wf(),
            Store::update_user_post(*old(self), *final(self), *user, r),
    {
        let mut n: usize = 0;
        while n < self.users.len()
            invariant
                n <= self.users.len(),
                *self == *old(self),
                old(self).wf(),
                forall|k: int| 0 <= k < n ==> (#[trigger] self.users@[k]).email@ != user.email@,
            decreases self.users.len() - n,
        {
            if str_eq(self.users[n].email.as_str(), user.email.as_str()) {
                let ghost i = n as int;
                let updated = User {
                    id: self.users[n].id,
                    email: user.email.clone(),
                    password: user.password.clone(),
                    first_name: user.first_name.clone(),
                    last_name: user.last_name.clone(),
                    phone: user.phone.clone(),
                };
                let out = updated.clone();
                proof {
                    assert(updated == user_with_id(*user, old(self)@.users[i].id));
                }
                self.users.set(n, updated);
                proof {
                    assert(old(self)@.users[i].email@ == user.email@);
                    assert(self@.users == old(self)@.users.update(
                        i,
                        user_with_id(*user, old(self)@.users[i].id),
                    ));
                    assert forall|a: int, b: int| 0 <= a < b < self@.users.len() implies (
                    #[trigger] self@.users[a]).id != (#[trigger] self@.users[b]).id && (
                    self@.users[a]).email@ != (self@.users[b]).email@ by {
                        assert((old(self)@.users[a]).id != (old(self)@.users[b]).id);
                        assert((old(self)@.users[a]).email@ != (old(self)@.users[b]).email@);
                    }
                    assert forall|a: int| 0 <= a < self@.users.len() implies 1 <= (
                    #[trigger] self@.users[a]).id < self@.next_user_id by {
                        assert(1 <= (old(self)@.users[a]).id < old(self)@.next_user_id);
                    }
                }
                return Ok(out);
            }
            n += 1;
        }
        Err(StoreError::NotFound)
    }

    /// The row with this gift-idea id, if any.
    pub open spec fn find_gift_by_id_post(s: Store, gid: i32, r: Option<GiftIdea>) -> bool {
        match r {
            Some(g) => s@.gift_ideas.contains(g) && g.id == gid,
            None => !has_gift_with_id(s@.gift_ideas, gid as int),
        }
    }

    pub fn find_gift_by_id(&self, gid: i32) -> (r: Option<GiftIdea>)
        ensures
            Store::find_gift_by_id_post(*self, gid, r),
    {
        let mut n: usize = 0;
        while n < self.gift_ideas.len()
            invariant
                n <= self.gift_ideas.len(),
                forall|k: int| 0 <= k < n ==> (#[trigger] self.gift_ideas@[k]).id != gid,
            decreases self.gift_ideas.len() - n,
        {
            if self.gift_ideas[n].id == gid {
                return Some(self.gift_ideas[n].clone());
            }
            n += 1;
        }
        None
    }

    /// Every gift-idea row, in table order.
    pub open spec fn find_all_gifts_post(s: Store, r: Seq<GiftIdea>) -> bool {
        r == s@.gift_ideas
    }

    pub fn find_all_gifts(&self) -> (r: Vec<GiftIdea>)
        ensures
            Store::find_all_gifts_post(*self, r@),
    {
        let mut out: Vec<GiftIdea> = Vec::new();
        let mut n: usize = 0;
        while n < self.gift_ideas.len()
            invariant
                n <= self.gift_ideas.len(),
                out@.len() == n,
                forall|i: int| 0 <= i < n ==> out@[i] == self.gift_ideas@[i],
            decreases self.gift_ideas.len() - n,
        {
            out.push(self.gift_ideas[n].clone());
            n += 1;
        }
        proof {
            assert(out@ =~= self@.gift_ideas);
        }
        out
    }

    /// An insert: the row is appended with the next id, then — as the
    /// original re-reads the row by its natural key — the first row whose
    /// title matches is handed back. When no older row shares the title
    /// that is exactly the appended row.
    pub open spec fn add_gift_post(
        pre: Store,
        post: Store,
        ng: NewGiftIdea,
        r: Result<GiftIdea, StoreError>,
    ) -> bool {
        if pre@.next_gift_id == i32::MAX as int {
            &&& r == Err::<GiftIdea, StoreError>(StoreError::Unavailable)
            &&& post@ == pre@
        } else {
            let g = gift_with_id(ng, pre@.next_gift_id as i32);
            &&& post@.gift_ideas == pre@.gift_ideas.push(g)
            &&& post@.users == pre@.users
            &&& post@.next_gift_id == pre@.next_gift_id + 1
            &&& post@.next_user_id == pre@.next_user_id
            &&& exists|i: int|
                {
                    &&& 0 <= i < post@.gift_ideas.len()
                    &&& (#[trigger] post@.gift_ideas[i]).title@ == ng.title@
                    &&& forall|j: int|
                        0 <= j < i ==> (#[trigger] post@.gift_ideas[j]).title@ != ng.title@
                    &&& r == Ok::<GiftIdea, StoreError>(post@.gift_ideas[i])
                }
            &&& !has_gift_with_title(pre@.gift_ideas, ng.title@) ==> r == Ok::<
                GiftIdea,
                StoreError,
            >(g)
        }
    }

    pub fn add_gift_idea(&mut self, new_gift: &NewGiftIdea) -> (r: Result<GiftIdea, StoreError>)
        requires
            old(self).wf(),
        ensures
            final(self).wf(),
            Store::add_gift_post(*old(self), *final(self), *new_gift, r),
    {
        if self.next_gift_id == i32::MAX {
            return Err(StoreError::Unavailable);
        }
        let g = GiftIdea {
            id: self.next_gift_id,
            title: new_gift.title.clone(),
            description: new_gift.description.clone(),
            price: new_gift.price.clone(),
            url: new_gift.url.clone(),
            date_added: new_gift.date_added,
            date_last_modified: new_gift.date_last_modified,
            date_reserved: new_gift.date_reserved,
            owner_id: new_gift.owner_id,
            recipient_user_id: new_gift.recipient_user_id,
            reserved_by_user_id: new_gift.reserved_by_user_id,
        };
        proof {
            assert(g == gift_with_id(*new_gift, old(self)@.next_gift_id as i32));
        }
        self.gift_ideas.push(g);
        self.next_gift_id = self.next_gift_id + 1;
        proof {
            assert forall|a: int| 0 <= a < self@.gift_ideas.len() implies 1 <= (
            #[trigger] self@.gift_ideas[a]).id < self@.next_gift_id by {
                if a < self@.gift_ideas.len() - 1 {
                    assert(1 <= (old(self)@.gift_ideas[a]).id < old(self)@.next_gift_id);
                }
            }
            assert forall|a: int, b: int| 0 <= a < b < self@.gift_ideas.len() implies (
            #[trigger] self@.gift_ideas[a]).id != (#[trigger] self@.gift_ideas[b]).id by {
                if b < self@.gift_ideas.len() - 1 {
                    assert((old(self)@.gift_ideas[a]).id != (old(self)@.gift_ideas[b]).id);
                } else {
                    assert(1 <= (old(self)@.gift_ideas[a]).id < old(self)@.next_gift_id);
                }
            }
        }
        let mut n: usize = 0;
        while n < self.gift_ideas.len()
            invariant
                n <= self.gift_ideas.len(),
                old(self).wf(),
                old(self)@.next_gift_id < i32::MAX,
                self.wf(),
                self@.gift_ideas == old(self)@.gift_ideas.push(
                    gift_with_id(*new_gift, old(self)@.next_gift_id as i32),
                ),
                self@.users == old(self)@.users,
                self@.next_gift_id == old(self)@.next_gift_id + 1,
                self@.next_user_id == old(self)@.next_user_id,
                forall|k: int|
                    0 <= k < n ==> (#[trigger] self.gift_ideas@[k]).title@ != new_gift.title@,
            decreases self.gift_ideas.len() - n,
        {
            if str_eq(self.gift_ideas[n].title.as_str(), new_gift.title.as_str()) {
                let ghost i = n as int;
                let found = self.gift_ideas[n].clone();
                proof {
                    assert((self@.gift_ideas[i]).title@ == new_gift.title@);
                    if !has_gift_with_title(old(self)@.gift_ideas, new_gift.title@) {
                        assert forall|k: int| 0 <= k < self@.gift_ideas.len() - 1 implies (
                        #[trigger] self@.gift_ideas[k]).title@ != new_gift.title@ by {
                            assert(self@.gift_ideas[k] == old(self)@.gift_ideas[k]);
                            assert(!(exists|m: int|
                                0 <= m < old(self)@.gift_ideas.len() && (
                                #[trigger] old(self)@.gift_ideas[m]).title@ == new_gift.title@));
                        }
                        assert(i == self@.gift_ideas.len() - 1);
                    }
                }
                return Ok(found);
            }
            n += 1;
        }
        // never reached: the scan finds at least the row just appended
        proof {
            let last = self@.gift_ideas.len() - 1;
            assert((self@.gift_ideas[last]).title@ == new_gift.title@);
            assert(false);
        }
        Err(StoreError::Unavailable)
    }

    /// A full-column replace keyed by the row's id: the matching row becomes
    /// `g` exactly; absent a match, `NotFound`.
    pub open spec fn update_gift_post(
        pre: Store,
        post: Store,
        g: GiftIdea,
        r: Result<GiftIdea, StoreError>,
    ) -> bool {
        if has_gift_with_id(pre@.gift_ideas, g.id as int) {
            exists|i: int|
                {
                    &&& 0 <= i < pre@.gift_ideas.len()
                    &&& (#[trigger] pre@.gift_ideas[i]).id == g.id
                    &&& r == Ok::<GiftIdea, StoreError>(g)
                    &&& post@.gift_ideas == pre@.gift_ideas.update(i, g)
                    &&& post@.users == pre@.users
                    &&& post@.next_user_id == pre@.next_user_id
                    &&& post@.next_gift_id == pre@.next_gift_id
                }
        } else {
            &&& r == Err::<GiftIdea, StoreError>(StoreError::NotFound)
            &&& post@ == pre@
        }
    }

    pub fn update_gift_idea(&mut self, gift: &GiftIdea) -> (r: Result<GiftIdea, StoreError>)
        requires
            old(self).wf(),
        ensures
            final(self).wf(),
            Store::update_gift_post(*old(self), *final(self), *gift, r),
    {
        let mut n: usize = 0;
        while n < self.gift_ideas.len()
            invariant
                n <= self.gift_ideas.len(),
                *self == *old(self),
                old(self).wf(),
                forall|k: int| 0 <= k < n ==> (#[trigger] self.gift_ideas@[k]).id != gift.id,
            decreases self.gift_ideas.len() - n,
        {
            if self.gift_ideas[n].id == gift.id {
                let ghost i = n as int;
                let updated = gift.clone();
                let out = updated.clone();
                self.gift_ideas.set(n, updated);
                proof {
                    assert((old(self)@.gift_ideas[i]).id == gift.id);
                    assert(self@.gift_ideas == old(self)@.gift_ideas.update(i, *gift));
                    assert forall|a: int, b: int| 0 <= a < b < self@.gift_ideas.len() implies (
                    #[trigger] self@.gift_ideas[a]).id != (#[trigger] self@.gift_ideas[b]).id by {
                        assert((old(self)@.gift_ideas[a]).id != (old(self)@.gift_ideas[b]).id);
                    }
                    assert forall|a: int| 0 <= a < self@.gift_ideas.len() implies 1 <= (
                    #[trigger] self@.gift_ideas[a]).id < self@.next_gift_id by {
                        assert(1 <= (old(self)@.gift_ideas[a]).id < old(self)@.next_gift_id);
                    }
                }
                return Ok(out);
            }
            n += 1;
        }
        Err(StoreError::NotFound)
    }

    /// The reservation transition: the row takes `uid` as its one holder —
    /// unconditionally, so a later reserve overwrites an earlier one — and
    /// the row's response projection is handed back. Every other field and
    /// every other row stays as it was.
    pub open spec fn reserve_post(
        pre: Store,
        post: Store,
        gid: i32,
        uid: i32,
        r: GiftIdeaResponseBody,
    ) -> bool {
        exists|i: int|
            {
                &&& 0 <= i < pre@.gift_ideas.len()
                &&& (#[trigger] pre@.gift_ideas[i]).id == gid
                &&& post@.gift_ideas == pre@.gift_ideas.update(
                    i,
                    with_reservation(pre@.gift_ideas[i], Some(uid)),
                )
                &&& r == response_of(with_reservation(pre@.gift_ideas[i], Some(uid)))
                &&& post@.users == pre@.users
                &&& post@.next_user_id == pre@.next_user_id
                &&& post@.next_gift_id == pre@.next_gift_id
            }
    }

    pub fn reserve(&mut self, gid: i32, uid: i32) -> (r: GiftIdeaResponseBody)
        requires
            old(self).wf(),
            has_gift_with_id(old(self)@.gift_ideas, gid as int),
        ensures
            final(self).wf(),
            Store::reserve_post(*old(self), *final(self), gid, uid, r),
    {
        self.set_reservation(gid, Some(uid))
    }

    /// The release transition: the row's holder is cleared, whoever held it.
    pub open spec fn unreserve_post(
        pre: Store,
        post: Store,
        gid: i32,
        r: GiftIdeaResponseBody,
    ) -> bool {
        exists|i: int|
            {
                &&& 0 <= i < pre@.gift_ideas.len()
                &&& (#[trigger] pre@.gift_ideas[i]).id == gid
                &&& post@.gift_ideas == pre@.gift_ideas.update(
                    i,
                    with_reservation(pre@.gift_ideas[i], None),
                )
                &&& r == response_of(with_reservation(pre@.gift_ideas[i], None))
                &&& post@.users == pre@.users
                &&& post@.next_user_id == pre@.next_user_id
                &&& post@.next_gift_id == pre@.next_gift_id
            }
    }

    pub fn unreserve(&mut self, gid: i32) -> (r: GiftIdeaResponseBody)
        requires
            old(self).wf(),
            has_gift_with_id(old(self)@.gift_ideas, gid as int),
        ensures
            final(self).wf(),
            Store::unreserve_post(*old(self), *final(self), gid, r),
    {
        self.set_reservation(gid, None)
    }

    /// Both transitions share one body: overwrite the holder field of the
    /// row with this id.
    fn set_reservation(&mut self, gid: i32, holder: Option<i32>) -> (r: GiftIdeaResponseBody)
        requires
            old(self).wf(),
            has_gift_with_id(old(self)@.gift_ideas, gid as int),
        ensures
            final(self).wf(),
            exists|i: int|
                {
                    &&& 0 <= i < old(self)@.gift_ideas.len()
                    &&& (#[trigger] old(self)@.gift_ideas[i]).id == gid
                    &&& final(self)@.gift_ideas == old(self)@.gift_ideas.update(
                        i,
                        with_reservation(old(self)@.gift_ideas[i], holder),
                    )
                    &&& r == response_of(with_reservation(old(self)@.gift_ideas[i], holder))
                    &&& final(self)@.users == old(self)@.users
                    &&& final(self)@.next_user_id == old(self)@.next_user_id
                    &&& final(self)@.next_gift_id == old(self)@.next_gift_id
                },
    {
        let mut n: usize = 0;
        while n < self.gift_ideas.len()
            invariant
                n <= self.gift_ideas.len(),
                *self == *old(self),
                old(self).wf(),
                has_gift_with_id(old(self)@.gift_ideas, gid as int),
                forall|k: int| 0 <= k < n ==> (#[trigger] self.gift_ideas@[k]).id != gid,
            decreases self.gift_ideas.len() - n,
        {
            if self.gift_ideas[n].id == gid {
                let ghost i = n as int;
                let mut updated = self.gift_ideas[n].clone();
                updated.reserved_by_user_id = holder;
                proof {
                    assert(updated == with_reservation(old(self)@.gift_ideas[i], holder));
                }
                let out = GiftIdeaResponseBody::from(updated.clone());
                self.gift_ideas.set(n, updated);
                proof {
                    assert((old(self)@.gift_ideas[i]).id == gid);
                    assert(self@.gift_ideas == old(self)@.gift_ideas.update(
                        i,
                        with_reservation(old(self)@.gift_ideas[i], holder),
                    ));
                    assert forall|a: int, b: int| 0 <= a < b < self@.gift_ideas.len() implies (
                    #[trigger] self@.gift_ideas[a]).id != (#[trigger] self@.gift_ideas[b]).id by {
                        assert((old(self)@.gift_ideas[a]).id != (old(self)@.gift_ideas[b]).id);
                    }
                    assert forall|a: int| 0 <= a < self@.gift_ideas.len() implies 1 <= (
                    #[trigger] self@.gift_ideas[a]).id < self@.next_gift_id by {
                        assert(1 <= (old(self)@.gift_ideas[a]).id < old(self)@.next_gift_id);
                    }
                }
                return out;
            }
            n += 1;
        }
        // never reached: a row with this id was required to exist
        proof {
            assert(false);
        }
        GiftIdeaResponseBody {
            id: 0,
            title: String::new(),
            description: None,
            price: None,
            url: None,
            owner_id: 0,
            recipient_user_id: 0,
            reserved_by_user_id: None,
        }
    }

    /// Whether some row carries this gift-idea id.
    pub fn has_gift(&self, gid: i32) -> (r: bool)
        ensures
            r == has_gift_with_id(self@.gift_ideas, gid as int),
    {
        let mut n: usize = 0;
        while n < self.gift_ideas.len()
            invariant
                n <= self.gift_ideas.len(),
                forall|k: int| 0 <= k < n ==> (#[trigger] self.gift_ideas@[k]).id != gid,
            decreases self.gift_ideas.len() - n,
        {
            if self.gift_ideas[n].id == gid {
                return true;
            }
            n += 1;
        }
        false
    }

    /// A delete keyed by id: the matching row is removed and `true` comes
    /// back; with no match the store stays as it is and `false` comes back.
    pub open spec fn delete_gift_post(pre: Store, post: Store, gid: i32, r: bool) -> bool {
        if has_gift_with_id(pre@.gift_ideas, gid as int) {
            &&& r == true
            &&& exists|i: int|
                {
                    &&& 0 <= i < pre@.gift_ideas.len()
                    &&& (#[trigger] pre@.gift_ideas[i]).id == gid
                    &&& post@.gift_ideas == pre@.gift_ideas.remove(i)
                    &&& post@.users == pre@.users
                    &&& post@.next_user_id == pre@.next_user_id
                    &&& post@.next_gift_id == pre@.next_gift_id
                }
        } else {
            &&& r == false
            &&& post@ == pre@
        }
    }

    pub fn delete_gift(&mut self, gid: i32) -> (r: bool)
        requires
            old(self).wf(),
        ensures
            final(self).wf(),
            Store::delete_gift_post(*old(self), *final(self), gid, r),
    {
        let mut n: usize = 0;
        while n < self.gift_ideas.len()
            invariant
                n <= self.gift_ideas.len(),
                *self == *old(self),
                old(self).wf(),
                forall|k: int| 0 <= k < n ==> (#[trigger] self.gift_ideas@[k]).id != gid,
            decreases self.gift_ideas.len() - n,
        {
            if self.gift_ideas[n].id == gid {
                let ghost i = n as int;
                self.gift_ideas.remove(n);
                proof {
                    assert((old(self)@.gift_ideas[i]).id == gid);
                    assert(self@.gift_ideas == old(self)@.gift_ideas.remove(i));
                    assert forall|a: int, b: int| 0 <= a < b < self@.gift_ideas.len() implies (
                    #[trigger] self@.gift_ideas[a]).id != (#[trigger] self@.gift_ideas[b]).id by {
                        if b < i {
                            assert((old(self)@.gift_ideas[a]).id != (old(self)@.gift_ideas[b]).id);
                        } else if a < i {
                            assert((old(self)@.gift_ideas[a]).id != (old(self)@.gift_ideas[b
                                + 1]).id);
                        } else {
                            assert((old(self)@.gift_ideas[a + 1]).id != (old(self)@.gift_ideas[b
                                + 1]).id);
                        }
                    }
                    assert forall|a: int| 0 <= a < self@.gift_ideas.len() implies 1 <= (
                    #[trigger] self@.gift_ideas[a]).id < self@.next_gift_id by {
                        if a < i {
                            assert(1 <= (old(self)@.gift_ideas[a]).id < old(self)@.next_gift_id);
                        } else {
                            assert(1 <= (old(self)@.gift_ideas[a + 1]).id
                                < old(self)@.next_gift_id);
                        }
                    }
                }
                return true;
            }
            n += 1;
        }
        false
    }
}

} // verus!
