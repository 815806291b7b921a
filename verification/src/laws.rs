//! The laws of the store: what a sequence of repository operations is
//! guaranteed to observe, proved from the operations' contracts alone.

use vstd::prelude::*;

use crate::models::GiftIdea;
use crate::models::NewGiftIdea;
use crate::store::gift_with_id;
use crate::store::has_gift_with_id;
use crate::store::has_gift_with_title;
use crate::store::with_reservation;
use crate::store::Store;

verus! {

/// Law: a created gift idea is read back unchanged. After an insert whose
/// title no existing row shares — with a shared title the re-read by
/// natural key would answer the older row — a find by the returned id
/// yields exactly the inserted row, whose title, description, price, url,
/// owner and recipient echo the insert and whose holder is the one the
/// insert carried (absent, for a row built from an add request).
pub proof fn lemma_add_then_find_gift(
    s0: Store,
    s1: Store,
    ng: NewGiftIdea,
    added: GiftIdea,
    found: Option<GiftIdea>,
)
    requires
        s0.wf(),
        s1.wf(),
        !has_gift_with_title(s0@.gift_ideas, ng.title@),
        s0@.next_gift_id < i32::MAX as int,
        Store::add_gift_post(s0, s1, ng, Ok(added)),
        Store::find_gift_by_id_post(s1, added.id, found),
    ensures
        found == Some(added),
        added.title == ng.title,
        added.description == ng.description,
        added.price == ng.price,
        added.url == ng.url,
        added.owner_id == ng.owner_id,
        added.recipient_user_id == ng.recipient_user_id,
        added.reserved_by_user_id == ng.reserved_by_user_id,
{
    assert(added == gift_with_id(ng, s0@.next_gift_id as i32));
    let last = s1@.gift_ideas.len() - 1;
    assert(s1@.gift_ideas[last] == added);
    match found {
        Some(u) => {
            let k = choose|k: int|
                0 <= k < s1@.gift_ideas.len() && s1@.gift_ideas[k] == u;
            assert(s1@.gift_ideas[k].id == added.id);
            if k != last {
                assert((s1@.gift_ideas[k]).id != (s1@.gift_ideas[last]).id);
            }
            assert(u == added);
        },
        None => {
            assert(has_gift_with_id(s1@.gift_ideas, added.id as int));
        },
    }
}

/// Law: the reservation toggle round-trips. A reserve records exactly the
/// given user as the holder — a following find reads that holder back —
/// and a following unreserve clears the holder again; no other field and
/// no other row is touched, so a row that was unreserved to begin with
/// comes back to precisely its original state.
pub proof fn lemma_reserve_unreserve_round_trip(
    s0: Store,
    s1: Store,
    s2: Store,
    i: int,
    gid: i32,
    uid: i32,
    r1: crate::shared::GiftIdeaResponseBody,
    found: Option<GiftIdea>,
    r2: crate::shared::GiftIdeaResponseBody,
)
    requires
        s0.wf(),
        s1.wf(),
        s2.wf(),
        0 <= i < s0@.gift_ideas.len(),
        (s0@.gift_ideas[i]).id == gid,
        Store::reserve_post(s0, s1, gid, uid, r1),
        Store::find_gift_by_id_post(s1, gid, found),
        Store::unreserve_post(s1, s2, gid, r2),
    ensures
        r1.reserved_by_user_id == Some(uid),
        found == Some(with_reservation(s0@.gift_ideas[i], Some(uid))),
        r2.reserved_by_user_id is None,
        s2@.gift_ideas == s0@.gift_ideas.update(i, with_reservation(s0@.gift_ideas[i], None)),
        s0@.gift_ideas[i].reserved_by_user_id is None ==> s2@.gift_ideas == s0@.gift_ideas,
{
    let j = choose|j: int|
        {
            &&& 0 <= j < s0@.gift_ideas.len()
            &&& (#[trigger] s0@.gift_ideas[j]).id == gid
            &&& s1@.gift_ideas == s0@.gift_ideas.update(
                j,
                with_reservation(s0@.gift_ideas[j], Some(uid)),
            )
            &&& r1 == crate::models::response_of(with_reservation(s0@.gift_ideas[j], Some(uid)))
            &&& s1@.users == s0@.users
            &&& s1@.next_user_id == s0@.next_user_id
            &&& s1@.next_gift_id == s0@.next_gift_id
        };
    if j != i {
        assert((s0@.gift_ideas[i]).id != (s0@.gift_ideas[j]).id);
    }
    let reserved_row = with_reservation(s0@.gift_ideas[i], Some(uid));
    assert(s1@.gift_ideas[i] == reserved_row);
    match found {
        Some(u) => {
            let k = choose|k: int|
                0 <= k < s1@.gift_ideas.len() && s1@.gift_ideas[k] == u;
            assert(s1@.gift_ideas[k].id == gid);
            if k != i {
                assert((s1@.gift_ideas[k]).id != (s1@.gift_ideas[i]).id);
            }
            assert(u == reserved_row);
        },
        None => {
            assert(has_gift_with_id(s1@.gift_ideas, gid as int));
        },
    }
    let m = choose|m: int|
        {
            &&& 0 <= m < s1@.gift_ideas.len()
            &&& (#[trigger] s1@.gift_ideas[m]).id == gid
            &&& s2@.gift_ideas == s1@.gift_ideas.update(
                m,
                with_reservation(s1@.gift_ideas[m], None),
            )
            &&& r2 == crate::models::response_of(with_reservation(s1@.gift_ideas[m], None))
            &&& s2@.users == s1@.users
            &&& s2@.next_user_id == s1@.next_user_id
            &&& s2@.next_gift_id == s1@.next_gift_id
        };
    if m != i {
        assert((s1@.gift_ideas[m]).id != (s1@.gift_ideas[i]).id);
    }
    assert(s2@.gift_ideas =~= s0@.gift_ideas.update(
        i,
        with_reservation(s0@.gift_ideas[i], None),
    ));
    if s0@.gift_ideas[i].reserved_by_user_id is None {
        assert(with_reservation(s0@.gift_ideas[i], None) == s0@.gift_ideas[i]);
        assert(s2@.gift_ideas =~= s0@.gift_ideas);
    }
}

/// Law: a delete answers `true` exactly when the id existed, and after a
/// delete that removed the row a find by that id answers nothing; a delete
/// of an unknown id answers `false` and moves nothing.
pub proof fn lemma_delete_then_find_gift(
    s0: Store,
    s1: Store,
    gid: i32,
    removed: bool,
    found: Option<GiftIdea>,
)
    requires
        s0.wf(),
        s1.wf(),
        Store::delete_gift_post(s0, s1, gid, removed),
        Store::find_gift_by_id_post(s1, gid, found),
    ensures
        removed == has_gift_with_id(s0@.gift_ideas, gid as int),
        removed ==> found is None,
        !removed ==> s1@ == s0@,
{
    if removed {
        let i = choose|i: int|
            {
                &&& 0 <= i < s0@.gift_ideas.len()
                &&& (#[trigger] s0@.gift_ideas[i]).id == gid
                &&& s1@.gift_ideas == s0@.gift_ideas.remove(i)
                &&& s1@.users == s0@.users
                &&& s1@.next_user_id == s0@.next_user_id
                &&& s1@.next_gift_id == s0@.next_gift_id
            };
        assert forall|k: int| 0 <= k < s1@.gift_ideas.len() implies (
        #[trigger] s1@.gift_ideas[k]).id != gid by {
            if k < i {
                assert((s0@.gift_ideas[k]).id != (s0@.gift_ideas[i]).id);
            } else {
                assert((s0@.gift_ideas[k + 1]).id != (s0@.gift_ideas[i]).id);
            }
        }
        match found {
            Some(u) => {
                let k = choose|k: int|
                    0 <= k < s1@.gift_ideas.len() && s1@.gift_ideas[k] == u;
                assert((s1@.gift_ideas[k]).id != gid);
                assert(false);
            },
            None => {
            },
        }
    }
}

} // verus!
