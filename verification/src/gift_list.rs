//! The logic of the client's gift-list page: which rows the viewer sees,
//! which controls each row offers, and how the local list tracks the
//! server's answers.

use vstd::prelude::*;

use crate::shared::GiftIdeaResponseBody;

verus! {

/// The gift idea with only its visible reservation holder changed.
pub open spec fn response_with_holder(
    g: GiftIdeaResponseBody,
    holder: Option<i32>,
) -> GiftIdeaResponseBody {
    GiftIdeaResponseBody { reserved_by_user_id: holder, ..g }
}

/// The rows the viewer's list shows: every gift idea except those meant
/// for the viewer, so nobody sees what is planned for them.
pub fn visible_gift_ideas(gift_ideas: Vec<GiftIdeaResponseBody>, viewer_id: i32) -> (r: Vec<
    GiftIdeaResponseBody,
>)
    ensures
        r@ == gift_ideas@.filter(|g: GiftIdeaResponseBody| g.recipient_user_id != viewer_id),
{
    let ghost pred = |g: GiftIdeaResponseBody| g.recipient_user_id != viewer_id;
    let mut out: Vec<GiftIdeaResponseBody> = Vec::new();
    let mut n: usize = 0;
    proof {
        assert(gift_ideas@.subrange(0, 0) =~= Seq::<GiftIdeaResponseBody>::empty());
        assert(out@ =~= Seq::<GiftIdeaResponseBody>::empty());
        assert(Seq::<GiftIdeaResponseBody>::empty().filter(pred)
            =~= Seq::<GiftIdeaResponseBody>::empty()) by {
            reveal(Seq::filter);
        }
    }
    while n < gift_ideas.len()
        invariant
            n <= gift_ideas.len(),
            forall|g: GiftIdeaResponseBody| #[trigger] pred(g) == (g.recipient_user_id != viewer_id),
            out@ == gift_ideas@.subrange(0, n as int).filter(pred),
        decreases gift_ideas.len() - n,
    {
        proof {
            broadcast use Seq::lemma_filter_push;

            let pre = gift_ideas@.subrange(0, n as int);
            let elem = gift_ideas@[n as int];
            assert(gift_ideas@.subrange(0, n + 1) =~= pre.push(elem));
            assert(pre.push(elem).filter(pred) == if pred(elem) {
                pre.filter(pred).push(elem)
            } else {
                pre.filter(pred)
            });
        }
        if gift_ideas[n].recipient_user_id != viewer_id {
            out.push(gift_ideas[n].clone());
        }
        n += 1;
    }
    proof {
        assert(gift_ideas@.subrange(0, gift_ideas@.len() as int) =~= gift_ideas@);
    }
    out
}

/// Drop a gift idea from the local list, as the page does the moment the
/// delete request is sent.
pub fn remove_gift_idea(gift_ideas: &mut Vec<GiftIdeaResponseBody>, gift_id: i32)
    ensures
        final(gift_ideas)@ == old(gift_ideas)@.filter(
            |g: GiftIdeaResponseBody| g.id != gift_id,
        ),
{
    let ghost pred = |g: GiftIdeaResponseBody| g.id != gift_id;
    let mut out: Vec<GiftIdeaResponseBody> = Vec::new();
    let mut n: usize = 0;
    proof {
        assert(old(gift_ideas)@.subrange(0, 0) =~= Seq::<GiftIdeaResponseBody>::empty());
        assert(out@ =~= Seq::<GiftIdeaResponseBody>::empty());
        assert(Seq::<GiftIdeaResponseBody>::empty().filter(pred)
            =~= Seq::<GiftIdeaResponseBody>::empty()) by {
            reveal(Seq::filter);
        }
    }
    while n < gift_ideas.len()
        invariant
            n <= gift_ideas.len(),
            *gift_ideas == *old(gift_ideas),
            forall|g: GiftIdeaResponseBody| #[trigger] pred(g) == (g.id != gift_id),
            out@ == gift_ideas@.subrange(0, n as int).filter(pred),
        decreases gift_ideas.len() - n,
    {
        proof {
            broadcast use Seq::lemma_filter_push;

            let pre = gift_ideas@.subrange(0, n as int);
            let elem = gift_ideas@[n as int];
            assert(gift_ideas@.subrange(0, n + 1) =~= pre.push(elem));
            assert(pre.push(elem).filter(pred) == if pred(elem) {
                pre.filter(pred).push(elem)
            } else {
                pre.filter(pred)
            });
        }
        if gift_ideas[n].id != gift_id {
            out.push(gift_ideas[n].clone());
        }
        n += 1;
    }
    proof {
        assert(gift_ideas@.subrange(0, gift_ideas@.len() as int) =~= gift_ideas@);
    }
    *gift_ideas = out;
}

/// Fold a reserve/unreserve answer into the local list: the first row with
/// the answered id takes over the answered holder, and nothing else moves.
pub fn apply_reservation(
    gift_ideas: &mut Vec<GiftIdeaResponseBody>,
    updated: &GiftIdeaResponseBody,
)
    requires
        exists|i: int|
            0 <= i < old(gift_ideas)@.len() && (#[trigger] old(gift_ideas)@[i]).id == updated.id,
    ensures
        exists|i: int|
            {
                &&& 0 <= i < old(gift_ideas)@.len()
                &&& (#[trigger] old(gift_ideas)@[i]).id == updated.id
                &&& forall|j: int|
                    0 <= j < i ==> (#[trigger] old(gift_ideas)@[j]).id != updated.id
                &&& final(gift_ideas)@ == old(gift_ideas)@.update(
                    i,
                    response_with_holder(old(gift_ideas)@[i], updated.reserved_by_user_id),
                )
            },
{
    let mut n: usize = 0;
    while n < gift_ideas.len()
        invariant
            n <= gift_ideas.len(),
            *gift_ideas == *old(gift_ideas),
            exists|i: int|
                0 <= i < gift_ideas@.len() && (#[trigger] gift_ideas@[i]).id == updated.id,
            forall|k: int| 0 <= k < n ==> (#[trigger] gift_ideas@[k]).id != updated.id,
        decreases gift_ideas.len() - n,
    {
        if gift_ideas[n].id == updated.id {
            let ghost i = n as int;
            let mut row = gift_ideas[n].clone();
            row.reserved_by_user_id = updated.reserved_by_user_id;
            proof {
                assert(row == response_with_holder(
                    old(gift_ideas)@[i],
                    updated.reserved_by_user_id,
                ));
            }
            gift_ideas.set(n, row);
            proof {
                assert((old(gift_ideas)@[i]).id == updated.id);
            }
            return ;
        }
        n += 1;
    }
    // never reached: a row with the answered id was required to exist
    proof {
        let i = choose|i: int|
            0 <= i < gift_ideas@.len() && (#[trigger] gift_ideas@[i]).id == updated.id;
        assert((gift_ideas@[i]).id != updated.id);
        assert(false);
    }
}

/// The one reservation control a row shows the viewer.
#[derive(Debug, PartialEq, Eq, Clone, Copy, Structural)]
pub enum RowControl {
    /// The row is open and the viewer may claim it.
    Reserve,
    /// The viewer holds the reservation and may release it.
    Unreserve,
    /// Someone else holds the reservation; the row is read-only.
    Reserved,
    /// The gift idea is meant for the viewer, who gets no control at all.
    Hidden,
}

/// Which reservation control a row shows, as a function of the row and the
/// viewer.
pub open spec fn row_control_spec(g: GiftIdeaResponseBody, user_id: i32) -> RowControl {
    if g.recipient_user_id == user_id {
        RowControl::Hidden
    } else {
        match g.reserved_by_user_id {
            None => RowControl::Reserve,
            Some(holder) => if holder == user_id {
                RowControl::Unreserve
            } else {
                RowControl::Reserved
            },
        }
    }
}

/// The reservation control a gift-list row offers this viewer.
pub fn row_control(gift_idea: &GiftIdeaResponseBody, user_id: i32) -> (r: RowControl)
    ensures
        r == row_control_spec(*gift_idea, user_id),
{
    if gift_idea.recipient_user_id == user_id {
        RowControl::Hidden
    } else {
        match gift_idea.reserved_by_user_id {
            None => RowControl::Reserve,
            Some(holder) => if holder == user_id {
                RowControl::Unreserve
            } else {
                RowControl::Reserved
            },
        }
    }
}

/// A message the gift-list page can receive: a click on one of its
/// controls, or the answer to a request it sent earlier.
#[derive(Debug)]
pub enum GiftListMsg {
    ReserveGiftIdea(i32),
    UnreserveGiftIdea(i32),
    GiftIdeaReserved(Result<GiftIdeaResponseBody, String>),
    GiftIdeaUnreserved(Result<GiftIdeaResponseBody, String>),
    EditGiftIdea(i32),
    DeleteGiftIdea(i32),
    GiftIdeaDeleted(Result<bool, String>),
    GiftIdeasLoaded(Result<Vec<GiftIdeaResponseBody>, String>),
}

/// A request the gift-list page asks the browser shell to send.
#[derive(Debug, PartialEq, Eq, Clone, Copy, Structural)]
pub enum GiftListRequest {
    Reserve(i32, i32),
    Unreserve(i32),
    Delete(i32),
    ShowGiftList,
}

/// One step of the gift-list page: the next local list and the requests to
/// send. A reserve or unreserve click sends the matching request; a delete
/// click sends the delete and drops the row locally at once; a loaded list
/// replaces the local one, minus the rows meant for the viewer; a reserve
/// answer is folded into the matching row; an unreserve or delete
/// confirmation re-opens the gift list; a failed request changes nothing.
/// The clicks and the loaded list read the viewer's id, and a reserve
/// answer expects its row to still be present, so those steps are only
/// taken under a logged-in session holding such a row.
pub fn update(
    msg: GiftListMsg,
    gift_ideas: &mut Vec<GiftIdeaResponseBody>,
    viewer_id: i32,
) -> (r: Vec<GiftListRequest>)
    requires
        match msg {
            GiftListMsg::GiftIdeaReserved(Ok(answer)) => exists|i: int|
                0 <= i < old(gift_ideas)@.len() && (#[trigger] old(gift_ideas)@[i]).id
                    == answer.id,
            _ => true,
        },
    ensures
        match msg {
            GiftListMsg::ReserveGiftIdea(gift_id) => final(gift_ideas)@ == old(gift_ideas)@ && r@
                =~= seq![GiftListRequest::Reserve(gift_id, viewer_id)],
            GiftListMsg::UnreserveGiftIdea(gift_id) => final(gift_ideas)@ == old(gift_ideas)@
                && r@ =~= seq![GiftListRequest::Unreserve(gift_id)],
            GiftListMsg::EditGiftIdea(_) => final(gift_ideas)@ == old(gift_ideas)@ && r@ =~= Seq::<
                GiftListRequest,
            >::empty(),
            GiftListMsg::DeleteGiftIdea(gift_id) => final(gift_ideas)@ == old(gift_ideas)@.filter(
                |g: GiftIdeaResponseBody| g.id != gift_id,
            ) && r@ =~= seq![GiftListRequest::Delete(gift_id)],
            GiftListMsg::GiftIdeasLoaded(Ok(fetched)) => final(gift_ideas)@ == fetched@.filter(
                |g: GiftIdeaResponseBody| g.recipient_user_id != viewer_id,
            ) && r@ =~= Seq::<GiftListRequest>::empty(),
            GiftListMsg::GiftIdeasLoaded(Err(_)) => final(gift_ideas)@ == old(gift_ideas)@ && r@
                =~= Seq::<GiftListRequest>::empty(),
            GiftListMsg::GiftIdeaReserved(Ok(answer)) => (exists|i: int|
                {
                    &&& 0 <= i < old(gift_ideas)@.len()
                    &&& (#[trigger] old(gift_ideas)@[i]).id == answer.id
                    &&& forall|j: int|
                        0 <= j < i ==> (#[trigger] old(gift_ideas)@[j]).id != answer.id
                    &&& final(gift_ideas)@ == old(gift_ideas)@.update(
                        i,
                        response_with_holder(old(gift_ideas)@[i], answer.reserved_by_user_id),
                    )
                }) && r@ =~= Seq::<GiftListRequest>::empty(),
            GiftListMsg::GiftIdeaReserved(Err(_)) => final(gift_ideas)@ == old(gift_ideas)@ && r@
                =~= Seq::<GiftListRequest>::empty(),
            GiftListMsg::GiftIdeaUnreserved(Ok(_)) => final(gift_ideas)@ == old(gift_ideas)@ && r@
                =~= seq![GiftListRequest::ShowGiftList],
            GiftListMsg::GiftIdeaUnreserved(Err(_)) => final(gift_ideas)@ == old(gift_ideas)@
                && r@ =~= Seq::<GiftListRequest>::empty(),
            GiftListMsg::GiftIdeaDeleted(Ok(_)) => final(gift_ideas)@ == old(gift_ideas)@ && r@
                =~= seq![GiftListRequest::ShowGiftList],
            GiftListMsg::GiftIdeaDeleted(Err(_)) => final(gift_ideas)@ == old(gift_ideas)@ && r@
                =~= Seq::<GiftListRequest>::empty(),
        },
{
    let mut requests: Vec<GiftListRequest> = Vec::new();
    match msg {
        GiftListMsg::ReserveGiftIdea(gift_id) => {
            requests.push(GiftListRequest::Reserve(gift_id, viewer_id));
        },
        GiftListMsg::UnreserveGiftIdea(gift_id) => {
            requests.push(GiftListRequest::Unreserve(gift_id));
        },
        GiftListMsg::EditGiftIdea(_) => {},
        GiftListMsg::DeleteGiftIdea(gift_id) => {
            requests.push(GiftListRequest::Delete(gift_id));
            remove_gift_idea(gift_ideas, gift_id);
        },
        GiftListMsg::GiftIdeasLoaded(Ok(fetched)) => {
            *gift_ideas = visible_gift_ideas(fetched, viewer_id);
        },
        GiftListMsg::GiftIdeasLoaded(Err(_)) => {},
        GiftListMsg::GiftIdeaReserved(Ok(answer)) => {
            apply_reservation(gift_ideas, &answer);
        },
        GiftListMsg::GiftIdeaReserved(Err(_)) => {},
        GiftListMsg::GiftIdeaUnreserved(Ok(_)) => {
            requests.push(GiftListRequest::ShowGiftList);
        },
        GiftListMsg::GiftIdeaUnreserved(Err(_)) => {},
        GiftListMsg::GiftIdeaDeleted(Ok(_)) => {
            requests.push(GiftListRequest::ShowGiftList);
        },
        GiftListMsg::GiftIdeaDeleted(Err(_)) => {},
    }
    requests
}

/// Whether a row shows the edit and delete controls: only to its owner.
pub fn shows_owner_controls(gift_idea: &GiftIdeaResponseBody, user_id: i32) -> (r: bool)
    ensures
        r == (user_id == gift_idea.owner_id),
{
    user_id == gift_idea.owner_id
}

} // verus!
