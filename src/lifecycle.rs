//! What request flows do to the in-memory store, across requests.
use vstd::prelude::*;

use crate::handlers::{
    create_step, not_found_reply, outcome, rejects_body, remove_step, replace_step, served, with_id,
    CallView, PendingView, StepView,
};
use crate::response::{BodyView, ResponseView};
use crate::store::{
    find, holds_id, ids_unique, lemma_delete_removes, lemma_get_after_put, remove_id, upsert,
};
use crate::wishlist::WishlistView;

verus! {

/// The flow of a read of one record.
pub open spec fn fetch_step(id: Seq<char>) -> StepView {
    StepView::Call(CallView::Get(id), PendingView::Fetching)
}

/// The flow of a listing.
pub open spec fn list_step() -> StepView {
    StepView::Call(CallView::Scan, PendingView::Listing)
}

/// A read of one record gives it with 200, or 404 where there is none, and
/// changes nothing.
pub proof fn lemma_fetch(s: Seq<WishlistView>, id: Seq<char>)
    ensures
        served(s, fetch_step(id)).0 == s,
        served(s, fetch_step(id)).1 == match find(s, id) {
            Some(w) => ResponseView { status: 200, body: BodyView::Record(w) },
            None => not_found_reply(),
        },
{
    reveal_with_fuel(outcome, 3);
}

/// A created record is read back as it was created, with its id assigned
/// where it had none; the creation answers 201 with that record.
pub proof fn lemma_create_then_fetch(s: Seq<WishlistView>, w: WishlistView, fresh: Seq<char>)
    requires
        ids_unique(s),
    ensures
        served(s, create_step(w, fresh)).0 == upsert(s, with_id(w, fresh)),
        served(s, create_step(w, fresh)).1 == (ResponseView {
            status: 201,
            body: BodyView::Record(with_id(w, fresh)),
        }),
        served(served(s, create_step(w, fresh)).0, fetch_step(with_id(w, fresh).id)).1 == (
        ResponseView { status: 200, body: BodyView::Record(with_id(w, fresh)) }),
{
    reveal_with_fuel(outcome, 3);
    let s1 = upsert(s, with_id(w, fresh));
    lemma_get_after_put(s, with_id(w, fresh));
    lemma_fetch(s1, with_id(w, fresh).id);
}

/// A replacement whose id no record has answers 404 and writes nothing.
pub proof fn lemma_replace_absent(s: Seq<WishlistView>, w: WishlistView)
    requires
        !holds_id(s, w.id),
    ensures
        served(s, replace_step(w)) == (s, not_found_reply()),
{
    reveal_with_fuel(outcome, 3);
}

/// A replacement of a record that exists writes it whole and answers 200
/// with it; a read then gives the replacement.
pub proof fn lemma_replace_present(s: Seq<WishlistView>, w: WishlistView)
    requires
        ids_unique(s),
        holds_id(s, w.id),
    ensures
        served(s, replace_step(w)) == (upsert(s, w), ResponseView {
            status: 200,
            body: BodyView::Record(w),
        }),
        served(upsert(s, w), fetch_step(w.id)).1 == (ResponseView {
            status: 200,
            body: BodyView::Record(w),
        }),
{
    reveal_with_fuel(outcome, 3);
    lemma_get_after_put(s, w);
    lemma_fetch(upsert(s, w), w.id);
}

/// A deletion of a record that exists removes it and answers 204. After it
/// a read of the id answers 404, a listing holds no record with the id, and
/// deleting the id again answers 404 and changes nothing.
pub proof fn lemma_delete_then_absent(s: Seq<WishlistView>, id: Seq<char>)
    requires
        ids_unique(s),
        holds_id(s, id),
    ensures
        served(s, remove_step(id)) == (remove_id(s, id), ResponseView {
            status: 204,
            body: BodyView::Empty,
        }),
        served(remove_id(s, id), fetch_step(id)).1 == not_found_reply(),
        served(remove_id(s, id), list_step()).1 == (ResponseView {
            status: 200,
            body: BodyView::Records(remove_id(s, id)),
        }),
        forall|i: int|
            0 <= i < remove_id(s, id).len() ==> (#[trigger] remove_id(s, id)[i]).id != id,
        served(remove_id(s, id), remove_step(id)) == (remove_id(s, id), not_found_reply()),
{
    reveal_with_fuel(outcome, 3);
    let k = crate::store::index_of(s, id);
    assert(s[k].id == id);
    lemma_delete_removes(s, id);
    lemma_fetch(remove_id(s, id), id);
}

/// A deletion of an id that no record has answers 404 and changes nothing.
pub proof fn lemma_delete_absent(s: Seq<WishlistView>, id: Seq<char>)
    requires
        !holds_id(s, id),
    ensures
        served(s, remove_step(id)) == (s, not_found_reply()),
{
    reveal_with_fuel(outcome, 3);
}

/// A request whose body did not parse answers 400 with an error message,
/// never a record, and changes nothing.
pub proof fn lemma_rejected_body(s: Seq<WishlistView>, step: StepView)
    requires
        rejects_body(step),
    ensures
        served(s, step).0 == s,
        served(s, step).1.status == 400,
        !(served(s, step).1.body is Record),
{
    reveal_with_fuel(outcome, 1);
}

} // verus!
