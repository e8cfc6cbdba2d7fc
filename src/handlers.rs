//! The request handlers. A handler decides; the store work it needs is
//! handed out as a call, and its reply is fed back. `serve` runs a flow
//! against the in-memory store; a remote store is driven the same way by
//! its caller.
use vstd::prelude::*;

use crate::error::{serialization_prefix, AppError};
use crate::response::{
    build_error_response, build_response, error_body, error_response, health_body, health_response,
    records, ApiResponse, BodyView, ResponseBody, ResponseView,
};
use crate::router::{
    clean_path, has_prefix, route, route_of, same_text, strip_prefixes, strip_stage,
    strip_suffix_char, trim_end_char, trim_start_matches, Route,
};
use crate::store::{find, opt_view, remove_id, upsert, MemoryStore};
use crate::wishlist::{Wishlist, WishlistView};

verus! {

/// A call on the store that a handler waits for.
#[derive(Debug)]
pub enum StoreCall {
    Scan,
    Get(String),
    Put(Wishlist),
    Delete(String),
}

pub enum CallView {
    Scan,
    Get(Seq<char>),
    Put(WishlistView),
    Delete(Seq<char>),
}

/// What a handler does with the reply to its store call.
#[derive(Debug)]
pub enum Pending {
    /// Lists the records.
    Listing,
    /// Returns the record read.
    Fetching,
    /// Reports the record written as created.
    Creating(Wishlist),
    /// Writes the replacement if a record with its id was read.
    Checking(Wishlist),
    /// Reports the replacement as written.
    Replacing(Wishlist),
    /// Deletes the id if a record with it was read.
    CheckingRemoval(String),
    /// Reports the deletion.
    Removing,
}

pub enum PendingView {
    Listing,
    Fetching,
    Creating(WishlistView),
    Checking(WishlistView),
    Replacing(WishlistView),
    CheckingRemoval(Seq<char>),
    Removing,
}

/// The next step of a request: a response, or a store call with what to do
/// with its reply.
#[derive(Debug)]
pub enum Step {
    Reply(ApiResponse),
    Call(StoreCall, Pending),
}

pub enum StepView {
    Reply(ResponseView),
    Call(CallView, PendingView),
}

/// The reply of the store to a call.
#[derive(Debug)]
pub enum StoreReply {
    /// The records of a scan.
    Listed(Vec<Wishlist>),
    /// The record read, if any.
    Found(Option<Wishlist>),
    /// A write or a deletion took place.
    Done,
    /// The store failed.
    Failed(AppError),
}

pub enum ReplyView {
    Listed(Seq<WishlistView>),
    Found(Option<WishlistView>),
    Done,
    Failed,
}

impl View for StoreCall {
    type V = CallView;

    open spec fn view(&self) -> CallView {
        match self {
            StoreCall::Scan => CallView::Scan,
            StoreCall::Get(id) => CallView::Get(id@),
            StoreCall::Put(w) => CallView::Put(w@),
            StoreCall::Delete(id) => CallView::Delete(id@),
        }
    }
}

impl View for Pending {
    type V = PendingView;

    open spec fn view(&self) -> PendingView {
        match self {
            Pending::Listing => PendingView::Listing,
            Pending::Fetching => PendingView::Fetching,
            Pending::Creating(w) => PendingView::Creating(w@),
            Pending::Checking(w) => PendingView::Checking(w@),
            Pending::Replacing(w) => PendingView::Replacing(w@),
            Pending::CheckingRemoval(id) => PendingView::CheckingRemoval(id@),
            Pending::Removing => PendingView::Removing,
        }
    }
}

impl View for Step {
    type V = StepView;

    open spec fn view(&self) -> StepView {
        match self {
            Step::Reply(r) => StepView::Reply(r@),
            Step::Call(c, p) => StepView::Call(c@, p@),
        }
    }
}

impl View for StoreReply {
    type V = ReplyView;

    open spec fn view(&self) -> ReplyView {
        match self {
            StoreReply::Listed(v) => ReplyView::Listed(records(v@)),
            StoreReply::Found(Some(w)) => ReplyView::Found(Some(w@)),
            StoreReply::Found(None) => ReplyView::Found(None),
            StoreReply::Done => ReplyView::Done,
            StoreReply::Failed(_) => ReplyView::Failed,
        }
    }
}

pub open spec fn not_found_reply() -> ResponseView {
    ResponseView { status: 404, body: BodyView::Json(error_body("Not Found"@)) }
}

pub open spec fn internal_error_reply() -> ResponseView {
    ResponseView { status: 500, body: BodyView::Json(error_body("Internal Server Error"@)) }
}

pub open spec fn missing_id_reply() -> ResponseView {
    ResponseView { status: 400, body: BodyView::Json(error_body("Missing ID in request"@)) }
}

pub open spec fn method_not_allowed_reply() -> ResponseView {
    ResponseView { status: 405, body: BodyView::Json(error_body("Method Not Allowed"@)) }
}

/// A 400 response whose JSON error message reports a body that did not
/// parse.
pub open spec fn parse_failure_reply(r: ResponseView) -> bool {
    &&& r.status == 400
    &&& exists|t: Seq<char>|
        serialization_prefix().len() <= t.len() && t.take(serialization_prefix().len() as int)
            == serialization_prefix() && r.body == BodyView::Json(#[trigger] error_body(t))
}

/// The step is a response that reports a body that did not parse.
pub open spec fn rejects_body(s: StepView) -> bool {
    match s {
        StepView::Reply(r) => parse_failure_reply(r),
        _ => false,
    }
}

pub open spec fn item_prefix() -> Seq<char> {
    "/wishlists/"@
}

/// The id at the tail of an item path, without trailing slashes.
pub open spec fn item_id(p: Seq<char>) -> Seq<char> {
    strip_suffix_char(strip_prefixes(p, item_prefix()), '/')
}

/// What a read request does, by its cleaned path: the health check, the
/// collection (also under its singular name), one record, or nothing.
pub open spec fn get_step(path: Seq<char>) -> StepView {
    let p = clean_path(path);
    if p == "/health"@ {
        StepView::Reply(ResponseView { status: 200, body: BodyView::Json(health_body()) })
    } else if p == "/wishlists"@ || p == "/wishlist"@ {
        StepView::Call(CallView::Scan, PendingView::Listing)
    } else if item_prefix().len() <= p.len() && p.take(item_prefix().len() as int) == item_prefix() {
        StepView::Call(CallView::Get(item_id(p)), PendingView::Fetching)
    } else {
        StepView::Reply(not_found_reply())
    }
}

/// A record to create, with `fresh` as its id where it has none.
pub open spec fn with_id(w: WishlistView, fresh: Seq<char>) -> WishlistView {
    if w.id.len() == 0 {
        WishlistView { id: fresh, ..w }
    } else {
        w
    }
}

/// Creating writes the record, with an id assigned where it has none.
pub open spec fn create_step(w: WishlistView, fresh: Seq<char>) -> StepView {
    StepView::Call(CallView::Put(with_id(w, fresh)), PendingView::Creating(with_id(w, fresh)))
}

/// Replacing first reads the record with the same id.
pub open spec fn replace_step(w: WishlistView) -> StepView {
    StepView::Call(CallView::Get(w.id), PendingView::Checking(w))
}

/// Deleting first reads the record with the id.
pub open spec fn remove_step(id: Seq<char>) -> StepView {
    StepView::Call(CallView::Get(id), PendingView::CheckingRemoval(id))
}

/// The next step once the store has replied. A failure of the store, or a
/// reply of the wrong kind, gives a 500 response without detail.
pub open spec fn resume_step(p: PendingView, r: ReplyView) -> StepView {
    match (p, r) {
        (PendingView::Listing, ReplyView::Listed(v)) => StepView::Reply(
            ResponseView { status: 200, body: BodyView::Records(v) },
        ),
        (PendingView::Fetching, ReplyView::Found(Some(w))) => StepView::Reply(
            ResponseView { status: 200, body: BodyView::Record(w) },
        ),
        (PendingView::Fetching, ReplyView::Found(None)) => StepView::Reply(not_found_reply()),
        (PendingView::Creating(w), ReplyView::Done) => StepView::Reply(
            ResponseView { status: 201, body: BodyView::Record(w) },
        ),
        (PendingView::Checking(w), ReplyView::Found(Some(_))) => StepView::Call(
            CallView::Put(w),
            PendingView::Replacing(w),
        ),
        (PendingView::Checking(_), ReplyView::Found(None)) => StepView::Reply(not_found_reply()),
        (PendingView::Replacing(w), ReplyView::Done) => StepView::Reply(
            ResponseView { status: 200, body: BodyView::Record(w) },
        ),
        (PendingView::CheckingRemoval(id), ReplyView::Found(Some(_))) => StepView::Call(
            CallView::Delete(id),
            PendingView::Removing,
        ),
        (PendingView::CheckingRemoval(_), ReplyView::Found(None)) => StepView::Reply(
            not_found_reply(),
        ),
        (PendingView::Removing, ReplyView::Done) => StepView::Reply(
            ResponseView { status: 204, body: BodyView::Empty },
        ),
        _ => StepView::Reply(internal_error_reply()),
    }
}

/// The map of strings that a JSON text holds, if it is a JSON object whose
/// values are all strings.
pub uninterp spec fn json_string_map(b: Seq<u8>) -> Option<Map<Seq<char>, Seq<char>>>;

/// No two pairs share a key.
pub open spec fn keys_unique(v: Seq<(String, String)>) -> bool {
    forall|i: int, j: int|
        0 <= i < v.len() && 0 <= j < v.len() && i != j ==> #[trigger] v[i].0@ != #[trigger] v[j].0@
}

/// The map that pairs with distinct keys stand for.
pub open spec fn pairs_map(v: Seq<(String, String)>) -> Map<Seq<char>, Seq<char>> {
    Map::new(
        |k: Seq<char>| exists|i: int| 0 <= i < v.len() && #[trigger] v[i].0@ == k,
        |k: Seq<char>| v[choose|i: int| 0 <= i < v.len() && #[trigger] v[i].0@ == k].1@,
    )
}

/// Relies on `serde_json::from_slice` into a `HashMap<String, String>`: it
/// succeeds exactly on a JSON object whose values are strings, and what it
/// gives depends on the bytes alone. The pairs are listed in no set order.
#[verifier::external_body]
fn parse_string_map(b: &[u8]) -> (r: Result<Vec<(String, String)>, serde_json::Error>)
    ensures
        match r {
            Ok(v) => keys_unique(v@) && json_string_map(b@) == Some(pairs_map(v@)),
            Err(_) => json_string_map(b@) is None,
        },
{
    serde_json::from_slice::<std::collections::HashMap<String, String>>(b).map(
        |m| m.into_iter().collect(),
    )
}

/// What a delete request does with its body: a body that does not parse is
/// rejected, one without `id` is a missing id, and otherwise the record with
/// the id is read first.
pub open spec fn delete_step_ok(m: Map<Seq<char>, Seq<char>>) -> StepView {
    if m.contains_key("id"@) {
        remove_step(m["id"@])
    } else {
        StepView::Reply(missing_id_reply())
    }
}

/// What a request does, by its route.
pub open spec fn request_step(
    method: Seq<char>,
    path: Seq<char>,
    body: Seq<u8>,
    record: Option<WishlistView>,
    fresh: Seq<char>,
) -> Option<StepView> {
    match route_of(method, path) {
        Route::Get => Some(get_step(path)),
        Route::Post => match record {
            Some(w) => Some(create_step(w, fresh)),
            None => None,
        },
        Route::Put => match record {
            Some(w) => Some(replace_step(w)),
            None => None,
        },
        Route::Delete => match json_string_map(body) {
            Some(m) => Some(delete_step_ok(m)),
            None => None,
        },
        Route::NotFound => Some(StepView::Reply(not_found_reply())),
        Route::MethodNotAllowed => Some(StepView::Reply(method_not_allowed_reply())),
    }
}

/// The value of a parsed record.
pub open spec fn parsed_view(p: Result<Wishlist, serde_json::Error>) -> Option<WishlistView> {
    match p {
        Ok(w) => Some(w@),
        Err(_) => None,
    }
}

/// The store and the reply after one call.
pub open spec fn perform(s: Seq<WishlistView>, c: CallView) -> (Seq<WishlistView>, ReplyView) {
    match c {
        CallView::Scan => (s, ReplyView::Listed(s)),
        CallView::Get(id) => (s, ReplyView::Found(find(s, id))),
        CallView::Put(w) => (upsert(s, w), ReplyView::Done),
        CallView::Delete(id) => (remove_id(s, id), ReplyView::Done),
    }
}

/// The store and the response after a flow has run, with at most `fuel`
/// store calls; a flow that needs more gives a 500 response.
pub open spec fn outcome(s: Seq<WishlistView>, step: StepView, fuel: nat) -> (
    Seq<WishlistView>,
    ResponseView,
)
    decreases fuel,
{
    match step {
        StepView::Reply(r) => (s, r),
        StepView::Call(c, p) => if fuel == 0 {
            (s, internal_error_reply())
        } else {
            outcome(perform(s, c).0, resume_step(p, perform(s, c).1), (fuel - 1) as nat)
        },
    }
}

/// The most store calls that a flow of these handlers makes.
pub open spec fn max_calls() -> nat {
    2
}

/// The store and the response after a flow has run on the in-memory store.
pub open spec fn served(s: Seq<WishlistView>, step: StepView) -> (Seq<WishlistView>, ResponseView) {
    outcome(s, step, max_calls())
}

impl StoreReply {
    /// The reply to a read of a remote store.
    pub fn from_read(r: Result<Option<Wishlist>, AppError>) -> (s: StoreReply)
        ensures
            match r {
                Ok(o) => s@ == ReplyView::Found(opt_view(o)),
                Err(_) => s@ == ReplyView::Failed,
            },
    {
        match r {
            Ok(o) => StoreReply::Found(o),
            Err(e) => StoreReply::Failed(e),
        }
    }

    /// The reply to a write or a deletion on a remote store.
    pub fn from_write(r: Result<(), AppError>) -> (s: StoreReply)
        ensures
            match r {
                Ok(_) => s@ == ReplyView::Done,
                Err(_) => s@ == ReplyView::Failed,
            },
    {
        match r {
            Ok(_) => StoreReply::Done,
            Err(e) => StoreReply::Failed(e),
        }
    }

    /// The reply to a scan of a remote store.
    pub fn from_scan(r: Result<Vec<Wishlist>, AppError>) -> (s: StoreReply)
        ensures
            match r {
                Ok(v) => s@ == ReplyView::Listed(records(v@)),
                Err(_) => s@ == ReplyView::Failed,
            },
    {
        match r {
            Ok(v) => StoreReply::Listed(v),
            Err(e) => StoreReply::Failed(e),
        }
    }
}

/// A response that reports an error.
fn fail(e: AppError) -> (r: Step)
    ensures
        r@ is Reply,
        e is Serialization ==> rejects_body(r@),
        e is NotFound ==> r@ == StepView::Reply(not_found_reply()),
        e is MissingId ==> r@ == StepView::Reply(missing_id_reply()),
        e is MethodNotAllowed ==> r@ == StepView::Reply(method_not_allowed_reply()),
        e is DynamoDb || e is Generic ==> r@ == StepView::Reply(internal_error_reply()),
{
    let r = error_response(&e);
    proof {
        let t = choose|t: Seq<char>| crate::error::reports(e, t) && r@.body == BodyView::Json(error_body(t));
        assert(crate::error::reports(e, t));
    }
    Step::Reply(r)
}

/// Handles a read. The cleaned path selects the health check, the list of
/// records (`/wishlists` or `/wishlist`), one record (`/wishlists/{id}`),
/// or nothing (404).
pub fn handle_get(path: &str) -> (r: Step)
    ensures
        r@ == get_step(path@),
{
    let p = strip_stage(path);
    if same_text(p.as_str(), "/health") {
        Step::Reply(health_response())
    } else if same_text(p.as_str(), "/wishlists") || same_text(p.as_str(), "/wishlist") {
        Step::Call(StoreCall::Scan, Pending::Listing)
    } else if has_prefix(p.as_str(), "/wishlists/") {
        let tail = trim_start_matches(p.as_str(), "/wishlists/");
        let id = trim_end_char(tail.as_str(), '/');
        Step::Call(StoreCall::Get(id), Pending::Fetching)
    } else {
        fail(AppError::NotFound)
    }
}

/// Handles a creation: the record read from the body is written, with
/// `fresh_id` as its id where it has none. A body that did not parse is
/// rejected with 400.
pub fn handle_post(parsed: Result<Wishlist, serde_json::Error>, fresh_id: String) -> (r: Step)
    ensures
        match parsed {
            Ok(w) => r@ == create_step(w@, fresh_id@),
            Err(_) => rejects_body(r@),
        },
{
    match parsed {
        Ok(w) => {
            let mut w = w;
            if w.id.unicode_len() == 0 {
                w.id = fresh_id;
            }
            let stored = w.duplicate();
            Step::Call(StoreCall::Put(w), Pending::Creating(stored))
        },
        Err(e) => fail(AppError::Serialization(e)),
    }
}

/// Handles a replacement: the record with the id of the one read from the
/// body is read first. A body that did not parse is rejected with 400.
pub fn handle_put(parsed: Result<Wishlist, serde_json::Error>) -> (r: Step)
    ensures
        match parsed {
            Ok(w) => r@ == replace_step(w@),
            Err(_) => rejects_body(r@),
        },
{
    match parsed {
        Ok(w) => Step::Call(StoreCall::Get(w.id.clone()), Pending::Checking(w)),
        Err(e) => fail(AppError::Serialization(e)),
    }
}

/// The value of the pair whose key is `key`.
fn value_of(v: &Vec<(String, String)>, key: &str) -> (r: Option<String>)
    requires
        keys_unique(v@),
    ensures
        match r {
            Some(s) => pairs_map(v@).contains_key(key@) && pairs_map(v@)[key@] == s@,
            None => !pairs_map(v@).contains_key(key@),
        },
{
    let k = key.to_string();
    let mut i: usize = 0;
    while i < v.len()
        invariant
            i <= v@.len(),
            keys_unique(v@),
            k@ == key@,
            forall|j: int| 0 <= j < i ==> v@[j].0@ != key@,
        decreases v.len() - i,
    {
        if v[i].0 == k {
            proof {
                assert(v@[i as int].0@ == key@);
                let j = choose|j: int| 0 <= j < v@.len() && #[trigger] v@[j].0@ == key@;
                assert(j == i);
            }
            return Some(v[i].1.clone());
        }
        i = i + 1;
    }
    None
}

/// Handles a deletion. The body is a JSON object of strings naming the `id`
/// to delete; a body that does not parse is rejected with 400, and one
/// without `id` too. Otherwise the record with the id is read first.
pub fn handle_delete(body: &[u8]) -> (r: Step)
    ensures
        match json_string_map(body@) {
            Some(m) => r@ == delete_step_ok(m),
            None => rejects_body(r@),
        },
{
    match parse_string_map(body) {
        Ok(pairs) => match value_of(&pairs, "id") {
            Some(id) => {
                let key = id.clone();
                Step::Call(StoreCall::Get(key), Pending::CheckingRemoval(id))
            },
            None => fail(AppError::MissingId),
        },
        Err(e) => fail(AppError::Serialization(e)),
    }
}

/// Handles a request: routes it by method and path and starts its handler.
/// `record` is the body read as a record, used by creation and
/// replacement; `fresh_id` is the id a created record gets where it has
/// none.
pub fn handle_request(
    method: &str,
    path: &str,
    body: &[u8],
    record: Result<Wishlist, serde_json::Error>,
    fresh_id: String,
) -> (r: Step)
    ensures
        match request_step(method@, path@, body@, parsed_view(record), fresh_id@) {
            Some(s) => r@ == s,
            None => rejects_body(r@),
        },
{
    match route(method, path) {
        Route::Get => handle_get(path),
        Route::Post => handle_post(record, fresh_id),
        Route::Put => handle_put(record),
        Route::Delete => handle_delete(body),
        Route::NotFound => fail(AppError::NotFound),
        Route::MethodNotAllowed => fail(AppError::MethodNotAllowed),
    }
}

/// The next step once the store has replied to the call of a flow.
pub fn resume(p: Pending, reply: StoreReply) -> (r: Step)
    ensures
        r@ == resume_step(p@, reply@),
{
    match (p, reply) {
        (Pending::Listing, StoreReply::Listed(v)) => Step::Reply(
            build_response(200, ResponseBody::Records(v)),
        ),
        (Pending::Fetching, StoreReply::Found(Some(w))) => Step::Reply(
            build_response(200, ResponseBody::Record(w)),
        ),
        (Pending::Fetching, StoreReply::Found(None)) => fail(AppError::NotFound),
        (Pending::Creating(w), StoreReply::Done) => Step::Reply(
            build_response(201, ResponseBody::Record(w)),
        ),
        (Pending::Checking(w), StoreReply::Found(Some(_))) => {
            let stored = w.duplicate();
            Step::Call(StoreCall::Put(stored), Pending::Replacing(w))
        },
        (Pending::Checking(_), StoreReply::Found(None)) => fail(AppError::NotFound),
        (Pending::Replacing(w), StoreReply::Done) => Step::Reply(
            build_response(200, ResponseBody::Record(w)),
        ),
        (Pending::CheckingRemoval(id), StoreReply::Found(Some(_))) => Step::Call(
            StoreCall::Delete(id),
            Pending::Removing,
        ),
        (Pending::CheckingRemoval(_), StoreReply::Found(None)) => fail(AppError::NotFound),
        (Pending::Removing, StoreReply::Done) => Step::Reply(build_response(204, ResponseBody::Empty)),
        _ => fail(AppError::Generic("unexpected store reply".to_string())),
    }
}

/// Performs a store call on the in-memory store.
pub fn perform_call(store: &mut MemoryStore, c: StoreCall) -> (r: StoreReply)
    requires
        old(store).wf(),
    ensures
        final(store).wf(),
        (final(store)@, r@) == perform(old(store)@, c@),
{
    match c {
        StoreCall::Scan => StoreReply::Listed(store.scan()),
        StoreCall::Get(id) => {
            let found = store.get(id.as_str());
            proof {
                assert(crate::store::opt_view(found) == find(store@, id@));
            }
            StoreReply::Found(found)
        },
        StoreCall::Put(w) => {
            store.put(w);
            StoreReply::Done
        },
        StoreCall::Delete(id) => {
            store.delete(id.as_str());
            StoreReply::Done
        },
    }
}

/// Runs a flow on the in-memory store: performs its calls in turn and
/// gives the response it ends with.
pub fn serve(store: &mut MemoryStore, first: Step) -> (r: ApiResponse)
    requires
        old(store).wf(),
    ensures
        final(store).wf(),
        (final(store)@, r@) == served(old(store)@, first@),
{
    let mut step = first;
    let mut fuel: u64 = 2;
    while fuel > 0
        invariant
            store.wf(),
            fuel <= 2,
            outcome(store@, step@, fuel as nat) == served(old(store)@, first@),
        decreases fuel,
    {
        match step {
            Step::Reply(r) => {
                return r;
            },
            Step::Call(c, p) => {
                let reply = perform_call(store, c);
                step = resume(p, reply);
                fuel = fuel - 1;
            },
        }
    }
    match step {
        Step::Reply(r) => r,
        Step::Call(_, _) => match fail(AppError::Generic("too many store calls".to_string())) {
            Step::Reply(r) => r,
            Step::Call(_, _) => build_error_response(500, "Internal Server Error"),
        },
    }
}

} // verus!
