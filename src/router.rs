//! Request handling as a state machine. Each step takes what the last
//! outside action produced and names the next action: a store call, a
//! publish, or the response. Failures end the request with the mapped status.
use vstd::prelude::*;
use crate::audit::{AuditView, audit_of, create_audit_record};
use crate::error::{AppError, AppErrorView, ValidationError, message_of, not_found_text, status_of};
use crate::json::{error_json, error_json_text, event_json, event_json_text, item_json, item_json_text, items_json, items_json_text};
use crate::model::{ApiResponse, AuditRecord, Env, ErrorResponse, Item, ItemDraft, ItemDraftView, ItemEvent, ItemEventType, ItemView, bad_created_at_text, normalized, opt_view};
use crate::record::{ItemRecord, RecordView, item_of_record, listed_items, record_of, record_views, items_from_records, written_for, lemma_written_reads_back, lemma_listing_keeps_written};
use crate::time::Timestamp;
use crate::validate::{validate_item, validation_of, has_forbidden, is_known_classification, MAX_NAME_LEN, MAX_DESCRIPTION_LEN};

verus! {

/// The operation a method and path ask for.
#[derive(Debug)]
pub enum Route {
    ListItems,
    GetItem(String),
    CreateItem,
    DeleteItem(String),
    Unknown,
}

pub enum RouteView {
    ListItems,
    GetItem(Seq<char>),
    CreateItem,
    DeleteItem(Seq<char>),
    Unknown,
}

impl View for Route {
    type V = RouteView;

    open spec fn view(&self) -> RouteView {
        match self {
            Route::ListItems => RouteView::ListItems,
            Route::GetItem(id) => RouteView::GetItem(id@),
            Route::CreateItem => RouteView::CreateItem,
            Route::DeleteItem(id) => RouteView::DeleteItem(id@),
            Route::Unknown => RouteView::Unknown,
        }
    }
}

pub open spec fn has_items_prefix(p: Seq<char>) -> bool {
    p.len() >= 7 && p.subrange(0, 7) == "/items/"@
}

/// The path with every leading `/items/` removed.
pub open spec fn strip_items_prefix(p: Seq<char>) -> Seq<char>
    decreases p.len(),
{
    if has_items_prefix(p) {
        strip_items_prefix(p.subrange(7, p.len() as int))
    } else {
        p
    }
}

pub open spec fn route_of(method: Seq<char>, path: Seq<char>) -> RouteView {
    if method == "GET"@ && path == "/items"@ {
        RouteView::ListItems
    } else if method == "GET"@ && has_items_prefix(path) {
        RouteView::GetItem(strip_items_prefix(path))
    } else if method == "POST"@ && path == "/items"@ {
        RouteView::CreateItem
    } else if method == "DELETE"@ && has_items_prefix(path) {
        RouteView::DeleteItem(strip_items_prefix(path))
    } else {
        RouteView::Unknown
    }
}

fn starts_with_items(p: &str) -> (r: bool)
    ensures
        r == has_items_prefix(p@),
{
    let n = p.unicode_len();
    n >= 7 && String::from_str(p.substring_char(0, 7)) == String::from_str("/items/")
}

fn strip_items(path: &str) -> (r: String)
    ensures
        r@ == strip_items_prefix(path@),
{
    let mut rest = String::from_str(path);
    while starts_with_items(rest.as_str())
        invariant
            strip_items_prefix(rest@) == strip_items_prefix(path@),
        decreases rest@.len(),
    {
        let n = rest.as_str().unicode_len();
        rest = String::from_str(rest.as_str().substring_char(7, n));
    }
    rest
}

/// Picks the operation for a method and a path.
pub fn route(method: &str, path: &str) -> (r: Route)
    ensures
        r@ == route_of(method@, path@),
{
    let m = String::from_str(method);
    let items = String::from_str(path) == String::from_str("/items");
    if m == String::from_str("GET") && items {
        Route::ListItems
    } else if m == String::from_str("GET") && starts_with_items(path) {
        Route::GetItem(strip_items(path))
    } else if m == String::from_str("POST") && items {
        Route::CreateItem
    } else if m == String::from_str("DELETE") && starts_with_items(path) {
        Route::DeleteItem(strip_items(path))
    } else {
        Route::Unknown
    }
}

/// A response: its status code and, except for 204, a JSON body.
pub struct ResponseView {
    pub status_code: u16,
    pub body: Option<Seq<char>>,
}

impl View for ApiResponse<Option<String>> {
    type V = ResponseView;

    open spec fn view(&self) -> ResponseView {
        ResponseView { status_code: self.status_code, body: opt_view(self.body) }
    }
}

/// What the handler waits for.
#[derive(Debug)]
pub enum Phase {
    /// The full scan, for a listing.
    ListPending,
    /// The record of this id, for a read.
    GetPending(String),
    /// The parsed request body, for a creation.
    BodyPending,
    /// The store write of this new item.
    PutPending(Item),
    /// The publish of this new item's event.
    CreatePublishPending(Item),
    /// The record of this id, for a deletion.
    LookupPending(String),
    /// The store delete of this id, whose item was read first.
    RemovePending(String, Item),
    /// The publish of a deletion's event.
    DeletePublishPending,
    /// Nothing: the response has been given.
    Done,
}

pub enum PhaseView {
    ListPending,
    GetPending(Seq<char>),
    BodyPending,
    PutPending(ItemView),
    CreatePublishPending(ItemView),
    LookupPending(Seq<char>),
    RemovePending(Seq<char>, ItemView),
    DeletePublishPending,
    Done,
}

impl View for Phase {
    type V = PhaseView;

    open spec fn view(&self) -> PhaseView {
        match self {
            Phase::ListPending => PhaseView::ListPending,
            Phase::GetPending(id) => PhaseView::GetPending(id@),
            Phase::BodyPending => PhaseView::BodyPending,
            Phase::PutPending(i) => PhaseView::PutPending(i@),
            Phase::CreatePublishPending(i) => PhaseView::CreatePublishPending(i@),
            Phase::LookupPending(id) => PhaseView::LookupPending(id@),
            Phase::RemovePending(id, i) => PhaseView::RemovePending(id@, i@),
            Phase::DeletePublishPending => PhaseView::DeletePublishPending,
            Phase::Done => PhaseView::Done,
        }
    }
}

pub open spec fn phase_wf(p: PhaseView) -> bool {
    match p {
        PhaseView::PutPending(i) => i.wf(),
        PhaseView::CreatePublishPending(i) => i.wf(),
        PhaseView::RemovePending(_, i) => i.wf(),
        _ => true,
    }
}

/// The outside work the handler asks for next.
#[derive(Debug)]
pub enum Action {
    /// Scan the whole table.
    ScanItems,
    /// Read the record of this id.
    FetchItem(String),
    /// Parse the request body as an item.
    ParseBody,
    /// Write this record.
    PutItem(ItemRecord),
    /// Delete the record of this id.
    RemoveItem(String),
    /// Record this audit entry, then send this message to the queue.
    Publish(AuditRecord, String),
    /// Answer the request; the handler is done.
    Respond(ApiResponse<Option<String>>),
}

pub enum ActionView {
    ScanItems,
    FetchItem(Seq<char>),
    ParseBody,
    PutItem(RecordView),
    RemoveItem(Seq<char>),
    Publish(AuditView, Seq<char>),
    Respond(ResponseView),
}

impl View for Action {
    type V = ActionView;

    open spec fn view(&self) -> ActionView {
        match self {
            Action::ScanItems => ActionView::ScanItems,
            Action::FetchItem(id) => ActionView::FetchItem(id@),
            Action::ParseBody => ActionView::ParseBody,
            Action::PutItem(r) => ActionView::PutItem(r@),
            Action::RemoveItem(id) => ActionView::RemoveItem(id@),
            Action::Publish(a, m) => ActionView::Publish(a@, m@),
            Action::Respond(r) => ActionView::Respond(r@),
        }
    }
}

/// What an outside action produced; an error carries the outside failure's text.
#[derive(Debug)]
pub enum Outcome {
    Scanned(Result<Vec<ItemRecord>, String>),
    Fetched(Result<Option<ItemRecord>, String>),
    BodyParsed(Result<ItemDraft, String>),
    /// A store write or delete finished.
    Written(Result<(), String>),
    Sent(Result<(), String>),
}

pub enum OutcomeView {
    Scanned(Result<Seq<RecordView>, Seq<char>>),
    Fetched(Result<Option<RecordView>, Seq<char>>),
    BodyParsed(Result<ItemDraftView, Seq<char>>),
    Written(Result<(), Seq<char>>),
    Sent(Result<(), Seq<char>>),
}

impl View for Outcome {
    type V = OutcomeView;

    open spec fn view(&self) -> OutcomeView {
        match self {
            Outcome::Scanned(Ok(v)) => OutcomeView::Scanned(Ok(record_views(v@))),
            Outcome::Scanned(Err(m)) => OutcomeView::Scanned(Err(m@)),
            Outcome::Fetched(Ok(Some(r))) => OutcomeView::Fetched(Ok(Some(r@))),
            Outcome::Fetched(Ok(None)) => OutcomeView::Fetched(Ok(None)),
            Outcome::Fetched(Err(m)) => OutcomeView::Fetched(Err(m@)),
            Outcome::BodyParsed(Ok(d)) => OutcomeView::BodyParsed(Ok(d@)),
            Outcome::BodyParsed(Err(m)) => OutcomeView::BodyParsed(Err(m@)),
            Outcome::Written(Ok(())) => OutcomeView::Written(Ok(())),
            Outcome::Written(Err(m)) => OutcomeView::Written(Err(m@)),
            Outcome::Sent(Ok(())) => OutcomeView::Sent(Ok(())),
            Outcome::Sent(Err(m)) => OutcomeView::Sent(Err(m@)),
        }
    }
}

pub open spec fn reply(status_code: u16, body: Seq<char>) -> ActionView {
    ActionView::Respond(ResponseView { status_code, body: Some(body) })
}

/// The response for an error: its status and `{"message": ..}`.
pub open spec fn error_reply(e: AppErrorView) -> ActionView {
    reply(status_of(e), error_json_text(message_of(e)))
}

pub open spec fn unknown_route_text() -> Seq<char> {
    "Not found"@
}

pub open spec fn out_of_order_text() -> Seq<char> {
    "unexpected outcome for the pending step"@
}

/// The first phase and action for a request.
pub open spec fn start_spec(method: Seq<char>, path: Seq<char>) -> (PhaseView, ActionView) {
    match route_of(method, path) {
        RouteView::ListItems => (PhaseView::ListPending, ActionView::ScanItems),
        RouteView::GetItem(id) => (PhaseView::GetPending(id), ActionView::FetchItem(id)),
        RouteView::CreateItem => (PhaseView::BodyPending, ActionView::ParseBody),
        RouteView::DeleteItem(id) => (PhaseView::LookupPending(id), ActionView::FetchItem(id)),
        RouteView::Unknown => (PhaseView::Done, reply(404, error_json_text(unknown_route_text()))),
    }
}

/// A new item's course once its body is parsed: rejected, or written.
pub open spec fn create_spec(d: ItemDraftView, fresh_id: Seq<char>, now: Timestamp) -> (PhaseView, ActionView) {
    match normalized(d, fresh_id, now) {
        None => (PhaseView::Done, error_reply(AppErrorView::Serialization(bad_created_at_text()))),
        Some(item) => match validation_of(item) {
            Err(v) => (PhaseView::Done, error_reply(AppErrorView::Validation(v))),
            Ok(_) => (PhaseView::PutPending(item), ActionView::PutItem(record_of(item))),
        },
    }
}

/// One step: the phase and what the last action produced give the next phase and action.
pub open spec fn advance_spec(
    phase: PhaseView,
    request_id: Seq<char>,
    o: OutcomeView,
    fresh_id: Seq<char>,
    now: Timestamp,
) -> (PhaseView, ActionView) {
    let done = PhaseView::Done;
    match phase {
        PhaseView::ListPending => match o {
            OutcomeView::Scanned(Ok(recs)) => (done, reply(200, items_json_text(listed_items(recs, now)))),
            OutcomeView::Scanned(Err(m)) => (done, error_reply(AppErrorView::DynamoDb(m))),
            _ => (done, error_reply(AppErrorView::Internal(out_of_order_text()))),
        },
        PhaseView::GetPending(id) => match o {
            OutcomeView::Fetched(Ok(Some(rec))) => (done, reply(200, item_json_text(item_of_record(rec, now)))),
            OutcomeView::Fetched(Ok(None)) => (done, error_reply(AppErrorView::NotFound(not_found_text(id)))),
            OutcomeView::Fetched(Err(m)) => (done, error_reply(AppErrorView::DynamoDb(m))),
            _ => (done, error_reply(AppErrorView::Internal(out_of_order_text()))),
        },
        PhaseView::BodyPending => match o {
            OutcomeView::BodyParsed(Ok(d)) => create_spec(d, fresh_id, now),
            OutcomeView::BodyParsed(Err(m)) => (done, error_reply(AppErrorView::Serialization(m))),
            _ => (done, error_reply(AppErrorView::Internal(out_of_order_text()))),
        },
        PhaseView::PutPending(item) => match o {
            OutcomeView::Written(Ok(_)) => (
                PhaseView::CreatePublishPending(item),
                ActionView::Publish(
                    audit_of("create"@, item, None, request_id, fresh_id, now),
                    event_json_text(ItemEventType::Created, item, now),
                ),
            ),
            OutcomeView::Written(Err(m)) => (done, error_reply(AppErrorView::DynamoDb(m))),
            _ => (done, error_reply(AppErrorView::Internal(out_of_order_text()))),
        },
        PhaseView::CreatePublishPending(item) => match o {
            OutcomeView::Sent(Ok(_)) => (done, reply(201, item_json_text(item))),
            OutcomeView::Sent(Err(m)) => (done, error_reply(AppErrorView::Sqs(m))),
            _ => (done, error_reply(AppErrorView::Internal(out_of_order_text()))),
        },
        PhaseView::LookupPending(id) => match o {
            OutcomeView::Fetched(Ok(Some(rec))) => (
                PhaseView::RemovePending(id, item_of_record(rec, now)),
                ActionView::RemoveItem(id),
            ),
            OutcomeView::Fetched(Ok(None)) => (done, error_reply(AppErrorView::NotFound(not_found_text(id)))),
            OutcomeView::Fetched(Err(m)) => (done, error_reply(AppErrorView::DynamoDb(m))),
            _ => (done, error_reply(AppErrorView::Internal(out_of_order_text()))),
        },
        PhaseView::RemovePending(_, item) => match o {
            OutcomeView::Written(Ok(_)) => (
                PhaseView::DeletePublishPending,
                ActionView::Publish(
                    audit_of("delete"@, item, Some(item_json_text(item)), request_id, fresh_id, now),
                    event_json_text(ItemEventType::Deleted, item, now),
                ),
            ),
            OutcomeView::Written(Err(m)) => (done, error_reply(AppErrorView::DynamoDb(m))),
            _ => (done, error_reply(AppErrorView::Internal(out_of_order_text()))),
        },
        PhaseView::DeletePublishPending => match o {
            OutcomeView::Sent(Ok(_)) => (done, ActionView::Respond(ResponseView { status_code: 204, body: None })),
            OutcomeView::Sent(Err(m)) => (done, error_reply(AppErrorView::Sqs(m))),
            _ => (done, error_reply(AppErrorView::Internal(out_of_order_text()))),
        },
        PhaseView::Done => (done, error_reply(AppErrorView::Internal(out_of_order_text()))),
    }
}

/// An error response with the body `{"message": ..}`.
pub fn error_response(err: &AppError) -> (r: Action)
    ensures
        r@ == error_reply(err@),
{
    let body = ErrorResponse { message: err.message() };
    Action::Respond(ApiResponse { status_code: err.status_code(), body: Some(error_json(&body)) })
}

fn json_reply(status_code: u16, body: String) -> (r: Action)
    ensures
        r@ == reply(status_code, body@),
{
    Action::Respond(ApiResponse { status_code, body: Some(body) })
}

fn out_of_order(request_id: String) -> (r: (RequestHandler, Action))
    ensures
        r.0.phase@ == PhaseView::Done,
        r.0.request_id == request_id,
        r.1@ == error_reply(AppErrorView::Internal(out_of_order_text())),
{
    (
        RequestHandler { phase: Phase::Done, request_id },
        error_response(&AppError::Internal(String::from_str("unexpected outcome for the pending step"))),
    )
}

/// One request in flight.
#[derive(Debug)]
pub struct RequestHandler {
    pub phase: Phase,
    /// The id the audit records of this request carry.
    pub request_id: String,
}

impl RequestHandler {
    pub open spec fn wf(&self) -> bool {
        phase_wf(self.phase@)
    }

    /// Starts handling `method path`; an unknown route is answered 404 at once.
    pub fn start(method: &str, path: &str, request_id: &str) -> (r: (RequestHandler, Action))
        ensures
            r.0.wf(),
            r.0.request_id@ == request_id@,
            (r.0.phase@, r.1@) == start_spec(method@, path@),
    {
        let request_id = String::from_str(request_id);
        match route(method, path) {
            Route::ListItems => (RequestHandler { phase: Phase::ListPending, request_id }, Action::ScanItems),
            Route::GetItem(id) => {
                let fetch = Action::FetchItem(id.clone());
                (RequestHandler { phase: Phase::GetPending(id), request_id }, fetch)
            },
            Route::CreateItem => (RequestHandler { phase: Phase::BodyPending, request_id }, Action::ParseBody),
            Route::DeleteItem(id) => {
                let fetch = Action::FetchItem(id.clone());
                (RequestHandler { phase: Phase::LookupPending(id), request_id }, fetch)
            },
            Route::Unknown => {
                let respond = error_response(&AppError::NotFound(String::from_str("Not found")));
                (RequestHandler { phase: Phase::Done, request_id }, respond)
            },
        }
    }

    /// Takes what the pending action produced and gives the next action.
    /// `env` supplies the time and the fresh id this step may need.
    pub fn advance(self, outcome: Outcome, env: &Env) -> (r: (RequestHandler, Action))
        requires
            self.wf(),
            env.wf(),
        ensures
            r.0.wf(),
            r.0.request_id == self.request_id,
            (r.0.phase@, r.1@) == advance_spec(self.phase@, self.request_id@, outcome@, env.fresh_id@, env.now),
    {
        let request_id = self.request_id;
        let now = env.now;
        match self.phase {
            Phase::ListPending => match outcome {
                Outcome::Scanned(Ok(recs)) => {
                    let items = items_from_records(&recs, now);
                    let body = items_json(&items);
                    (RequestHandler { phase: Phase::Done, request_id }, json_reply(200, body))
                },
                Outcome::Scanned(Err(m)) => (
                    RequestHandler { phase: Phase::Done, request_id },
                    error_response(&AppError::DynamoDb(m)),
                ),
                _ => out_of_order(request_id),
            },
            Phase::GetPending(id) => match outcome {
                Outcome::Fetched(Ok(Some(rec))) => {
                    let item = rec.to_item(now);
                    (RequestHandler { phase: Phase::Done, request_id }, json_reply(200, item_json(&item)))
                },
                Outcome::Fetched(Ok(None)) => (
                    RequestHandler { phase: Phase::Done, request_id },
                    error_response(&AppError::item_not_found(id.as_str())),
                ),
                Outcome::Fetched(Err(m)) => (
                    RequestHandler { phase: Phase::Done, request_id },
                    error_response(&AppError::DynamoDb(m)),
                ),
                _ => out_of_order(request_id),
            },
            Phase::BodyPending => match outcome {
                Outcome::BodyParsed(Ok(draft)) => match draft.into_item(env) {
                    Err(e) => (RequestHandler { phase: Phase::Done, request_id }, error_response(&e)),
                    Ok(item) => match validate_item(&item) {
                        Err(v) => (
                            RequestHandler { phase: Phase::Done, request_id },
                            error_response(&AppError::Validation(v)),
                        ),
                        Ok(()) => {
                            let rec = ItemRecord::from_item(&item);
                            (RequestHandler { phase: Phase::PutPending(item), request_id }, Action::PutItem(rec))
                        },
                    },
                },
                Outcome::BodyParsed(Err(m)) => (
                    RequestHandler { phase: Phase::Done, request_id },
                    error_response(&AppError::Serialization(m)),
                ),
                _ => out_of_order(request_id),
            },
            Phase::PutPending(item) => match outcome {
                Outcome::Written(Ok(())) => {
                    let audit = create_audit_record("create", &item, None, request_id.as_str(), env);
                    let event = ItemEvent { event_type: ItemEventType::Created, item, timestamp: now };
                    let message = event_json(&event);
                    (
                        RequestHandler { phase: Phase::CreatePublishPending(event.item), request_id },
                        Action::Publish(audit, message),
                    )
                },
                Outcome::Written(Err(m)) => (
                    RequestHandler { phase: Phase::Done, request_id },
                    error_response(&AppError::DynamoDb(m)),
                ),
                _ => out_of_order(request_id),
            },
            Phase::CreatePublishPending(item) => match outcome {
                Outcome::Sent(Ok(())) => (
                    RequestHandler { phase: Phase::Done, request_id },
                    json_reply(201, item_json(&item)),
                ),
                Outcome::Sent(Err(m)) => (
                    RequestHandler { phase: Phase::Done, request_id },
                    error_response(&AppError::Sqs(m)),
                ),
                _ => out_of_order(request_id),
            },
            Phase::LookupPending(id) => match outcome {
                Outcome::Fetched(Ok(Some(rec))) => {
                    let item = rec.to_item(now);
                    let remove = Action::RemoveItem(id.clone());
                    (RequestHandler { phase: Phase::RemovePending(id, item), request_id }, remove)
                },
                Outcome::Fetched(Ok(None)) => (
                    RequestHandler { phase: Phase::Done, request_id },
                    error_response(&AppError::item_not_found(id.as_str())),
                ),
                Outcome::Fetched(Err(m)) => (
                    RequestHandler { phase: Phase::Done, request_id },
                    error_response(&AppError::DynamoDb(m)),
                ),
                _ => out_of_order(request_id),
            },
            Phase::RemovePending(_, item) => match outcome {
                Outcome::Written(Ok(())) => {
                    let previous = item_json(&item);
                    let audit = create_audit_record("delete", &item, Some(previous), request_id.as_str(), env);
                    let event = ItemEvent { event_type: ItemEventType::Deleted, item, timestamp: now };
                    let message = event_json(&event);
                    (
                        RequestHandler { phase: Phase::DeletePublishPending, request_id },
                        Action::Publish(audit, message),
                    )
                },
                Outcome::Written(Err(m)) => (
                    RequestHandler { phase: Phase::Done, request_id },
                    error_response(&AppError::DynamoDb(m)),
                ),
                _ => out_of_order(request_id),
            },
            Phase::DeletePublishPending => match outcome {
                Outcome::Sent(Ok(())) => (
                    RequestHandler { phase: Phase::Done, request_id },
                    Action::Respond(ApiResponse { status_code: 204, body: None }),
                ),
                Outcome::Sent(Err(m)) => (
                    RequestHandler { phase: Phase::Done, request_id },
                    error_response(&AppError::Sqs(m)),
                ),
                _ => out_of_order(request_id),
            },
            Phase::Done => out_of_order(request_id),
        }
    }
}

/// The step after a creation's body is parsed.
pub open spec fn after_body(d: ItemDraftView, request_id: Seq<char>, fresh_id: Seq<char>, now: Timestamp) -> (PhaseView, ActionView) {
    advance_spec(PhaseView::BodyPending, request_id, OutcomeView::BodyParsed(Ok(d)), fresh_id, now)
}

pub open spec fn is_rejection(step: (PhaseView, ActionView)) -> bool {
    &&& step.0 is Done
    &&& step.1 is Respond
    &&& step.1->Respond_0.status_code == 400
}

/// An item with an empty name is never written: the creation ends with 400 and
/// the `EmptyName` validation error (unless its creation time was unreadable,
/// which is reported first).
pub proof fn lemma_empty_name_never_stored(
    d: ItemDraftView,
    request_id: Seq<char>,
    fresh_id: Seq<char>,
    now: Timestamp,
)
    requires
        d.name.len() == 0,
    ensures
        is_rejection(after_body(d, request_id, fresh_id, now)),
        normalized(d, fresh_id, now) is Some ==> after_body(d, request_id, fresh_id, now).1
            == error_reply(AppErrorView::Validation(ValidationError::EmptyName)),
{
}

/// An item whose name is over 100 characters or holds `<`, `>` or `&` is never
/// written: the creation ends with 400.
pub proof fn lemma_bad_name_never_stored(
    d: ItemDraftView,
    request_id: Seq<char>,
    fresh_id: Seq<char>,
    now: Timestamp,
)
    requires
        d.name.len() > MAX_NAME_LEN || has_forbidden(d.name),
    ensures
        is_rejection(after_body(d, request_id, fresh_id, now)),
{
}

/// A name of exactly 100 allowed characters passes: with a valid description
/// and classification, the item is written.
pub proof fn lemma_longest_name_stored(
    d: ItemDraftView,
    request_id: Seq<char>,
    fresh_id: Seq<char>,
    now: Timestamp,
)
    requires
        d.name.len() == MAX_NAME_LEN,
        !has_forbidden(d.name),
        match d.description {
            Some(x) => x.len() <= MAX_DESCRIPTION_LEN && !has_forbidden(x),
            None => true,
        },
        match d.classification {
            Some(k) => is_known_classification(k),
            None => true,
        },
    ensures
        normalized(d, fresh_id, now) matches Some(i) ==> after_body(d, request_id, fresh_id, now)
            == (PhaseView::PutPending(i), ActionView::PutItem(record_of(i))),
{
}

/// Reading back a created item: a read whose fetch returns the record written
/// for an item answers 200 with that very item.
pub proof fn lemma_create_then_get(
    i: ItemView,
    rec: RecordView,
    id: Seq<char>,
    request_id: Seq<char>,
    fresh_id: Seq<char>,
    now: Timestamp,
)
    requires
        i.wf(),
        written_for(rec, i),
    ensures
        advance_spec(PhaseView::GetPending(id), request_id, OutcomeView::Fetched(Ok(Some(rec))), fresh_id, now)
            == (PhaseView::Done, reply(200, item_json_text(i))),
{
    lemma_written_reads_back(i, rec, now);
}

/// Listing after creating items: a scan that returns the records written for
/// `n` items answers 200 with exactly those `n` items.
pub proof fn lemma_list_after_creates(
    items: Seq<ItemView>,
    recs: Seq<RecordView>,
    request_id: Seq<char>,
    fresh_id: Seq<char>,
    now: Timestamp,
)
    requires
        recs.len() == items.len(),
        forall|k: int| 0 <= k < items.len() ==> (#[trigger] items[k]).wf(),
        forall|k: int| 0 <= k < items.len() ==> written_for(#[trigger] recs[k], items[k]),
    ensures
        listed_items(recs, now).len() == items.len(),
        advance_spec(PhaseView::ListPending, request_id, OutcomeView::Scanned(Ok(recs)), fresh_id, now)
            == (PhaseView::Done, reply(200, items_json_text(items))),
{
    lemma_listing_keeps_written(items, recs, now);
}

/// A method and path that name no operation are answered at once with 404 and
/// the JSON body `{"message":"Not found"}`.
pub proof fn lemma_unknown_route_not_found(method: Seq<char>, path: Seq<char>)
    requires
        route_of(method, path) is Unknown,
    ensures
        start_spec(method, path) == (PhaseView::Done, reply(404, error_json_text(unknown_route_text()))),
{
}

} // verus!
