//! The item resource, its events and audit records, and the per-step values
//! (the time and a new id) that request handling draws from outside.
use vstd::prelude::*;
use crate::error::{AppError, AppErrorView};
use crate::time::{Timestamp, timestamp_of_text};

verus! {

pub open spec fn opt_view(o: Option<String>) -> Option<Seq<char>> {
    match o {
        Some(s) => Some(s@),
        None => None,
    }
}

pub fn clone_opt(o: &Option<String>) -> (r: Option<String>)
    ensures
        opt_view(r) == opt_view(*o),
{
    match o {
        Some(s) => Some(s.clone()),
        None => None,
    }
}

/// The managed resource.
#[derive(Debug)]
pub struct Item {
    pub id: String,
    pub name: String,
    pub description: Option<String>,
    pub created_at: Timestamp,
    /// One of PUBLIC, INTERNAL, CONFIDENTIAL, RESTRICTED once validated.
    pub classification: String,
}

pub struct ItemView {
    pub id: Seq<char>,
    pub name: Seq<char>,
    pub description: Option<Seq<char>>,
    pub created_at: Timestamp,
    pub classification: Seq<char>,
}

impl View for Item {
    type V = ItemView;

    open spec fn view(&self) -> ItemView {
        ItemView {
            id: self.id@,
            name: self.name@,
            description: opt_view(self.description),
            created_at: self.created_at,
            classification: self.classification@,
        }
    }
}

impl ItemView {
    pub open spec fn wf(self) -> bool {
        self.created_at.wf()
    }
}

impl Clone for Item {
    fn clone(&self) -> (r: Item)
        ensures
            r@ == self@,
    {
        Item {
            id: self.id.clone(),
            name: self.name.clone(),
            description: clone_opt(&self.description),
            created_at: self.created_at,
            classification: self.classification.clone(),
        }
    }
}

pub open spec fn internal_text() -> Seq<char> {
    "INTERNAL"@
}

/// The classification an item gets when none is given.
pub fn default_classification() -> (r: String)
    ensures
        r@ == internal_text(),
{
    String::from_str("INTERNAL")
}

pub open spec fn is_lower_hex(c: char) -> bool {
    ('0' as u32 <= c as u32 <= '9' as u32) || ('a' as u32 <= c as u32 <= 'f' as u32)
}

/// The hyphenated lowercase form of a version-4 UUID: 32 hex digits in groups
/// of 8, 4, 4, 4 and 12, the version digit `4` opening the third group.
pub open spec fn is_uuid_v4_text(s: Seq<char>) -> bool {
    &&& s.len() == 36
    &&& forall|i: int|
        0 <= i < 36 ==> if i == 8 || i == 13 || i == 18 || i == 23 {
            #[trigger] s[i] == '-'
        } else {
            is_lower_hex(s[i])
        }
    &&& s[14] == '4'
}

/// Relies on uuid's `Uuid::new_v4` (version 4 set in the random bytes) and its
/// `Display`, which writes the hyphenated form in lowercase hex.
#[verifier::external_body]
pub(crate) fn generate_id() -> (r: String)
    ensures
        is_uuid_v4_text(r@),
{
    uuid::Uuid::new_v4().to_string()
}

/// What one step of handling draws from outside: the time now and a new unique id.
pub struct Env {
    pub now: Timestamp,
    pub fresh_id: String,
}

impl Env {
    pub open spec fn wf(&self) -> bool {
        self.now.wf()
    }

    /// The current time and a new random id.
    pub fn current() -> (r: Env)
        ensures
            r.wf(),
            is_uuid_v4_text(r.fresh_id@),
    {
        Env { now: Timestamp::now(), fresh_id: generate_id() }
    }
}

/// An item as a request body gives it, before the defaults are filled in.
#[derive(Debug)]
pub struct ItemDraft {
    pub id: Option<String>,
    pub name: String,
    pub description: Option<String>,
    /// RFC 3339 text, when given.
    pub created_at: Option<String>,
    pub classification: Option<String>,
}

pub struct ItemDraftView {
    pub id: Option<Seq<char>>,
    pub name: Seq<char>,
    pub description: Option<Seq<char>>,
    pub created_at: Option<Seq<char>>,
    pub classification: Option<Seq<char>>,
}

impl View for ItemDraft {
    type V = ItemDraftView;

    open spec fn view(&self) -> ItemDraftView {
        ItemDraftView {
            id: opt_view(self.id),
            name: self.name@,
            description: opt_view(self.description),
            created_at: opt_view(self.created_at),
            classification: opt_view(self.classification),
        }
    }
}

pub open spec fn bad_created_at_text() -> Seq<char> {
    "created_at is not an RFC 3339 timestamp"@
}

/// The item a draft stands for: a missing id is the fresh one, a missing
/// creation time is now, a missing classification is INTERNAL. `None` where
/// the given creation time is unreadable.
pub open spec fn normalized(d: ItemDraftView, fresh_id: Seq<char>, now: Timestamp) -> Option<ItemView> {
    let created = match d.created_at {
        Some(t) => timestamp_of_text(t),
        None => Some(now),
    };
    match created {
        Some(c) => Some(
            ItemView {
                id: match d.id {
                    Some(i) => i,
                    None => fresh_id,
                },
                name: d.name,
                description: d.description,
                created_at: c,
                classification: match d.classification {
                    Some(k) => k,
                    None => internal_text(),
                },
            },
        ),
        None => None,
    }
}

impl ItemDraft {
    /// Fills in the defaults; a given creation time must be RFC 3339.
    pub fn into_item(self, env: &Env) -> (r: Result<Item, AppError>)
        requires
            env.wf(),
        ensures
            match r {
                Ok(i) => normalized(self@, env.fresh_id@, env.now) == Some(i@) && i@.wf(),
                Err(e) => normalized(self@, env.fresh_id@, env.now) is None && e@
                    == AppErrorView::Serialization(bad_created_at_text()),
            },
    {
        let created_at = match &self.created_at {
            Some(t) => match Timestamp::parse_rfc3339(t.as_str()) {
                Some(c) => c,
                None => {
                    return Err(AppError::Serialization(String::from_str("created_at is not an RFC 3339 timestamp")));
                },
            },
            None => env.now,
        };
        let id = match self.id {
            Some(i) => i,
            None => env.fresh_id.clone(),
        };
        let classification = match self.classification {
            Some(k) => k,
            None => default_classification(),
        };
        Ok(Item { id, name: self.name, description: self.description, created_at, classification })
    }
}

/// The kind of mutation an event reports.
#[derive(Clone, Copy, Debug, PartialEq, Eq, Structural)]
pub enum ItemEventType {
    Created,
    Updated,
    Deleted,
}

pub open spec fn event_type_text(t: ItemEventType) -> Seq<char> {
    match t {
        ItemEventType::Created => "Created"@,
        ItemEventType::Updated => "Updated"@,
        ItemEventType::Deleted => "Deleted"@,
    }
}

/// The kind a wire name denotes, if any.
pub open spec fn event_type_named(name: Seq<char>) -> Option<ItemEventType> {
    if name == "Created"@ {
        Some(ItemEventType::Created)
    } else if name == "Updated"@ {
        Some(ItemEventType::Updated)
    } else if name == "Deleted"@ {
        Some(ItemEventType::Deleted)
    } else {
        None
    }
}

/// Each kind's wire name reads back as that kind.
pub proof fn lemma_event_type_name_round_trip(t: ItemEventType)
    ensures
        event_type_named(event_type_text(t)) == Some(t),
{
    reveal_strlit("Created");
    reveal_strlit("Updated");
    reveal_strlit("Deleted");
    assert("Created"@[0] != "Updated"@[0]);
    assert("Created"@[0] != "Deleted"@[0]);
    assert("Updated"@[0] != "Deleted"@[0]);
}

impl ItemEventType {
    /// The kind with this wire name.
    pub fn from_name(name: &str) -> (r: Option<ItemEventType>)
        ensures
            r == event_type_named(name@),
    {
        let n = String::from_str(name);
        if n == String::from_str("Created") {
            Some(ItemEventType::Created)
        } else if n == String::from_str("Updated") {
            Some(ItemEventType::Updated)
        } else if n == String::from_str("Deleted") {
            Some(ItemEventType::Deleted)
        } else {
            None
        }
    }

    /// The name of the kind on the wire.
    pub fn name(&self) -> (r: String)
        ensures
            r@ == event_type_text(*self),
    {
        match self {
            ItemEventType::Created => String::from_str("Created"),
            ItemEventType::Updated => String::from_str("Updated"),
            ItemEventType::Deleted => String::from_str("Deleted"),
        }
    }
}

/// A notification of a mutation, sent to the queue.
#[derive(Debug)]
pub struct ItemEvent {
    pub event_type: ItemEventType,
    pub item: Item,
    pub timestamp: Timestamp,
}

pub struct ItemEventView {
    pub event_type: ItemEventType,
    pub item: ItemView,
    pub timestamp: Timestamp,
}

impl View for ItemEvent {
    type V = ItemEventView;

    open spec fn view(&self) -> ItemEventView {
        ItemEventView { event_type: self.event_type, item: self.item@, timestamp: self.timestamp }
    }
}

/// A record of who changed what, and when.
#[derive(Debug)]
pub struct AuditRecord {
    pub event_id: String,
    pub user_id: String,
    pub action: String,
    pub resource_id: String,
    pub resource_type: String,
    pub timestamp: Timestamp,
    pub previous_state: Option<String>,
    pub new_state: Option<String>,
    pub request_id: String,
    pub hash: Option<String>,
}

/// The body of an error response.
#[derive(Debug)]
pub struct ErrorResponse {
    pub message: String,
}

/// A status code with its body.
#[derive(Debug)]
pub struct ApiResponse<T> {
    pub status_code: u16,
    pub body: T,
}

} // verus!
