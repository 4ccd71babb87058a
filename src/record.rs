//! The store adapter's record format: every present field as a string
//! attribute keyed by its name, absent optional fields left out.
use vstd::prelude::*;
use crate::model::{Item, ItemView, opt_view, clone_opt, internal_text, default_classification};
use crate::time::{Timestamp, rfc3339_text, timestamp_of_text};

verus! {

/// The string attributes of one stored record; `None` where the attribute is
/// absent or is not a string.
#[derive(Debug)]
pub struct ItemRecord {
    pub id: Option<String>,
    pub name: Option<String>,
    pub description: Option<String>,
    pub created_at: Option<String>,
    pub classification: Option<String>,
}

pub struct RecordView {
    pub id: Option<Seq<char>>,
    pub name: Option<Seq<char>>,
    pub description: Option<Seq<char>>,
    pub created_at: Option<Seq<char>>,
    pub classification: Option<Seq<char>>,
}

impl View for ItemRecord {
    type V = RecordView;

    open spec fn view(&self) -> RecordView {
        RecordView {
            id: opt_view(self.id),
            name: opt_view(self.name),
            description: opt_view(self.description),
            created_at: opt_view(self.created_at),
            classification: opt_view(self.classification),
        }
    }
}

/// The record written for an item.
pub open spec fn record_of(i: ItemView) -> RecordView {
    RecordView {
        id: Some(i.id),
        name: Some(i.name),
        description: i.description,
        created_at: Some(rfc3339_text(i.created_at.secs, i.created_at.nanos)),
        classification: Some(i.classification),
    }
}

/// `rec` is what the adapter writes for `i`: `record_of(i)`, whose time text reads back.
pub open spec fn written_for(rec: RecordView, i: ItemView) -> bool {
    &&& rec == record_of(i)
    &&& timestamp_of_text(rec.created_at->0) == Some(i.created_at)
}

pub open spec fn text_or_empty(t: Option<Seq<char>>) -> Seq<char> {
    match t {
        Some(s) => s,
        None => Seq::<char>::empty(),
    }
}

/// A stored time: its reading where it is readable, else `now`.
pub open spec fn time_or_now(t: Option<Seq<char>>, now: Timestamp) -> Timestamp {
    match t {
        Some(s) => match timestamp_of_text(s) {
            Some(x) => x,
            None => now,
        },
        None => now,
    }
}

/// The item a record reads as: a missing text is empty, a missing or unreadable
/// time is now, a missing classification is INTERNAL.
pub open spec fn item_of_record(r: RecordView, now: Timestamp) -> ItemView {
    ItemView {
        id: text_or_empty(r.id),
        name: text_or_empty(r.name),
        description: r.description,
        created_at: time_or_now(r.created_at, now),
        classification: match r.classification {
            Some(k) => k,
            None => internal_text(),
        },
    }
}

/// A record as a listing reads it: skipped where `id` or `name` is missing.
pub open spec fn listed_item(r: RecordView, now: Timestamp) -> Option<ItemView> {
    if r.id is Some && r.name is Some {
        Some(item_of_record(r, now))
    } else {
        None
    }
}

pub open spec fn listed_items(recs: Seq<RecordView>, now: Timestamp) -> Seq<ItemView>
    decreases recs.len(),
{
    if recs.len() == 0 {
        Seq::<ItemView>::empty()
    } else {
        let rest = listed_items(recs.drop_last(), now);
        match listed_item(recs.last(), now) {
            Some(i) => rest.push(i),
            None => rest,
        }
    }
}

pub open spec fn record_views(recs: Seq<ItemRecord>) -> Seq<RecordView> {
    recs.map_values(|r: ItemRecord| r@)
}

pub open spec fn item_views(items: Seq<Item>) -> Seq<ItemView> {
    items.map_values(|i: Item| i@)
}

fn text_or_empty_exec(t: &Option<String>) -> (r: String)
    ensures
        r@ == text_or_empty(opt_view(*t)),
{
    match t {
        Some(s) => s.clone(),
        None => String::new(),
    }
}

impl ItemRecord {
    /// The record that stores an item.
    pub fn from_item(item: &Item) -> (r: ItemRecord)
        requires
            item@.wf(),
        ensures
            written_for(r@, item@),
    {
        ItemRecord {
            id: Some(item.id.clone()),
            name: Some(item.name.clone()),
            description: clone_opt(&item.description),
            created_at: Some(item.created_at.to_rfc3339()),
            classification: Some(item.classification.clone()),
        }
    }

    /// The item this record reads as, leniently: see `item_of_record`.
    pub fn to_item(&self, now: Timestamp) -> (r: Item)
        requires
            now.wf(),
        ensures
            r@ == item_of_record(self@, now),
            r@.wf(),
    {
        let created_at = match &self.created_at {
            Some(t) => match Timestamp::parse_rfc3339(t.as_str()) {
                Some(x) => x,
                None => now,
            },
            None => now,
        };
        let classification = match &self.classification {
            Some(k) => k.clone(),
            None => default_classification(),
        };
        Item {
            id: text_or_empty_exec(&self.id),
            name: text_or_empty_exec(&self.name),
            description: clone_opt(&self.description),
            created_at,
            classification,
        }
    }

    /// The item a listing shows for this record, if any.
    pub fn to_listed_item(&self, now: Timestamp) -> (r: Option<Item>)
        requires
            now.wf(),
        ensures
            match r {
                Some(i) => listed_item(self@, now) == Some(i@) && i@.wf(),
                None => listed_item(self@, now) is None,
            },
    {
        if self.id.is_some() && self.name.is_some() {
            Some(self.to_item(now))
        } else {
            None
        }
    }
}

/// The items of a full scan, in scan order, without the records that lack `id` or `name`.
pub fn items_from_records(recs: &Vec<ItemRecord>, now: Timestamp) -> (r: Vec<Item>)
    requires
        now.wf(),
    ensures
        item_views(r@) == listed_items(record_views(recs@), now),
        forall|k: int| 0 <= k < r@.len() ==> (#[trigger] r@[k])@.wf(),
{
    let mut out: Vec<Item> = Vec::new();
    let mut k: usize = 0;
    while k < recs.len()
        invariant
            k <= recs@.len(),
            now.wf(),
            item_views(out@) == listed_items(record_views(recs@).take(k as int), now),
            forall|j: int| 0 <= j < out@.len() ==> (#[trigger] out@[j])@.wf(),
        decreases recs@.len() - k,
    {
        let ghost before = out@;
        assert(record_views(recs@).take(k as int + 1).drop_last() =~= record_views(recs@).take(
            k as int,
        ));
        match recs[k].to_listed_item(now) {
            Some(i) => {
                out.push(i);
                assert(item_views(out@) =~= item_views(before).push(out@.last()@));
            },
            None => {},
        }
        k = k + 1;
    }
    assert(record_views(recs@).take(k as int) =~= record_views(recs@));
    out
}

/// Round trip through the store: the record written for an item reads back as
/// that item, both by key and in a listing.
pub proof fn lemma_written_reads_back(i: ItemView, rec: RecordView, now: Timestamp)
    requires
        i.wf(),
        written_for(rec, i),
    ensures
        item_of_record(rec, now) == i,
        listed_item(rec, now) == Some(i),
{
}

/// A full scan over the records written for `n` items lists exactly those `n`
/// items: none is skipped and none is changed.
pub proof fn lemma_listing_keeps_written(items: Seq<ItemView>, recs: Seq<RecordView>, now: Timestamp)
    requires
        recs.len() == items.len(),
        forall|k: int| 0 <= k < items.len() ==> (#[trigger] items[k]).wf(),
        forall|k: int| 0 <= k < items.len() ==> written_for(#[trigger] recs[k], items[k]),
    ensures
        listed_items(recs, now) == items,
        listed_items(recs, now).len() == items.len(),
    decreases items.len(),
{
    if items.len() > 0 {
        let last = (items.len() - 1) as int;
        lemma_written_reads_back(items[last], recs[last], now);
        lemma_listing_keeps_written(items.drop_last(), recs.drop_last(), now);
        assert(items.drop_last().push(items.last()) =~= items);
    } else {
        assert(items =~= Seq::<ItemView>::empty());
    }
}

} // verus!
