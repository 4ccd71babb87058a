//! The JSON wire forms of items, events and error bodies. Absent optional
//! fields are left out, never written as null.
use vstd::prelude::*;
use crate::model::{ErrorResponse, Item, ItemView, ItemEvent, ItemEventType, event_type_text};
use crate::time::{Timestamp, rfc3339_text};

verus! {

pub open spec fn hex_digit(n: int) -> char {
    "0123456789abcdef"@[n]
}

/// How one character stands in a JSON string: `"` and `\` behind a backslash,
/// the named control escapes, other controls below 0x20 as `\u00xx` in
/// lowercase hex, and every other character as itself.
pub open spec fn json_char_escape(c: char) -> Seq<char> {
    if c == '"' {
        seq!['\\', '"']
    } else if c == '\\' {
        seq!['\\', '\\']
    } else if c == '\u{8}' {
        seq!['\\', 'b']
    } else if c == '\t' {
        seq!['\\', 't']
    } else if c == '\n' {
        seq!['\\', 'n']
    } else if c == '\u{c}' {
        seq!['\\', 'f']
    } else if c == '\r' {
        seq!['\\', 'r']
    } else if (c as u32) < 0x20 {
        seq!['\\', 'u', '0', '0', hex_digit((c as u32) as int / 16), hex_digit((c as u32) as int % 16)]
    } else {
        seq![c]
    }
}

pub open spec fn json_escaped(s: Seq<char>) -> Seq<char>
    decreases s.len(),
{
    if s.len() == 0 {
        Seq::<char>::empty()
    } else {
        json_escaped(s.drop_last()) + json_char_escape(s.last())
    }
}

/// The JSON string literal of a text: its characters escaped, between quotes.
pub open spec fn json_string_text(s: Seq<char>) -> Seq<char> {
    seq!['"'] + json_escaped(s) + seq!['"']
}

/// Relies on serde_json's `to_string` on a string slice (`format_escaped_str`
/// with its `ESCAPE` table and `write_char_escape`), which writes it between
/// quotes, escaped character by character, and does not fail on one.
#[verifier::external_body]
fn json_string(s: &str) -> (r: String)
    ensures
        r@ == json_string_text(s@),
{
    serde_json::to_string(s).unwrap_or_default()
}

pub open spec fn time_json_text(t: Timestamp) -> Seq<char> {
    json_string_text(rfc3339_text(t.secs, t.nanos))
}

/// `{"id":..,"name":..,["description":..,]"created_at":..,"classification":..}`
pub open spec fn item_json_text(i: ItemView) -> Seq<char> {
    "{\"id\":"@ + json_string_text(i.id) + ",\"name\":"@ + json_string_text(i.name) + match i.description {
        Some(d) => ",\"description\":"@ + json_string_text(d),
        None => Seq::<char>::empty(),
    } + ",\"created_at\":"@ + time_json_text(i.created_at) + ",\"classification\":"@
        + json_string_text(i.classification) + "}"@
}

/// The parts, with a comma between each two.
pub open spec fn json_join(parts: Seq<Seq<char>>) -> Seq<char>
    decreases parts.len(),
{
    if parts.len() == 0 {
        Seq::<char>::empty()
    } else if parts.len() == 1 {
        parts[0]
    } else {
        json_join(parts.drop_last()) + ","@ + parts.last()
    }
}

pub open spec fn items_json_text(items: Seq<ItemView>) -> Seq<char> {
    "["@ + json_join(items.map_values(|i: ItemView| item_json_text(i))) + "]"@
}

/// `{"event_type":..,"item":..,"timestamp":..}`
pub open spec fn event_json_text(t: ItemEventType, item: ItemView, at: Timestamp) -> Seq<char> {
    "{\"event_type\":"@ + json_string_text(event_type_text(t)) + ",\"item\":"@ + item_json_text(item)
        + ",\"timestamp\":"@ + time_json_text(at) + "}"@
}

/// `{"message":..}`
pub open spec fn error_json_text(message: Seq<char>) -> Seq<char> {
    "{\"message\":"@ + json_string_text(message) + "}"@
}

/// The JSON form of an item.
pub fn item_json(item: &Item) -> (r: String)
    requires
        item@.wf(),
    ensures
        r@ == item_json_text(item@),
{
    let mut out = String::from_str("{\"id\":");
    out.append(json_string(item.id.as_str()).as_str());
    out.append(",\"name\":");
    out.append(json_string(item.name.as_str()).as_str());
    match &item.description {
        Some(d) => {
            out.append(",\"description\":");
            out.append(json_string(d.as_str()).as_str());
        },
        None => {},
    }
    out.append(",\"created_at\":");
    out.append(json_string(item.created_at.to_rfc3339().as_str()).as_str());
    out.append(",\"classification\":");
    out.append(json_string(item.classification.as_str()).as_str());
    out.append("}");
    assert(out@ =~= item_json_text(item@));
    out
}

/// The JSON array of the items, in their order.
pub fn items_json(items: &Vec<Item>) -> (r: String)
    requires
        forall|k: int| 0 <= k < items@.len() ==> (#[trigger] items@[k])@.wf(),
    ensures
        r@ == items_json_text(items@.map_values(|i: Item| i@)),
{
    let ghost parts = items@.map_values(|i: Item| i@).map_values(|i: ItemView| item_json_text(i));
    let mut body = String::new();
    let mut k: usize = 0;
    while k < items.len()
        invariant
            k <= items@.len(),
            parts.len() == items@.len(),
            forall|j: int| 0 <= j < items@.len() ==> (#[trigger] items@[j])@.wf(),
            forall|j: int| 0 <= j < items@.len() ==> #[trigger] parts[j] == item_json_text(items@[j]@),
            body@ == json_join(parts.take(k as int)),
        decreases items@.len() - k,
    {
        let piece = item_json(&items[k]);
        assert(parts.take(k as int + 1).drop_last() =~= parts.take(k as int));
        if k > 0 {
            body.append(",");
        } else {
            assert(json_join(parts.take(0)) =~= Seq::<char>::empty());
        }
        body.append(piece.as_str());
        k = k + 1;
        assert(body@ =~= json_join(parts.take(k as int)));
    }
    assert(parts.take(k as int) =~= parts);
    let mut out = String::from_str("[");
    out.append(body.as_str());
    out.append("]");
    assert(out@ =~= items_json_text(items@.map_values(|i: Item| i@)));
    out
}

/// The wire form of an event.
pub fn event_json(event: &ItemEvent) -> (r: String)
    requires
        event.item@.wf(),
        event.timestamp.wf(),
    ensures
        r@ == event_json_text(event.event_type, event.item@, event.timestamp),
{
    let mut out = String::from_str("{\"event_type\":");
    out.append(json_string(event.event_type.name().as_str()).as_str());
    out.append(",\"item\":");
    out.append(item_json(&event.item).as_str());
    out.append(",\"timestamp\":");
    out.append(json_string(event.timestamp.to_rfc3339().as_str()).as_str());
    out.append("}");
    assert(out@ =~= event_json_text(event.event_type, event.item@, event.timestamp));
    out
}

/// The JSON form of an error body.
pub fn error_json(body: &ErrorResponse) -> (r: String)
    ensures
        r@ == error_json_text(body.message@),
{
    let mut out = String::from_str("{\"message\":");
    out.append(json_string(body.message.as_str()).as_str());
    out.append("}");
    assert(out@ =~= error_json_text(body.message@));
    out
}

} // verus!
