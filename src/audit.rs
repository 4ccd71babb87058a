//! Audit records of mutations, with a content hash of the item, and masking
//! of sensitive text for logs.
use vstd::prelude::*;
use crate::json::{item_json, item_json_text};
use crate::model::{AuditRecord, Env, Item, ItemView, opt_view};
use crate::time::Timestamp;
use vstd::string::StringSliceAdditionalSpecFns;
use vstd::utf8::{decode_utf8, encode_utf8, encode_utf8_decode_utf8, is_char_boundary};

verus! {

/// The MD5 digest of a text's UTF-8 bytes, as 32 lowercase hex digits.
pub uninterp spec fn md5_hex_text(s: Seq<char>) -> Seq<char>;

/// Relies on md5's `compute` over the text's bytes and the digest's `LowerHex`,
/// which writes each of its 16 bytes as two lowercase hex digits.
#[verifier::external_body]
fn md5_hex(s: &str) -> (r: String)
    ensures
        r@ == md5_hex_text(s@),
        r@.len() == 32,
{
    format!("{:x}", md5::compute(s.as_bytes()))
}

pub struct AuditView {
    pub event_id: Seq<char>,
    pub user_id: Seq<char>,
    pub action: Seq<char>,
    pub resource_id: Seq<char>,
    pub resource_type: Seq<char>,
    pub timestamp: Timestamp,
    pub previous_state: Option<Seq<char>>,
    pub new_state: Option<Seq<char>>,
    pub request_id: Seq<char>,
    pub hash: Option<Seq<char>>,
}

impl View for AuditRecord {
    type V = AuditView;

    open spec fn view(&self) -> AuditView {
        AuditView {
            event_id: self.event_id@,
            user_id: self.user_id@,
            action: self.action@,
            resource_id: self.resource_id@,
            resource_type: self.resource_type@,
            timestamp: self.timestamp,
            previous_state: opt_view(self.previous_state),
            new_state: opt_view(self.new_state),
            request_id: self.request_id@,
            hash: opt_view(self.hash),
        }
    }
}

/// The identity recorded for every mutation until callers are authenticated.
pub open spec fn system_user() -> Seq<char> {
    "system"@
}

/// The audit record of `action` on `item`: the new state is the item's JSON
/// except for a deletion, and the hash is the MD5 of that JSON.
pub open spec fn audit_of(
    action: Seq<char>,
    item: ItemView,
    previous_state: Option<Seq<char>>,
    request_id: Seq<char>,
    event_id: Seq<char>,
    at: Timestamp,
) -> AuditView {
    AuditView {
        event_id,
        user_id: system_user(),
        action,
        resource_id: item.id,
        resource_type: "item"@,
        timestamp: at,
        previous_state,
        new_state: if action != "delete"@ {
            Some(item_json_text(item))
        } else {
            None
        },
        request_id,
        hash: Some(md5_hex_text(item_json_text(item))),
    }
}

/// Builds the audit record of a mutation; its id and time are the step's fresh ones.
pub fn create_audit_record(
    action: &str,
    item: &Item,
    previous_state: Option<String>,
    request_id: &str,
    env: &Env,
) -> (r: AuditRecord)
    requires
        item@.wf(),
    ensures
        r@ == audit_of(
            action@,
            item@,
            opt_view(previous_state),
            request_id@,
            env.fresh_id@,
            env.now,
        ),
{
    let item_text = item_json(item);
    let is_delete = String::from_str(action) == String::from_str("delete");
    let new_state = if !is_delete {
        Some(item_text.clone())
    } else {
        None
    };
    let hash = md5_hex(item_text.as_str());
    AuditRecord {
        event_id: env.fresh_id.clone(),
        user_id: String::from_str("system"),
        action: String::from_str(action),
        resource_id: item.id.clone(),
        resource_type: String::from_str("item"),
        timestamp: env.now,
        previous_state,
        new_state,
        request_id: String::from_str(request_id),
        hash: Some(hash),
    }
}

/// The text of the first four UTF-8 bytes, then one `*` per further byte;
/// four `*` for a text of four bytes or fewer.
pub open spec fn masked_text(bytes: Seq<u8>) -> Seq<char> {
    if bytes.len() <= 4 {
        "****"@
    } else {
        decode_utf8(bytes.subrange(0, 4)) + Seq::new((bytes.len() - 4) as nat, |i: int| '*')
    }
}

/// Hides all but the first four bytes of a text, for logs; byte 4 must start
/// a character when the text is longer.
pub fn mask_sensitive_data(data: &str) -> (r: String)
    requires
        data.spec_bytes().len() <= 4 || is_char_boundary(data.spec_bytes(), 4),
    ensures
        r@ == masked_text(data.spec_bytes()),
{
    let n = data.as_bytes().len();
    if n <= 4 {
        return String::from_str("****");
    }
    let (head, _) = data.split_at(4);
    proof {
        encode_utf8_decode_utf8(head@);
        assert(head.spec_bytes() == encode_utf8(head@));
    }
    let mut out = String::from_str(head);
    let mut k: usize = 4;
    while k < n
        invariant
            4 <= k <= n,
            n == data.spec_bytes().len(),
            out@ == decode_utf8(data.spec_bytes().subrange(0, 4)) + Seq::new(
                (k - 4) as nat,
                |i: int| '*',
            ),
        decreases n - k,
    {
        out.append("*");
        proof {
            reveal_strlit("*");
        }
        k = k + 1;
        assert(out@ =~= decode_utf8(data.spec_bytes().subrange(0, 4)) + Seq::new(
            (k - 4) as nat,
            |i: int| '*',
        ));
    }
    out
}

} // verus!
