//! The rules an item must meet before it is stored.
use vstd::prelude::*;
use crate::error::ValidationError;
use crate::model::{Item, ItemView};

verus! {

pub const MAX_NAME_LEN: usize = 100;

pub const MAX_DESCRIPTION_LEN: usize = 1000;

pub open spec fn is_forbidden(c: char) -> bool {
    c == '<' || c == '>' || c == '&'
}

pub open spec fn has_forbidden(s: Seq<char>) -> bool {
    exists|i: int| 0 <= i < s.len() && is_forbidden(#[trigger] s[i])
}

pub open spec fn is_known_classification(c: Seq<char>) -> bool {
    c == "PUBLIC"@ || c == "INTERNAL"@ || c == "CONFIDENTIAL"@ || c == "RESTRICTED"@
}

/// The outcome of validation: the rules in order, the first that fails decides.
pub open spec fn validation_of(item: ItemView) -> Result<(), ValidationError> {
    if item.name.len() == 0 {
        Err(ValidationError::EmptyName)
    } else if item.name.len() > MAX_NAME_LEN {
        Err(ValidationError::NameTooLong)
    } else if has_forbidden(item.name) {
        Err(ValidationError::InvalidNameChars)
    } else if item.description is Some && item.description->0.len() > MAX_DESCRIPTION_LEN {
        Err(ValidationError::DescriptionTooLong)
    } else if item.description is Some && has_forbidden(item.description->0) {
        Err(ValidationError::InvalidDescriptionChars)
    } else if !is_known_classification(item.classification) {
        Err(ValidationError::InvalidClassification)
    } else {
        Ok(())
    }
}

/// Whether the text holds `<`, `>` or `&`.
fn contains_forbidden(s: &str) -> (r: bool)
    ensures
        r == has_forbidden(s@),
{
    let n = s.unicode_len();
    let mut i: usize = 0;
    while i < n
        invariant
            n == s@.len(),
            i <= n,
            forall|j: int| 0 <= j < i ==> !is_forbidden(#[trigger] s@[j]),
        decreases n - i,
    {
        let c = s.get_char(i);
        if c == '<' || c == '>' || c == '&' {
            return true;
        }
        i = i + 1;
    }
    false
}

fn known_classification(c: &String) -> (r: bool)
    ensures
        r == is_known_classification(c@),
{
    *c == String::from_str("PUBLIC") || *c == String::from_str("INTERNAL") || *c
        == String::from_str("CONFIDENTIAL") || *c == String::from_str("RESTRICTED")
}

/// Checks an item against the rules; lengths count characters.
pub fn validate_item(item: &Item) -> (r: Result<(), ValidationError>)
    ensures
        r == validation_of(item@),
{
    let name_len = item.name.as_str().unicode_len();
    if name_len == 0 {
        return Err(ValidationError::EmptyName);
    }
    if name_len > MAX_NAME_LEN {
        return Err(ValidationError::NameTooLong);
    }
    if contains_forbidden(item.name.as_str()) {
        return Err(ValidationError::InvalidNameChars);
    }
    if let Some(desc) = &item.description {
        if desc.as_str().unicode_len() > MAX_DESCRIPTION_LEN {
            return Err(ValidationError::DescriptionTooLong);
        }
        if contains_forbidden(desc.as_str()) {
            return Err(ValidationError::InvalidDescriptionChars);
        }
    }
    if !known_classification(&item.classification) {
        return Err(ValidationError::InvalidClassification);
    }
    Ok(())
}

} // verus!
