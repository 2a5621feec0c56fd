//! The supported JSON Schema drafts, modeled as a closed enumeration, and
//! the permissive draft-hint policy: a recognized canonical meta-schema URI
//! pins keyword semantics, anything else selects nothing (keyword semantics
//! are then auto-detected from the schema itself).

use vstd::prelude::*;

use crate::text::str_eq;

verus! {

/// A versioned revision of the JSON Schema specification.
#[derive(Clone, Copy, PartialEq, Eq, Structural, Debug)]
pub enum DraftVersion {
    Draft4,
    Draft6,
    Draft7,
    Draft201909,
    Draft202012,
}

/// The draft named by a canonical meta-schema URI, if it is one of the five
/// recognized ones.
pub open spec fn draft_of_hint(u: Seq<char>) -> Option<DraftVersion> {
    if u == "http://json-schema.org/draft-04/schema#"@ {
        Some(DraftVersion::Draft4)
    } else if u == "http://json-schema.org/draft-06/schema#"@ {
        Some(DraftVersion::Draft6)
    } else if u == "http://json-schema.org/draft-07/schema#"@ {
        Some(DraftVersion::Draft7)
    } else if u == "https://json-schema.org/draft/2019-09/schema"@ {
        Some(DraftVersion::Draft201909)
    } else if u == "https://json-schema.org/draft/2020-12/schema"@ {
        Some(DraftVersion::Draft202012)
    } else {
        None
    }
}

/// What a draft hint selects: the named draft for a recognized hint, nothing
/// for an absent or unrecognized one.
pub open spec fn spec_selected_draft(hint: Option<String>) -> Option<DraftVersion> {
    match hint {
        Some(u) => draft_of_hint(u@),
        None => None,
    }
}

/// Pin keyword semantics to the draft the hint names. An unrecognized hint
/// is ignored rather than rejected: nothing is selected and auto-detection
/// applies.
pub fn select_draft(hint: &Option<String>) -> (r: Option<DraftVersion>)
    ensures
        r == spec_selected_draft(*hint),
{
    match hint {
        None => None,
        Some(u) => {
            let s = u.as_str();
            if str_eq(s, "http://json-schema.org/draft-04/schema#") {
                Some(DraftVersion::Draft4)
            } else if str_eq(s, "http://json-schema.org/draft-06/schema#") {
                Some(DraftVersion::Draft6)
            } else if str_eq(s, "http://json-schema.org/draft-07/schema#") {
                Some(DraftVersion::Draft7)
            } else if str_eq(s, "https://json-schema.org/draft/2019-09/schema") {
                Some(DraftVersion::Draft201909)
            } else if str_eq(s, "https://json-schema.org/draft/2020-12/schema") {
                Some(DraftVersion::Draft202012)
            } else {
                None
            }
        },
    }
}

} // verus!
