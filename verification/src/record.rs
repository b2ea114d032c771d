use vstd::prelude::*;

verus! {

/// The decoded profile payload of a commit: a display name, an optional
/// description, and an optional creation timestamp (a datetime literal,
/// carried as text).
pub struct ProfileRecord {
    pub display_name: String,
    pub description: Option<String>,
    pub created_at: Option<String>,
}

/// Mathematical image of a `ProfileRecord`.
pub ghost struct ProfileRecordView {
    pub display_name: Seq<char>,
    pub description: Option<Seq<char>>,
    pub created_at: Option<Seq<char>>,
}

impl View for ProfileRecord {
    type V = ProfileRecordView;

    open spec fn view(&self) -> ProfileRecordView {
        ProfileRecordView {
            display_name: self.display_name@,
            description: match self.description {
                Some(d) => Some(d@),
                None => None,
            },
            created_at: match self.created_at {
                Some(c) => Some(c@),
                None => None,
            },
        }
    }
}

/// The view of an optional record, for contracts over decode results.
pub open spec fn view_of_record(r: Option<ProfileRecord>) -> Option<ProfileRecordView> {
    match r {
        Some(p) => Some(p@),
        None => None,
    }
}

/// What decoding a JSON text into the profile schema yields: the record
/// when the text is a JSON object with a string `displayName` (and optional
/// string `description` and `createdAt`), `None` otherwise. A function of
/// the text alone.
pub uninterp spec fn spec_decode_profile(s: Seq<char>) -> Option<ProfileRecordView>;

/// Relies on `serde_json::from_str` and `serde_json::Value`'s accessors:
/// the decoded record is a function of the JSON text alone.
#[verifier::external_body]
pub(crate) fn decode_profile_record(s: &str) -> (r: Option<ProfileRecord>)
    ensures
        view_of_record(r) == spec_decode_profile(s@),
{
    let v: serde_json::Value = match serde_json::from_str(s) {
        Ok(v) => v,
        Err(_) => return None,
    };
    let display_name = match v.get("displayName").and_then(serde_json::Value::as_str) {
        Some(n) => n.to_owned(),
        None => return None,
    };
    let description = v.get("description").and_then(serde_json::Value::as_str).map(str::to_owned);
    let created_at = v.get("createdAt").and_then(serde_json::Value::as_str).map(str::to_owned);
    Some(ProfileRecord { display_name, description, created_at })
}

impl Clone for ProfileRecord {
    /// A clone carries the same fields.
    fn clone(&self) -> (r: Self)
        ensures
            r == *self,
    {
        ProfileRecord {
            display_name: self.display_name.clone(),
            description: match &self.description {
                Some(d) => Some(d.clone()),
                None => None,
            },
            created_at: match &self.created_at {
                Some(c) => Some(c.clone()),
                None => None,
            },
        }
    }
}

} // verus!
