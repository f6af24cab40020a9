//! The attachment metadata read off a multipart upload.

use vstd::prelude::*;

verus! {

/// What accompanies the first binary attachment of a capture request. A
/// part may omit any of these; a missing one is kept as the empty string.
pub struct MultipartMetadata {
    pub name: String,
    pub file_name: String,
    pub content_type: String,
}

/// The field text, or empty where the part did not carry the field.
pub open spec fn spec_field_or_empty(o: Option<Seq<char>>) -> Seq<char> {
    match o {
        Some(s) => s,
        None => Seq::empty(),
    }
}

impl MultipartMetadata {
    /// Collects the part's optional headers, defaulting each missing one to
    /// the empty string.
    pub fn from_fields(
        name: Option<String>,
        file_name: Option<String>,
        content_type: Option<String>,
    ) -> (r: MultipartMetadata)
        ensures
            r.name@ == spec_field_or_empty(crate::record::opt_text_view(name)),
            r.file_name@ == spec_field_or_empty(crate::record::opt_text_view(file_name)),
            r.content_type@ == spec_field_or_empty(crate::record::opt_text_view(content_type)),
    {
        let name = match name {
            Some(s) => s,
            None => "".to_owned(),
        };
        let file_name = match file_name {
            Some(s) => s,
            None => "".to_owned(),
        };
        let content_type = match content_type {
            Some(s) => s,
            None => "".to_owned(),
        };
        proof {
            reveal_strlit("");
            assert(""@ =~= Seq::<char>::empty());
        }
        MultipartMetadata { name, file_name, content_type }
    }
}

} // verus!
