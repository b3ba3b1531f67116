//! Turning one parsed multipart part into an upload field.
//!
//! The multipart library hands the driver, per part, an optional field
//! name and the part's text, when it can be decoded. This module turns
//! that pair into an [`UploadField`] or a [`FieldError`], and judges
//! whether a field name is safe to use as a file name under the data
//! folder.

use vstd::prelude::*;
use vstd::string::StrSliceExecFns;
use vstd::string::StringExecFns;

verus! {

/// One named part of a multipart upload: the destination file name and
/// the file's content.
#[derive(Debug, PartialEq, Eq)]
pub struct UploadField {
    pub name: String,
    pub content: String,
}

/// Why a part could not be turned into an upload field.
#[derive(Clone, Copy, PartialEq, Eq, Structural, Debug)]
pub enum FieldError {
    /// The part carries no field name.
    MissingName,
    /// The part's content could not be decoded as text.
    UnreadableText,
}

impl FieldError {
    /// The log line for this error.
    pub fn message(&self) -> (m: String)
        ensures
            *self is MissingName ==> m@ == "Failed to read field name"@,
            *self is UnreadableText ==> m@ == "Failed to read field text"@,
    {
        match self {
            FieldError::MissingName => String::from_str("Failed to read field name"),
            FieldError::UnreadableText => String::from_str("Failed to read field text"),
        }
    }
}

/// Turn one parsed part into an upload field: the name must be present
/// (checked first), and the content must have decoded as text.
pub fn extract_field(name: Option<String>, text: Option<String>) -> (r: Result<
    UploadField,
    FieldError,
>)
    ensures
        name is None ==> r == Err::<UploadField, FieldError>(FieldError::MissingName),
        name is Some && text is None ==> r == Err::<UploadField, FieldError>(
            FieldError::UnreadableText,
        ),
        name is Some && text is Some ==> r is Ok && r.unwrap().name == name.unwrap()
            && r.unwrap().content == text.unwrap(),
{
    match name {
        None => Err(FieldError::MissingName),
        Some(n) => match text {
            None => Err(FieldError::UnreadableText),
            Some(t) => Ok(UploadField { name: n, content: t }),
        },
    }
}

/// A field name that may be used verbatim as a file name directly under
/// the data folder: non-empty, free of path separators, and not a dot
/// component that would name the folder itself or its parent.
pub open spec fn spec_name_is_safe(name: Seq<char>) -> bool {
    &&& name.len() > 0
    &&& forall|i: int| 0 <= i < name.len() ==> name[i] != '/' && name[i] != '\\'
    &&& !(name.len() == 1 && name[0] == '.')
    &&& !(name.len() == 2 && name[0] == '.' && name[1] == '.')
}

/// Decide whether a field name is safe to use as a file name.
pub fn name_is_safe(name: &String) -> (r: bool)
    ensures
        r == spec_name_is_safe(name@),
{
    let s: &str = name.as_str();
    let n: usize = s.unicode_len();
    if n == 0 {
        return false;
    }
    if n == 1 && s.get_char(0) == '.' {
        return false;
    }
    if n == 2 && s.get_char(0) == '.' && s.get_char(1) == '.' {
        return false;
    }
    let mut i: usize = 0;
    while i < n
        invariant
            0 <= i <= n,
            n == name@.len(),
            s@ == name@,
            forall|j: int| 0 <= j < i ==> name@[j] != '/' && name@[j] != '\\',
        decreases n - i,
    {
        let c = s.get_char(i);
        if c == '/' || c == '\\' {
            return false;
        }
        i = i + 1;
    }
    true
}

} // verus!
