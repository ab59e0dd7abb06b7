//! What can be wrong with the description of a table or of a patch.

use crate::text::option_text;
use vstd::prelude::*;
use vstd::string::*;

verus! {

/// Why a description was refused. Each variant names the attribute or the
/// field that is at fault; attributes of a field come with the field's name.
#[derive(Debug, PartialEq, Eq)]
pub enum Error {
    /// An attribute was given twice.
    DuplicateAttribute { field: Option<String>, attribute: String },
    /// An attribute that is not part of the vocabulary.
    UnknownAttribute { field: Option<String>, attribute: String },
    /// An attribute whose value has the wrong shape.
    MalformedAttribute { field: Option<String>, attribute: String },
    /// A required attribute was not given.
    MissingAttribute { attribute: String },
    /// No field bears the name that the `id` attribute gives.
    UnknownId { id: String },
    /// More than one field bears the name that the `id` attribute gives.
    AmbiguousId { id: String },
    /// A patch has a field that its table does not have.
    UnknownPatchField { name: String },
    /// A patch has the id of its table among its fields.
    PatchOfId { name: String },
}

/// What an [`Error`] holds.
pub enum ErrorView {
    DuplicateAttribute { field: Option<Seq<char>>, attribute: Seq<char> },
    UnknownAttribute { field: Option<Seq<char>>, attribute: Seq<char> },
    MalformedAttribute { field: Option<Seq<char>>, attribute: Seq<char> },
    MissingAttribute { attribute: Seq<char> },
    UnknownId { id: Seq<char> },
    AmbiguousId { id: Seq<char> },
    UnknownPatchField { name: Seq<char> },
    PatchOfId { name: Seq<char> },
}

impl View for Error {
    type V = ErrorView;

    open spec fn view(&self) -> ErrorView {
        match self {
            Error::DuplicateAttribute { field, attribute } => ErrorView::DuplicateAttribute {
                field: option_text(*field),
                attribute: attribute@,
            },
            Error::UnknownAttribute { field, attribute } => ErrorView::UnknownAttribute {
                field: option_text(*field),
                attribute: attribute@,
            },
            Error::MalformedAttribute { field, attribute } => ErrorView::MalformedAttribute {
                field: option_text(*field),
                attribute: attribute@,
            },
            Error::MissingAttribute { attribute } => ErrorView::MissingAttribute {
                attribute: attribute@,
            },
            Error::UnknownId { id } => ErrorView::UnknownId { id: id@ },
            Error::AmbiguousId { id } => ErrorView::AmbiguousId { id: id@ },
            Error::UnknownPatchField { name } => ErrorView::UnknownPatchField { name: name@ },
            Error::PatchOfId { name } => ErrorView::PatchOfId { name: name@ },
        }
    }
}

impl ErrorView {
    /// The words in which the error is reported.
    pub open spec fn message(self) -> Seq<char> {
        match self {
            ErrorView::DuplicateAttribute { field, attribute } => "duplicate attribute `"@
                + attribute + "`"@,
            ErrorView::UnknownAttribute { field, attribute } => "unknown attribute `"@ + attribute
                + "`"@,
            ErrorView::MalformedAttribute { field, attribute } => "malformed attribute `"@
                + attribute + "`"@,
            ErrorView::MissingAttribute { attribute } => "missing #[ormx("@ + attribute
                + ")] attribute"@,
            ErrorView::UnknownId { id } => "id `"@ + id
                + "` does not refer to a field of the struct"@,
            ErrorView::AmbiguousId { id } => "id `"@ + id + "` refers to more than one field"@,
            ErrorView::UnknownPatchField { name } => "field `"@ + name
                + "` does not exist on the table"@,
            ErrorView::PatchOfId { name } => "field `"@ + name
                + "` is the id of the table and cannot be patched"@,
        }
    }
}

/// `word` between `before` and `after`.
fn framed(before: &str, word: &str, after: &str) -> (out: String)
    ensures
        out@ == before@ + word@ + after@,
{
    let mut out = String::from_str(before);
    out.append(word);
    out.append(after);
    out
}

impl Error {
    /// The words in which the error is reported.
    pub fn message(&self) -> (out: String)
        ensures
            out@ == self@.message(),
    {
        match self {
            Error::DuplicateAttribute { field, attribute } => framed(
                "duplicate attribute `",
                attribute.as_str(),
                "`",
            ),
            Error::UnknownAttribute { field, attribute } => framed(
                "unknown attribute `",
                attribute.as_str(),
                "`",
            ),
            Error::MalformedAttribute { field, attribute } => framed(
                "malformed attribute `",
                attribute.as_str(),
                "`",
            ),
            Error::MissingAttribute { attribute } => framed(
                "missing #[ormx(",
                attribute.as_str(),
                ")] attribute",
            ),
            Error::UnknownId { id } => framed(
                "id `",
                id.as_str(),
                "` does not refer to a field of the struct",
            ),
            Error::AmbiguousId { id } => framed(
                "id `",
                id.as_str(),
                "` refers to more than one field",
            ),
            Error::UnknownPatchField { name } => framed(
                "field `",
                name.as_str(),
                "` does not exist on the table",
            ),
            Error::PatchOfId { name } => framed(
                "field `",
                name.as_str(),
                "` is the id of the table and cannot be patched",
            ),
        }
    }

    /// The field whose attribute is at fault, for an error that comes from
    /// the attributes of a field.
    pub fn field(&self) -> (out: Option<&String>)
        ensures
            match out {
                Some(name) => self@.field() == Some(name@),
                None => self@.field() is None,
            },
    {
        match self {
            Error::DuplicateAttribute { field, attribute } => field.as_ref(),
            Error::UnknownAttribute { field, attribute } => field.as_ref(),
            Error::MalformedAttribute { field, attribute } => field.as_ref(),
            Error::UnknownPatchField { name } => Some(name),
            Error::PatchOfId { name } => Some(name),
            _ => None,
        }
    }
}

impl ErrorView {
    /// The field that the error is about, if it is about one.
    pub open spec fn field(self) -> Option<Seq<char>> {
        match self {
            ErrorView::DuplicateAttribute { field, attribute } => field,
            ErrorView::UnknownAttribute { field, attribute } => field,
            ErrorView::MalformedAttribute { field, attribute } => field,
            ErrorView::UnknownPatchField { name } => Some(name),
            ErrorView::PatchOfId { name } => Some(name),
            _ => None,
        }
    }
}

/// Whether `out` holds what `expected` says: the value or the error.
pub open spec fn holds<T: View, E: View>(out: Result<T, E>, expected: Result<T::V, E::V>) -> bool {
    match out {
        Ok(value) => expected == Ok::<T::V, E::V>(value@),
        Err(error) => expected == Err::<T::V, E::V>(error@),
    }
}

/// The error for a required attribute that was not given.
pub fn missing_attr(attr: &str) -> (out: Error)
    ensures
        out@ == (ErrorView::MissingAttribute { attribute: attr@ }),
{
    Error::MissingAttribute { attribute: String::from_str(attr) }
}

/// A slot was filled before.
#[derive(Clone, Copy, Debug, PartialEq, Eq, Structural)]
pub struct Duplicate;

/// Puts `v` into `opt`, and reports whether the slot was empty: an attribute
/// may be given once. The slot holds `v` afterwards either way.
pub fn set_once<T>(opt: &mut Option<T>, v: T) -> (out: Result<(), Duplicate>)
    ensures
        *final(opt) == Some(v),
        out is Ok <==> *old(opt) is None,
{
    let filled = opt.is_some();
    *opt = Some(v);
    if filled {
        Err(Duplicate)
    } else {
        Ok(())
    }
}

} // verus!
