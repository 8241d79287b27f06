//! Error kinds of the invoice pipeline.
//!
//! `Io` and `Encoding` arise when a document's bytes cannot be read or
//! decoded; `Parse` when the text is not well-formed XML; `MissingField` when
//! a syntactically valid document violates the expected invoice schema (a
//! required attribute is absent); `UnexpectedRoot` when the root element's
//! local name is not the expected document type name and strict extraction
//! was asked for. Every kind aborts processing of its own document only.

use vstd::prelude::*;

verus! {

/// Ghost counterpart of [`InvoiceError`].
#[verifier::ext_equal]
pub enum SpecError {
    Io,
    Encoding,
    Parse,
    MissingField { field: Seq<char>, element: Seq<char> },
    UnexpectedRoot,
}

/// Shorthand for the error naming a required attribute `field` that is absent
/// from the element named `element`.
pub open spec fn spec_missing(field: Seq<char>, element: Seq<char>) -> SpecError {
    SpecError::MissingField { field, element }
}

/// A `Result` seen through the deep views of both of its sides: the form in
/// which every contract of this crate states what a fallible function
/// returns.
pub open spec fn res_view<T: DeepView, E: DeepView>(r: Result<T, E>) -> Result<T::V, E::V> {
    match r {
        Ok(t) => Ok(t.deep_view()),
        Err(e) => Err(e.deep_view()),
    }
}

/// An error affecting one document of a batch.
#[derive(Debug, PartialEq)]
pub enum InvoiceError {
    /// The document's bytes could not be read.
    Io,
    /// The document's bytes are not valid text in the expected encoding.
    Encoding,
    /// The document is not well-formed XML.
    Parse,
    /// A required attribute (`field`) is absent from the element named
    /// `element`.
    MissingField { field: String, element: String },
    /// The root element's local name is not the expected document type name.
    UnexpectedRoot,
}

impl DeepView for InvoiceError {
    type V = SpecError;

    open spec fn deep_view(&self) -> SpecError {
        match self {
            InvoiceError::Io => SpecError::Io,
            InvoiceError::Encoding => SpecError::Encoding,
            InvoiceError::Parse => SpecError::Parse,
            InvoiceError::MissingField { field, element } => SpecError::MissingField {
                field: field@,
                element: element@,
            },
            InvoiceError::UnexpectedRoot => SpecError::UnexpectedRoot,
        }
    }
}

impl InvoiceError {
    /// A short description of the error kind, for reporting.
    pub fn describe(&self) -> (r: &'static str)
        ensures
            r@ == self.spec_describe(),
    {
        match self {
            InvoiceError::Io => "the document could not be read",
            InvoiceError::Encoding => "the document is not valid text in the expected encoding",
            InvoiceError::Parse => "the document is not well-formed XML",
            InvoiceError::MissingField { .. } => "a required attribute is absent",
            InvoiceError::UnexpectedRoot => "the root element is not an invoice record",
        }
    }

    /// What [`InvoiceError::describe`] returns for each kind.
    pub open spec fn spec_describe(&self) -> Seq<char> {
        match self {
            InvoiceError::Io => "the document could not be read"@,
            InvoiceError::Encoding => "the document is not valid text in the expected encoding"@,
            InvoiceError::Parse => "the document is not well-formed XML"@,
            InvoiceError::MissingField { .. } => "a required attribute is absent"@,
            InvoiceError::UnexpectedRoot => "the root element is not an invoice record"@,
        }
    }
}

} // verus!
