//! On the wire: the request for a document and the document.

use vstd::prelude::*;

verus! {

#[derive(Clone, Debug)]
pub struct GetDocument {
    pub document_request_key: String
}

#[derive(Clone, Debug)]
pub struct Document {
    pub company_number: String,
    pub document_date: Option<crate::time::Date>,
    pub document_type: Option<String>,
    pub document_id: String,
    pub document_data: DocumentData,
}

#[derive(Clone, Debug)]
pub struct DocumentData {
    pub content_type: ContentType,
    pub content_encoding: ContentEncoding,
    pub filename: Option<String>,
    pub contents: String
}

#[derive(Clone, Copy, Debug, PartialEq, Eq, Structural)]
pub enum ContentType {
    Pdf
}

#[derive(Clone, Copy, Debug, PartialEq, Eq, Structural)]
pub enum ContentEncoding {
    Base64
}

} // verus!
