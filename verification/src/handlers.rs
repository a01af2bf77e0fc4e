//! The endpoint that serves the catalog.
//!
//! Reading the backing file is the caller's part. What it read, or that it
//! could read nothing, is the input here; the response is the output. No
//! failure leaves this module in any other form than a response.

use crate::decode::{decode_catalog, decode_catalog_spec};
use crate::encode::{encode_catalog, encode_catalog_spec};
use crate::error::CatalogError;
use crate::json::{json_document, json_text, parse_document, print_document};
use crate::models::{CatalogView, ItemsByCategory};
use vstd::prelude::*;

verus! {

/// The path of the endpoint, which answers `GET` requests.
pub const ROUTE: &'static str = "/api/items";

/// The content type of every response, on success and on failure.
pub const CONTENT_TYPE: &'static str = "application/json";

/// The status of a response that carries the catalog.
pub const STATUS_OK: u16 = 200;

/// What the endpoint answers: an HTTP status, the content type of the body,
/// and the body.
#[derive(Debug, PartialEq, Eq)]
pub struct Response {
    pub status: u16,
    pub content_type: &'static str,
    pub body: String,
}

/// What a [`Response`] holds, with its texts as character sequences.
pub ghost struct ResponseView {
    pub status: u16,
    pub content_type: Seq<char>,
    pub body: Seq<char>,
}

impl View for Response {
    type V = ResponseView;

    open spec fn view(&self) -> ResponseView {
        ResponseView { status: self.status, content_type: self.content_type@, body: self.body@ }
    }
}

impl Clone for Response {
    fn clone(&self) -> (copy: Self)
        ensures
            copy@ == self@,
    {
        Response {
            status: self.status,
            content_type: self.content_type,
            body: self.body.clone(),
        }
    }
}

/// The catalog that the file's text stands for. Without a text the data is
/// unavailable; a text that is no JSON document, or a document that is no
/// catalog, is malformed.
pub open spec fn load_spec(source: Option<Seq<char>>) -> Result<CatalogView, CatalogError> {
    match source {
        None => Err(CatalogError::DataUnavailable),
        Some(text) => match json_document(text) {
            None => Err(CatalogError::MalformedData),
            Some(document) => match decode_catalog_spec(document) {
                None => Err(CatalogError::MalformedData),
                Some(catalog) => Ok(catalog),
            },
        },
    }
}

/// The JSON text of a catalog. A catalog whose document cannot be printed
/// counts as malformed.
pub open spec fn render_spec(catalog: CatalogView) -> Result<Seq<char>, CatalogError> {
    match json_text(encode_catalog_spec(catalog)) {
        Some(text) => Ok(text),
        None => Err(CatalogError::MalformedData),
    }
}

/// The response to a request: status 200 with the catalog's text, or the
/// failure's status with the body that names its kind. Either body is JSON.
pub open spec fn respond_spec(outcome: Result<Seq<char>, CatalogError>) -> ResponseView {
    match outcome {
        Ok(body) => ResponseView { status: 200, content_type: "application/json"@, body },
        Err(error) => ResponseView {
            status: error.status_spec(),
            content_type: "application/json"@,
            body: error.body_spec(),
        },
    }
}

/// The response to a request for the catalog, given what was read from the
/// backing file.
pub open spec fn get_items_spec(source: Option<Seq<char>>) -> ResponseView {
    respond_spec(
        match load_spec(source) {
            Ok(catalog) => render_spec(catalog),
            Err(error) => Err(error),
        },
    )
}

/// The text that was read, as a character sequence.
pub open spec fn text_of(source: Option<&str>) -> Option<Seq<char>> {
    match source {
        Some(text) => Some(text@),
        None => None,
    }
}

/// The outcome of reading the catalog, with the catalog as what it holds.
pub open spec fn loaded_view(loaded: Result<ItemsByCategory, CatalogError>) -> Result<
    CatalogView,
    CatalogError,
> {
    match loaded {
        Ok(catalog) => Ok(catalog@),
        Err(error) => Err(error),
    }
}

/// The outcome of writing the catalog, with the text as a character sequence.
pub open spec fn rendered_view(rendered: Result<String, CatalogError>) -> Result<
    Seq<char>,
    CatalogError,
> {
    match rendered {
        Ok(text) => Ok(text@),
        Err(error) => Err(error),
    }
}

/// Reads the catalog from the text of the backing file; `None` says that the
/// file could not be read.
///
/// The outcome is `Err(DataUnavailable)` without a text, `Err(MalformedData)`
/// for a text that is no JSON document or whose document is no catalog, and
/// otherwise the catalog that the document stands for.
pub fn load(source: Option<&str>) -> (loaded: Result<ItemsByCategory, CatalogError>)
    ensures
        loaded_view(loaded) == load_spec(text_of(source)),
{
    let text = match source {
        Some(text) => text,
        None => {
            return Err(CatalogError::DataUnavailable);
        },
    };
    match parse_document(text) {
        Ok(document) => decode_catalog(&document),
        Err(_) => Err(CatalogError::MalformedData),
    }
}

/// Writes the catalog as JSON text: the compact text of the document that
/// stands for it.
pub fn render(catalog: &ItemsByCategory) -> (rendered: Result<String, CatalogError>)
    ensures
        rendered_view(rendered) == render_spec(catalog@),
{
    let document = encode_catalog(catalog);
    match print_document(&document) {
        Ok(text) => Ok(text),
        Err(_) => Err(CatalogError::MalformedData),
    }
}

/// Makes the response from the outcome of a request: status 200 with the
/// catalog's text as its body, or the failure's status with the body that
/// names the failure.
pub fn respond(outcome: Result<String, CatalogError>) -> (response: Response)
    ensures
        response@ == respond_spec(rendered_view(outcome)),
{
    match outcome {
        Ok(body) => Response { status: STATUS_OK, content_type: CONTENT_TYPE, body },
        Err(error) => Response {
            status: error.status(),
            content_type: CONTENT_TYPE,
            body: error.body(),
        },
    }
}

/// Answers a request for the catalog, given what was read from the backing
/// file: its text, or `None` where it could not be read.
///
/// The response is 200 with the catalog's JSON text where the text is a
/// catalog, 503 with `{"error":"DataUnavailable"}` where there is no text,
/// and 500 with `{"error":"MalformedData"}` otherwise; its content type is
/// `application/json` in each case. It depends on nothing but the text: the
/// same text gets the same response, every time.
pub fn get_items(source: Option<&str>) -> (response: Response)
    ensures
        response@ == get_items_spec(text_of(source)),
{
    let outcome = match load(source) {
        Ok(catalog) => render(&catalog),
        Err(error) => Err(error),
    };
    respond(outcome)
}

} // verus!
