//! The two ways in which a request for the catalog fails.

use vstd::prelude::*;
use vstd::string::StringExecFns;

verus! {

/// Why the catalog could not be served.
#[derive(Debug, Clone, Copy, PartialEq, Eq, Structural)]
pub enum CatalogError {
    /// The backing file does not exist or could not be read.
    DataUnavailable,
    /// The file's content is not JSON, or not a catalog: a category that is
    /// no array, an item that is no object, a required field that is missing
    /// or of the wrong type.
    MalformedData,
}

impl CatalogError {
    /// The name by which responses and logs identify this kind of failure.
    pub open spec fn kind_spec(self) -> Seq<char> {
        match self {
            CatalogError::DataUnavailable => "DataUnavailable"@,
            CatalogError::MalformedData => "MalformedData"@,
        }
    }

    /// The HTTP status of the response that reports this failure: 503 while
    /// the data cannot be read, 500 when it was read and is not a catalog.
    pub open spec fn status_spec(self) -> u16 {
        match self {
            CatalogError::DataUnavailable => 503,
            CatalogError::MalformedData => 500,
        }
    }

    /// The body of the response that reports this failure: the JSON object
    /// `{"error":"<kind>"}`.
    pub open spec fn body_spec(self) -> Seq<char> {
        "{\"error\":\""@ + self.kind_spec() + "\"}"@
    }

    /// The name of this kind of failure.
    pub fn kind(&self) -> (name: &'static str)
        ensures
            name@ == self.kind_spec(),
    {
        match self {
            CatalogError::DataUnavailable => "DataUnavailable",
            CatalogError::MalformedData => "MalformedData",
        }
    }

    /// The HTTP status that reports this failure.
    pub fn status(&self) -> (code: u16)
        ensures
            code == self.status_spec(),
    {
        match self {
            CatalogError::DataUnavailable => 503,
            CatalogError::MalformedData => 500,
        }
    }

    /// The response body that reports this failure, `{"error":"<kind>"}`.
    pub fn body(&self) -> (text: String)
        ensures
            text@ == self.body_spec(),
    {
        let mut text = "{\"error\":\"".to_owned();
        text.append(self.kind());
        text.append("\"}");
        text
    }
}

} // verus!
