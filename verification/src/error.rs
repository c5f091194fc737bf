//! The error of a serialization.

use vstd::prelude::*;
use vstd::std_specs::convert::FromSpecImpl;
use vstd::string::*;

verus! {

/// `std::io::Error`, the error of a sink, carried as it is: nothing is
/// known of what it holds.
#[verifier::external_type_specification]
#[verifier::external_body]
pub struct ExIoError(std::io::Error);

/// `quick_xml::Error`, the error of the XML writer, carried as it is:
/// nothing is known of what it holds.
#[verifier::external_type_specification]
#[verifier::external_body]
pub struct ExXmlError(quick_xml::Error);

/// Why a report could not be written.
#[derive(Debug)]
pub enum ReportError {
    /// The XML writer could not represent the content.
    Xml(quick_xml::Error),
    /// The sink rejected a write.
    Io(std::io::Error),
}

impl From<quick_xml::Error> for ReportError {
    fn from(e: quick_xml::Error) -> (error: Self) {
        ReportError::Xml(e)
    }
}

impl FromSpecImpl<quick_xml::Error> for ReportError {
    open spec fn obeys_from_spec() -> bool {
        true
    }

    open spec fn from_spec(e: quick_xml::Error) -> Self {
        ReportError::Xml(e)
    }
}

impl From<std::io::Error> for ReportError {
    fn from(e: std::io::Error) -> (error: Self) {
        ReportError::Io(e)
    }
}

impl FromSpecImpl<std::io::Error> for ReportError {
    open spec fn obeys_from_spec() -> bool {
        true
    }

    open spec fn from_spec(e: std::io::Error) -> Self {
        ReportError::Io(e)
    }
}

/// What `quick_xml::Error` prints of itself through `Display`. Nothing is
/// claimed of the text.
#[verifier::external_body]
fn xml_error_text(e: &quick_xml::Error) -> (text: String) {
    format!("{e}")
}

/// What `std::io::Error` prints of itself through `Display`. Nothing is
/// claimed of the text.
#[verifier::external_body]
fn io_error_text(e: &std::io::Error) -> (text: String) {
    format!("{e}")
}

impl ReportError {
    /// How the message of the error begins: the kind of failure.
    pub open spec fn kind_text(&self) -> Seq<char> {
        match self {
            ReportError::Xml(_) => "XML error: "@,
            ReportError::Io(_) => "IO error: "@,
        }
    }

    /// The message of the error, given what the underlying error says of
    /// itself: the kind of failure, then that text.
    pub fn message(&self, detail: &str) -> (text: String)
        ensures
            text@ == self.kind_text() + detail@,
    {
        match self {
            ReportError::Xml(_) => String::from_str("XML error: ").concat(detail),
            ReportError::Io(_) => String::from_str("IO error: ").concat(detail),
        }
    }

    /// The message of the error: the kind of failure, then what the
    /// underlying error says of itself.
    pub fn to_string(&self) -> (text: String)
        ensures
            self.kind_text().is_prefix_of(text@),
    {
        let detail = match self {
            ReportError::Xml(e) => xml_error_text(e),
            ReportError::Io(e) => io_error_text(e),
        };
        self.message(detail.as_str())
    }
}

/// The result of a write, with the sink's error as the library's.
pub fn io_result(written: Result<(), std::io::Error>) -> (r: Result<(), ReportError>)
    ensures
        written is Ok <==> r is Ok,
        written matches Err(e) ==> r == Err::<(), ReportError>(ReportError::Io(e)),
{
    match written {
        Ok(()) => Ok(()),
        Err(e) => Err(ReportError::from(e)),
    }
}

} // verus!
