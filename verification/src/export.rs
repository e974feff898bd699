//! The replies that carry the stored document as JSON and as YAML. The JSON
//! route always answers, a failure included; the YAML route gives an error
//! for a document that YAML cannot hold.

use crate::cache::{get_openapi_spec, SpecCache};
use utoipa::openapi::OpenApi;
use vstd::prelude::*;

verus! {

/// The status of a reply that carries the document.
pub const STATUS_OK: u16 = 200;

/// The status of a reply that reports a failed serialisation.
pub const STATUS_INTERNAL_SERVER_ERROR: u16 = 500;

/// A reply to a request for the document: status, content type and body.
#[derive(Clone, Debug, PartialEq, Eq)]
pub struct ExportReply {
    pub status: u16,
    pub content_type: String,
    pub body: String,
}

/// A reply as contracts see it.
pub ghost struct ReplyView {
    pub status: int,
    pub content_type: Seq<char>,
    pub body: Seq<char>,
}

impl View for ExportReply {
    type V = ReplyView;

    open spec fn view(&self) -> ReplyView {
        ReplyView {
            status: self.status as int,
            content_type: self.content_type@,
            body: self.body@,
        }
    }
}

/// The document could not be written as YAML.
#[derive(Clone, Debug, PartialEq, Eq)]
pub struct ExportError {
    /// What the serialiser said.
    pub message: String,
}

impl View for ExportError {
    type V = Seq<char>;

    open spec fn view(&self) -> Seq<char> {
        self.message@
    }
}

impl ExportError {
    /// The serialiser's message.
    pub fn message(&self) -> (text: String)
        ensures
            text@ == self@,
    {
        self.message.clone()
    }
}

/// The content type of a JSON reply.
pub open spec fn json_content_type() -> Seq<char> {
    "application/json"@
}

/// The content type of a YAML reply.
pub open spec fn yaml_content_type() -> Seq<char> {
    "application/yaml"@
}

/// The content type of a reply that carries a message in place of the
/// document.
pub open spec fn plain_text_content_type() -> Seq<char> {
    "text/plain; charset=utf-8"@
}

/// What a serialiser returned, as contracts see it: the text, or the message
/// of its failure.
pub open spec fn outcome_view(outcome: Result<String, String>) -> Result<Seq<char>, Seq<char>> {
    match outcome {
        Ok(text) => Ok(text@),
        Err(message) => Err(message@),
    }
}

/// What an exporter returned, as contracts see it.
pub open spec fn export_view(result: Result<ExportReply, ExportError>) -> Result<
    ReplyView,
    Seq<char>,
> {
    match result {
        Ok(reply) => Ok(reply@),
        Err(error) => Err(error@),
    }
}

/// What the JSON route answers for a serialiser's outcome. The text goes
/// out unchanged with status 200 and the JSON content type. A failure is
/// answered too: with status 500 and the serialiser's message as plain text.
pub open spec fn json_answer(outcome: Result<Seq<char>, Seq<char>>) -> ReplyView {
    match outcome {
        Ok(text) => ReplyView { status: 200, content_type: json_content_type(), body: text },
        Err(message) => ReplyView {
            status: 500,
            content_type: plain_text_content_type(),
            body: message,
        },
    }
}

/// What the YAML route answers for a serialiser's outcome. The text goes
/// out unchanged with status 200 and the YAML content type. A failure is an
/// error with the serialiser's message, and no reply.
pub open spec fn yaml_answer(outcome: Result<Seq<char>, Seq<char>>) -> Result<ReplyView, Seq<char>> {
    match outcome {
        Ok(text) => Ok(ReplyView { status: 200, content_type: yaml_content_type(), body: text }),
        Err(message) => Err(message),
    }
}

/// `OpenApi::to_json` of `utoipa`, its error turned into its message.
/// Nothing is claimed of the text: the serialiser walks the hash map of the
/// document's extensions, whose order is not fixed.
#[verifier::external_body]
fn document_json(doc: &OpenApi) -> (outcome: Result<String, String>) {
    match doc.to_json() {
        Ok(text) => Ok(text),
        Err(error) => Err(error.to_string()),
    }
}

/// `OpenApi::to_yaml` of `utoipa`, its error turned into its message.
/// Nothing is claimed of the text, for the same reason as for JSON.
#[verifier::external_body]
fn document_yaml(doc: &OpenApi) -> (outcome: Result<String, String>) {
    match doc.to_yaml() {
        Ok(text) => Ok(text),
        Err(error) => Err(error.to_string()),
    }
}

/// The JSON route's reply for what the JSON serialiser returned. There is
/// always a reply: a failed serialisation is reported in it.
pub fn json_reply(outcome: Result<String, String>) -> (reply: ExportReply)
    ensures
        reply@ == json_answer(outcome_view(outcome)),
{
    match outcome {
        Ok(text) => ExportReply {
            status: STATUS_OK,
            content_type: "application/json".to_owned(),
            body: text,
        },
        Err(message) => ExportReply {
            status: STATUS_INTERNAL_SERVER_ERROR,
            content_type: "text/plain; charset=utf-8".to_owned(),
            body: message,
        },
    }
}

/// The YAML route's reply for what the YAML serialiser returned, or the
/// error where it failed.
pub fn yaml_reply(outcome: Result<String, String>) -> (result: Result<ExportReply, ExportError>)
    ensures
        export_view(result) == yaml_answer(outcome_view(outcome)),
{
    match outcome {
        Ok(text) => Ok(
            ExportReply {
                status: STATUS_OK,
                content_type: "application/yaml".to_owned(),
                body: text,
            },
        ),
        Err(message) => Err(ExportError { message }),
    }
}

/// Answers a request for the stored document as JSON. The store must hold a
/// document. The request is always answered: the result is `Ok`, and the
/// reply in it is the one that `json_reply` gives for what the serialiser
/// returned, so it has status 200 and the JSON content type unless the
/// serialiser failed.
pub fn openapi_spec_json(cache: &SpecCache) -> (result: Result<ExportReply, ExportError>)
    requires
        cache@ is Some,
    ensures
        result is Ok,
        exists|outcome: Result<Seq<char>, Seq<char>>|
            result->Ok_0@ == #[trigger] json_answer(outcome),
{
    let outcome = document_json(get_openapi_spec(cache));
    Ok(json_reply(outcome))
}

/// Answers a request for the stored document as YAML. The store must hold a
/// document. A document that YAML cannot hold gives an error, never a broken
/// body; a reply has status 200 and the YAML content type.
pub fn openapi_spec_yaml(cache: &SpecCache) -> (result: Result<ExportReply, ExportError>)
    requires
        cache@ is Some,
    ensures
        exists|outcome: Result<Seq<char>, Seq<char>>|
            export_view(result) == #[trigger] yaml_answer(outcome),
        result matches Ok(reply) ==> reply@.status == 200 && reply@.content_type
            == yaml_content_type(),
{
    let outcome = document_yaml(get_openapi_spec(cache));
    yaml_reply(outcome)
}

} // verus!
