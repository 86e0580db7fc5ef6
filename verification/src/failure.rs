//! Failed updates and the message that the session shows for them.

use leptos::prelude::ServerFnError;
use leptos::server_fn::error::NoCustomError;
use vstd::prelude::*;

verus! {

/// A failed update, as the session sees it.
pub enum FailureModel {
    WrappedServerError,
    Registration(Seq<char>),
    Request(Seq<char>),
    Response(Seq<char>),
    ServerError(Seq<char>),
    Deserialization(Seq<char>),
    Serialization(Seq<char>),
    Args(Seq<char>),
    MissingArg(Seq<char>),
}

/// The text that describes a failure: a fixed phrase for its kind, followed
/// by the detail it carries.
pub open spec fn description(failure: FailureModel) -> Seq<char> {
    match failure {
        FailureModel::WrappedServerError => "Unit Type Displayed"@,
        FailureModel::Registration(s) => "error while trying to register the server function: "@
            + s,
        FailureModel::Request(s) => "error reaching server to call server function: "@ + s,
        FailureModel::Response(s) => "error generating HTTP response: "@ + s,
        FailureModel::ServerError(s) => "error running server function: "@ + s,
        FailureModel::Deserialization(s) => "error deserializing server function results: "@ + s,
        FailureModel::Serialization(s) => "error serializing server function arguments: "@ + s,
        FailureModel::Args(s) => "error deserializing server function arguments: "@ + s,
        FailureModel::MissingArg(s) => "missing argument "@ + s,
    }
}

/// The message shown for a failure: what the server said, word for word,
/// where the server said something; the description of the failure otherwise.
pub open spec fn failure_text(failure: FailureModel) -> Seq<char> {
    match failure {
        FailureModel::ServerError(msg) => msg,
        _ => description(failure),
    }
}

/// Why an update failed. The variants are those of leptos' `ServerFnError`
/// without a custom error type; `ServerError` carries what the server said.
#[derive(Debug, PartialEq, Eq)]
pub enum UpdateError {
    WrappedServerError,
    Registration(String),
    Request(String),
    Response(String),
    ServerError(String),
    Deserialization(String),
    Serialization(String),
    Args(String),
    MissingArg(String),
}

impl View for UpdateError {
    type V = FailureModel;

    open spec fn view(&self) -> FailureModel {
        match self {
            UpdateError::WrappedServerError => FailureModel::WrappedServerError,
            UpdateError::Registration(s) => FailureModel::Registration(s@),
            UpdateError::Request(s) => FailureModel::Request(s@),
            UpdateError::Response(s) => FailureModel::Response(s@),
            UpdateError::ServerError(s) => FailureModel::ServerError(s@),
            UpdateError::Deserialization(s) => FailureModel::Deserialization(s@),
            UpdateError::Serialization(s) => FailureModel::Serialization(s@),
            UpdateError::Args(s) => FailureModel::Args(s@),
            UpdateError::MissingArg(s) => FailureModel::MissingArg(s@),
        }
    }
}

impl Clone for UpdateError {
    fn clone(&self) -> (copy: Self)
        ensures
            copy@ == self@,
    {
        match self {
            UpdateError::WrappedServerError => UpdateError::WrappedServerError,
            UpdateError::Registration(s) => UpdateError::Registration(s.clone()),
            UpdateError::Request(s) => UpdateError::Request(s.clone()),
            UpdateError::Response(s) => UpdateError::Response(s.clone()),
            UpdateError::ServerError(s) => UpdateError::ServerError(s.clone()),
            UpdateError::Deserialization(s) => UpdateError::Deserialization(s.clone()),
            UpdateError::Serialization(s) => UpdateError::Serialization(s.clone()),
            UpdateError::Args(s) => UpdateError::Args(s.clone()),
            UpdateError::MissingArg(s) => UpdateError::MissingArg(s.clone()),
        }
    }
}

/// Describes a failure in the words of leptos: builds the `ServerFnError` of
/// the same variant and detail and formats it with its `Display`, through
/// `to_string`. Trusted: that `Display` writes the fixed phrase of the
/// variant followed by the detail, as `description` states; for the variant
/// without detail it writes what `NoCustomError` displays.
#[verifier::external_body]
fn describe(failure: &UpdateError) -> (text: String)
    ensures
        text@ == description(failure@),
{
    let outside: ServerFnError = match failure {
        UpdateError::WrappedServerError => ServerFnError::WrappedServerError(NoCustomError),
        UpdateError::Registration(s) => ServerFnError::Registration(s.clone()),
        UpdateError::Request(s) => ServerFnError::Request(s.clone()),
        UpdateError::Response(s) => ServerFnError::Response(s.clone()),
        UpdateError::ServerError(s) => ServerFnError::ServerError(s.clone()),
        UpdateError::Deserialization(s) => ServerFnError::Deserialization(s.clone()),
        UpdateError::Serialization(s) => ServerFnError::Serialization(s.clone()),
        UpdateError::Args(s) => ServerFnError::Args(s.clone()),
        UpdateError::MissingArg(s) => ServerFnError::MissingArg(s.clone()),
    };
    outside.to_string()
}

/// The description of a failure is never empty.
pub proof fn lemma_description_not_empty(failure: FailureModel)
    ensures
        description(failure).len() > 0,
{
    reveal_strlit("Unit Type Displayed");
    reveal_strlit("error while trying to register the server function: ");
    reveal_strlit("error reaching server to call server function: ");
    reveal_strlit("error generating HTTP response: ");
    reveal_strlit("error running server function: ");
    reveal_strlit("error deserializing server function results: ");
    reveal_strlit("error serializing server function arguments: ");
    reveal_strlit("error deserializing server function arguments: ");
    reveal_strlit("missing argument ");
}

/// The message to show for a failed update: the server's own message as it
/// is, or else the description of the failure, which is not empty.
pub fn failure_message(failure: UpdateError) -> (msg: String)
    ensures
        msg@ == failure_text(failure@),
        !(failure@ is ServerError) ==> msg@.len() > 0,
{
    match failure {
        UpdateError::ServerError(msg) => msg,
        other => {
            proof {
                lemma_description_not_empty(other@);
            }
            describe(&other)
        },
    }
}

} // verus!
