//! What a subgraph shows of an execution that failed.

use vstd::prelude::*;

verus! {

/// `async_graphql::Response`, what the engine hands back for one execution.
/// It is carried through as it is; nothing is claimed of what it holds.
#[verifier::external_type_specification]
#[verifier::external_body]
pub struct ExResponse(async_graphql::Response);

/// `async_graphql::ServerError`, one error that the engine reports. It is
/// dropped unread; nothing is claimed of what it holds.
#[verifier::external_type_specification]
#[verifier::external_body]
pub struct ExServerError(async_graphql::ServerError);

/// The status under which a failed execution is reported.
pub const SERVER_ERROR_STATUS: u16 = 500;

/// The text with which a failed execution is reported.
pub open spec fn server_error_text() -> Seq<char> {
    "Internal server error"@
}

/// The one failure that a subgraph shows to its callers. It says that the
/// execution failed and nothing about why.
#[derive(Clone, Debug, PartialEq, Eq)]
pub struct ServerFailure {
    pub status: u16,
    pub message: String,
}

impl ServerFailure {
    /// This failure is the generic one: it has the server-error status and
    /// the fixed text.
    pub open spec fn is_generic(self) -> bool {
        self.status == SERVER_ERROR_STATUS && self.message@ == server_error_text()
    }

    /// The generic failure.
    pub fn generic() -> (failure: ServerFailure)
        ensures
            failure.is_generic(),
    {
        ServerFailure { status: SERVER_ERROR_STATUS, message: "Internal server error".to_owned() }
    }
}

/// The reply to an execution. What an execution produced is passed on as it
/// is. An execution that failed is reported as the generic failure, whatever
/// its errors were: none of them reaches the caller.
pub fn surface_execution<T, E>(executed: Result<T, E>) -> (reply: Result<T, ServerFailure>)
    ensures
        match executed {
            Ok(produced) => reply == Ok::<T, ServerFailure>(produced),
            Err(_) => reply is Err && reply->Err_0.is_generic(),
        },
{
    match executed {
        Ok(produced) => Ok(produced),
        Err(_) => Err(ServerFailure::generic()),
    }
}

/// The messages of the errors that `response` holds, in the order in which
/// the engine reported them: one for each entry of its `errors` field.
pub uninterp spec fn response_errors(response: async_graphql::Response) -> Seq<Seq<char>>;

/// `async_graphql::Response::into_result`. The contract claims what its
/// source shows: a response comes back exactly where it holds no error, and
/// it comes back as it went in.
#[verifier::external_body]
fn response_into_result(response: async_graphql::Response) -> (checked: Result<
    async_graphql::Response,
    Vec<async_graphql::ServerError>,
>)
    ensures
        checked is Ok <==> response_errors(response).len() == 0,
        checked matches Ok(same) ==> same == response,
{
    response.into_result()
}

/// The reply to the execution that ended in `response`: the response as it
/// is where it holds no error, and the generic failure where it holds one.
/// No error of the response reaches the caller.
pub fn graphql_reply(response: async_graphql::Response) -> (reply: Result<
    async_graphql::Response,
    ServerFailure,
>)
    ensures
        reply is Ok <==> response_errors(response).len() == 0,
        reply matches Ok(passed) ==> passed == response,
        reply matches Err(failure) ==> failure.is_generic(),
{
    surface_execution(response_into_result(response))
}

} // verus!
