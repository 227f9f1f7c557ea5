//! One request from its body to its reply.
//!
//! [`accept`] reads the body. Where it is understood, the caller drives the
//! [`Execution`] to its end and hands it to [`conclude`]; where it is not,
//! the reply is there at once and nothing has been injected.

use vstd::prelude::*;
use crate::decode::{decode_request, request_of};
use crate::execute::{Execution, Progress};
use crate::reply::{reply_of, respond, Failure, Reply};

verus! {

/// Reads the body of a request and starts on its batch, or makes the reply
/// that refuses it.
pub fn accept(body: &[u8]) -> (accepted: Result<Execution, Reply>)
    ensures
        match accepted {
            Ok(run) => request_of(body@) is Ok && run@ == Progress::fresh(
                request_of(body@)->Ok_0.actions,
                request_of(body@)->Ok_0.delay_between,
            ),
            Err(reply) => request_of(body@) is Err && reply@ == reply_of(
                Err(Failure::Decode(request_of(body@)->Err_0)),
            ),
        },
{
    match decode_request(body) {
        Ok(batch) => Ok(Execution::begin(batch)),
        Err(error) => Err(respond(Err(Failure::Decode(error)))),
    }
}

/// Makes the reply to a batch from the status lines of its run.
pub fn conclude(run: Execution) -> (reply: Reply)
    ensures
        reply@ == reply_of(Ok(run@.results)),
{
    respond(Ok(run.into_results()))
}

} // verus!
