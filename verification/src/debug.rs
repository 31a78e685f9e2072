//! Diagnostic log lines.
use crate::error::{user_message_spec, ToolkitError};
use crate::text::{append_str, owned};
use vstd::prelude::*;

verus! {

/// The log line of an error met while doing something: `<context>: <the
/// error's user message>`.
pub fn log_error(context: &str, error: &ToolkitError) -> (r: String)
    ensures
        r@ == context@ + ": "@ + user_message_spec(error@),
{
    let mut line = owned(context);
    append_str(&mut line, ": ");
    let message = error.user_message();
    append_str(&mut line, message.as_str());
    line
}

} // verus!
