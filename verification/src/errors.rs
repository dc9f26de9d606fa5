//! The errors a call can end in.
//!
//! Every failure is surfaced only to the one caller awaiting the affected
//! request; nothing here panics or touches any other pending call.

use vstd::prelude::*;
use vstd::string::StringExecFns;

verus! {

/// Why a call failed.
#[derive(Debug)]
pub enum CallError {
    /// The reply arrived with `success` false. `message` is the remote
    /// error text, or `"unknown error"` when the reply carried none.
    Failed { method: String, message: String },
    /// The completion handle was released without a reply ever arriving.
    Dropped { method: String },
}

impl CallError {
    /// A description of the failure, naming the method it struck.
    pub fn describe(&self) -> (r: String)
        ensures
            self matches CallError::Failed { method, message } ==> r@ == "frontend invoke "@
                + method@ + " failed: "@ + message@,
            self matches CallError::Dropped { method } ==> r@ == "frontend invoke "@ + method@
                + " dropped without response"@,
    {
        match self {
            CallError::Failed { method, message } => {
                let mut s = String::from_str("frontend invoke ");
                s.append(method.as_str());
                s.append(" failed: ");
                s.append(message.as_str());
                s
            },
            CallError::Dropped { method } => {
                let mut s = String::from_str("frontend invoke ");
                s.append(method.as_str());
                s.append(" dropped without response");
                s
            },
        }
    }
}

} // verus!
