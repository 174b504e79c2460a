//! Plain models of the shapes a call and its outcome can take.
//!
//! An RPC call is one of three variants: a method call carrying an id and a
//! method name, a notification carrying only a method name (no response is
//! expected), or an invalid call carrying only an id. An outcome, when one
//! exists at all, is either a success or a failure, each echoing the call's
//! correlation id.

use vstd::prelude::*;

verus! {

/// A call's correlation id: numeric, string, or null.
#[derive(Debug, Clone, PartialEq, Eq)]
pub enum Id {
    /// Numeric id.
    Num(u64),
    /// String id.
    Str(String),
    /// No id (notifications, or an id the parser could not recover).
    Null,
}

/// The shape of one call inside a (possibly batched) request.
#[derive(Debug, Clone, PartialEq, Eq)]
pub enum CallInfo {
    /// A method call: carries an id and a method name.
    MethodCall {
        /// Correlation id established by the client.
        id: Id,
        /// Name of the method to invoke.
        method: String,
    },
    /// A notification: carries a method name but no id, and expects no
    /// response.
    Notification {
        /// Name of the method to invoke.
        method: String,
    },
    /// A call the parser could not make sense of: carries only an id (if one
    /// was recovered) and no method name.
    Invalid {
        /// Correlation id, if known.
        id: Id,
    },
}

/// The shape of a call's outcome, when the call produces one.
#[derive(Debug, Clone, PartialEq, Eq)]
pub enum OutputInfo {
    /// The call succeeded.
    Success {
        /// Correlation id echoed from the call.
        id: Id,
    },
    /// The call failed; the failure is a business-logic outcome, not an
    /// error of this layer.
    Failure {
        /// Correlation id echoed from the call.
        id: Id,
        /// The error detail, already rendered as text.
        error: String,
    },
}

/// The severity at which a completion line is reported.
#[derive(Debug, Clone, Copy, PartialEq, Eq)]
pub enum Severity {
    /// A successful outcome is reported as plain debugging detail.
    Debug,
    /// A failed outcome is reported as an error.
    Error,
}

/// The correlation id a call's log lines carry: a method call's or an
/// invalid call's own id, and null for a notification.
pub open spec fn spec_call_id(call: CallInfo) -> Id {
    match call {
        CallInfo::MethodCall { id, .. } => id,
        CallInfo::Notification { .. } => Id::Null,
        CallInfo::Invalid { id } => id,
    }
}

/// The method name a call's log lines carry; an invalid call has none and
/// keeps it empty.
pub open spec fn spec_call_method(call: CallInfo) -> Seq<char> {
    match call {
        CallInfo::MethodCall { method, .. } => method@,
        CallInfo::Notification { method } => method@,
        CallInfo::Invalid { .. } => Seq::<char>::empty(),
    }
}

/// The severity of an outcome's completion line.
pub open spec fn spec_severity(output: OutputInfo) -> Severity {
    match output {
        OutputInfo::Success { .. } => Severity::Debug,
        OutputInfo::Failure { .. } => Severity::Error,
    }
}

/// The correlation id an outcome echoes.
pub open spec fn spec_output_id(output: OutputInfo) -> Id {
    match output {
        OutputInfo::Success { id } => id,
        OutputInfo::Failure { id, .. } => id,
    }
}

fn clone_id(id: &Id) -> (r: Id)
    ensures
        r == *id,
{
    match id {
        Id::Num(n) => Id::Num(*n),
        Id::Str(s) => Id::Str(s.clone()),
        Id::Null => Id::Null,
    }
}

impl CallInfo {
    /// The correlation id this call's log lines carry.
    pub fn req_id(&self) -> (r: Id)
        ensures
            r == spec_call_id(*self),
    {
        match self {
            CallInfo::MethodCall { id, .. } => clone_id(id),
            CallInfo::Notification { .. } => Id::Null,
            CallInfo::Invalid { id } => clone_id(id),
        }
    }

    /// The method name this call's log lines carry; empty for an invalid
    /// call.
    pub fn method_name(&self) -> (r: &str)
        ensures
            r@ == spec_call_method(*self),
    {
        match self {
            CallInfo::MethodCall { method, .. } => method.as_str(),
            CallInfo::Notification { method } => method.as_str(),
            CallInfo::Invalid { .. } => {
                let r: &str = "";
                proof {
                    reveal_strlit("");
                    assert(r@ =~= Seq::<char>::empty());
                }
                r
            },
        }
    }
}

impl OutputInfo {
    /// The severity at which this outcome's completion line is reported.
    pub fn severity(&self) -> (r: Severity)
        ensures
            r == spec_severity(*self),
    {
        match self {
            OutputInfo::Success { .. } => Severity::Debug,
            OutputInfo::Failure { .. } => Severity::Error,
        }
    }
}

} // verus!
