use vstd::prelude::*;

verus! {

/// Every failure the peripheral core can report.
///
/// `PermissionDenied` is fatal and can only arise while constructing a
/// peripheral; `ChannelClosed` and `ReplyLost` mean the command worker is
/// unreachable or abandoned a reply; `AlreadyResponded` and `RequestExpired`
/// report misuse of a read-request responder; `NativeOperationFailed` carries
/// the message of an adapter failure for one specific command;
/// `InvalidAttribute` rejects an attribute set that the native stack would
/// refuse, before the stack ever sees it; `Unknown` covers an adapter outcome
/// that fits no other variant.
#[derive(Debug, Clone, PartialEq, Eq)]
pub enum Error {
    PermissionDenied,
    ChannelClosed,
    ReplyLost,
    AlreadyResponded,
    RequestExpired,
    NativeOperationFailed(String),
    InvalidAttribute,
    Unknown,
}

} // verus!
