//! How a connection ends, and the codes it reports to the client.

use vstd::prelude::*;

verus! {

/// A close frame sent to the client: a numeric code and a short reason.
#[derive(Clone, Debug, PartialEq, Eq)]
pub struct CloseFrame {
    pub code: u16,
    pub reason: String,
}

/// The fatal conditions that end a connection, each with its own code.
#[derive(Clone, Copy, Debug, PartialEq, Eq, Structural)]
pub enum CloseCode {
    /// The membership lookup failed while subscriptions were set up.
    StorageSetup,
    /// An event could not be encoded for the wire.
    OutboundEncode,
    /// The process-wide bus client is missing.
    BusUnavailable,
    /// The process-wide connection registry is missing.
    RegistryUnavailable,
    /// The registry holds no entry for the connection.
    ConnectionNotFound,
    /// The bus refused a subscription.
    BusSubscribe,
    /// The bus queue closed while the connection was subscribed.
    BusLost,
    /// A bus payload did not match the event schema.
    InboundDecode,
    /// The storage failed while an event's authorization was checked.
    StorageAuthorization,
}

/// The number sent for each fatal condition.
pub open spec fn spec_code(c: CloseCode) -> u16 {
    match c {
        CloseCode::StorageSetup => 5000,
        CloseCode::OutboundEncode => 5001,
        CloseCode::BusUnavailable => 5002,
        CloseCode::RegistryUnavailable => 5003,
        CloseCode::ConnectionNotFound => 5004,
        CloseCode::BusSubscribe => 5005,
        CloseCode::BusLost => 5007,
        CloseCode::InboundDecode => 5008,
        CloseCode::StorageAuthorization => 5009,
    }
}

/// The reason sent with each fatal condition.
pub open spec fn spec_reason(c: CloseCode) -> Seq<char> {
    match c {
        CloseCode::StorageSetup => "Internal database error"@,
        CloseCode::OutboundEncode => "JSON serialization error"@,
        CloseCode::BusUnavailable => "Redis pool not found"@,
        CloseCode::RegistryUnavailable => "Connection map not found"@,
        CloseCode::ConnectionNotFound => "Connection not found in connection map"@,
        CloseCode::BusSubscribe => "Redis connection pool hung up connection"@,
        CloseCode::BusLost => "Redis failed to subscribe to channel"@,
        CloseCode::InboundDecode => "Internal JSON representation decoding failed"@,
        CloseCode::StorageAuthorization => "Internal database error while checking permissions"@,
    }
}

impl CloseCode {
    /// The number sent to the client.
    pub fn code(&self) -> (r: u16)
        ensures
            r == spec_code(*self),
    {
        match self {
            CloseCode::StorageSetup => 5000,
            CloseCode::OutboundEncode => 5001,
            CloseCode::BusUnavailable => 5002,
            CloseCode::RegistryUnavailable => 5003,
            CloseCode::ConnectionNotFound => 5004,
            CloseCode::BusSubscribe => 5005,
            CloseCode::BusLost => 5007,
            CloseCode::InboundDecode => 5008,
            CloseCode::StorageAuthorization => 5009,
        }
    }

    /// The human-readable reason sent with the code.
    pub fn reason(&self) -> (r: &'static str)
        ensures
            r@ == spec_reason(*self),
    {
        match self {
            CloseCode::StorageSetup => "Internal database error",
            CloseCode::OutboundEncode => "JSON serialization error",
            CloseCode::BusUnavailable => "Redis pool not found",
            CloseCode::RegistryUnavailable => "Connection map not found",
            CloseCode::ConnectionNotFound => "Connection not found in connection map",
            CloseCode::BusSubscribe => "Redis connection pool hung up connection",
            CloseCode::BusLost => "Redis failed to subscribe to channel",
            CloseCode::InboundDecode => "Internal JSON representation decoding failed",
            CloseCode::StorageAuthorization => "Internal database error while checking permissions",
        }
    }

    /// The close frame that reports this condition.
    pub fn frame(&self) -> (r: CloseFrame)
        ensures
            r.code == spec_code(*self),
            r.reason@ == spec_reason(*self),
    {
        let reason = self.reason();
        CloseFrame { code: self.code(), reason: String::from_str(reason) }
    }
}

/// Every fatal condition has a code of its own.
pub proof fn lemma_close_codes_distinct(a: CloseCode, b: CloseCode)
    ensures
        a != b ==> spec_code(a) != spec_code(b),
{
}

/// How a connection ended.
#[derive(Clone, Copy, Debug, PartialEq, Eq, Structural)]
pub enum Ending {
    /// The teardown signal fired; its reason, if any, is passed on verbatim.
    Requested,
    /// The owner of the direct channel closed it: a graceful end without reason.
    OwnerClosed,
    /// A fatal condition.
    Fatal(CloseCode),
}

impl Ending {
    /// The close frame sent to the client, given the reason that came with
    /// the teardown signal.
    pub fn frame(&self, requested: Option<CloseFrame>) -> (r: Option<CloseFrame>)
        ensures
            *self == Ending::Requested ==> r == requested,
            *self == Ending::OwnerClosed ==> r is None,
            *self matches Ending::Fatal(c) ==> r matches Some(f) && f.code == spec_code(c)
                && f.reason@ == spec_reason(c),
    {
        match self {
            Ending::Requested => requested,
            Ending::OwnerClosed => None,
            Ending::Fatal(c) => Some(c.frame()),
        }
    }
}

} // verus!
