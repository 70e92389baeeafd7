//! Why request handling ended without an upstream response, and what the
//! client is told then.

use vstd::prelude::*;
use vstd::string::*;
use crate::logger::Severity;

verus! {

/// The status of a response that acknowledges a request for which nothing is
/// configured.
pub const STATUS_OK: u16 = 200;

/// The status of a response to a request that cannot be routed as it stands.
pub const STATUS_BAD_REQUEST: u16 = 400;

/// The status of a response after a failure behind the router.
pub const STATUS_INTERNAL_SERVER_ERROR: u16 = 500;

/// The three kinds of ending that are not an upstream response.
#[derive(Debug, Clone, Copy, PartialEq, Eq, Structural)]
pub enum ErrorClass {
    /// The request itself cannot be routed.
    ClientInput,
    /// The request is in order, and nothing is configured for it.
    ConfigurationAbsent,
    /// A store, the table, the backend or the upstream failed.
    Upstream,
}

impl ErrorClass {
    /// The status answered for an ending of this class.
    pub open spec fn status(self) -> u16 {
        match self {
            ErrorClass::ClientInput => STATUS_BAD_REQUEST,
            ErrorClass::ConfigurationAbsent => STATUS_OK,
            ErrorClass::Upstream => STATUS_INTERNAL_SERVER_ERROR,
        }
    }

    /// The severity with which an ending of this class is logged.
    pub open spec fn severity(self) -> Severity {
        match self {
            ErrorClass::ClientInput => Severity::Error,
            ErrorClass::ConfigurationAbsent => Severity::Warn,
            ErrorClass::Upstream => Severity::Error,
        }
    }
}

/// Why request handling ended with a response of the router's own making.
#[derive(Debug, PartialEq, Eq)]
pub enum Reason {
    /// The request has neither a forwarded host nor a `Host` header.
    MissingHost,
    /// No prefix of the route table starts the request's path.
    NoRouteMatched,
    /// The route-set store holds nothing for the request's host.
    HostNotConfigured,
    /// The table store holds no table for this route-set identifier.
    RouteSetNotConfigured(String),
    /// The route-set store failed; the string is its error.
    RouteSetStoreFailed(String),
    /// The table store failed; the string is its error.
    TableStoreFailed(String),
    /// The stored table is no flat object of strings; the string is the
    /// decoder's error.
    TableMalformed(String),
    /// The backend could not be set up; the string is the cause.
    BackendFailed(String),
    /// The request could not be sent; the string is the transport's error.
    SendFailed(String),
    /// An event arrived that the current state does not await.
    OutOfOrder,
}

/// A reason with its strings as sequences of characters.
pub enum ReasonView {
    MissingHost,
    NoRouteMatched,
    HostNotConfigured,
    RouteSetNotConfigured(Seq<char>),
    RouteSetStoreFailed(Seq<char>),
    TableStoreFailed(Seq<char>),
    TableMalformed(Seq<char>),
    BackendFailed(Seq<char>),
    SendFailed(Seq<char>),
    OutOfOrder,
}

impl View for Reason {
    type V = ReasonView;

    open spec fn view(&self) -> ReasonView {
        match self {
            Reason::MissingHost => ReasonView::MissingHost,
            Reason::NoRouteMatched => ReasonView::NoRouteMatched,
            Reason::HostNotConfigured => ReasonView::HostNotConfigured,
            Reason::RouteSetNotConfigured(id) => ReasonView::RouteSetNotConfigured(id@),
            Reason::RouteSetStoreFailed(cause) => ReasonView::RouteSetStoreFailed(cause@),
            Reason::TableStoreFailed(cause) => ReasonView::TableStoreFailed(cause@),
            Reason::TableMalformed(cause) => ReasonView::TableMalformed(cause@),
            Reason::BackendFailed(cause) => ReasonView::BackendFailed(cause@),
            Reason::SendFailed(cause) => ReasonView::SendFailed(cause@),
            Reason::OutOfOrder => ReasonView::OutOfOrder,
        }
    }
}

impl ReasonView {
    /// The class a reason falls under.
    pub open spec fn class(self) -> ErrorClass {
        match self {
            ReasonView::MissingHost => ErrorClass::ClientInput,
            ReasonView::NoRouteMatched => ErrorClass::ClientInput,
            ReasonView::HostNotConfigured => ErrorClass::ConfigurationAbsent,
            ReasonView::RouteSetNotConfigured(_) => ErrorClass::ConfigurationAbsent,
            ReasonView::RouteSetStoreFailed(_) => ErrorClass::Upstream,
            ReasonView::TableStoreFailed(_) => ErrorClass::Upstream,
            ReasonView::TableMalformed(_) => ErrorClass::Upstream,
            ReasonView::BackendFailed(_) => ErrorClass::Upstream,
            ReasonView::SendFailed(_) => ErrorClass::Upstream,
            ReasonView::OutOfOrder => ErrorClass::Upstream,
        }
    }

    /// The status of the response: that of the reason's class.
    pub open spec fn status(self) -> u16 {
        self.class().status()
    }

    /// The line that is logged for a reason: what failed, and the error that
    /// was reported where there is one.
    pub open spec fn message(self) -> Seq<char> {
        match self {
            ReasonView::MissingHost => "No Host or Forwarded Host Header Found"@,
            ReasonView::NoRouteMatched => "No route matches the request path"@,
            ReasonView::HostNotConfigured => "Host routes not found in Config store"@,
            ReasonView::RouteSetNotConfigured(id) => "Routes ID "@ + id + " not found in KV"@,
            ReasonView::RouteSetStoreFailed(cause) => "Config store get error: "@ + cause,
            ReasonView::TableStoreFailed(cause) => "KV store error: "@ + cause,
            ReasonView::TableMalformed(cause) => "Routes parsing error: "@ + cause,
            ReasonView::BackendFailed(cause) => "Dynamic backend failed: "@ + cause,
            ReasonView::SendFailed(cause) => "Send Error: "@ + cause,
            ReasonView::OutOfOrder => "Event out of order"@,
        }
    }
}

impl ErrorClass {
    /// The status answered for an ending of this class.
    pub fn status_code(&self) -> (status: u16)
        ensures
            status == self.status(),
    {
        match self {
            ErrorClass::ClientInput => STATUS_BAD_REQUEST,
            ErrorClass::ConfigurationAbsent => STATUS_OK,
            ErrorClass::Upstream => STATUS_INTERNAL_SERVER_ERROR,
        }
    }

    /// The severity with which an ending of this class is logged.
    pub fn log_severity(&self) -> (severity: Severity)
        ensures
            severity == self.severity(),
    {
        match self {
            ErrorClass::ClientInput => Severity::Error,
            ErrorClass::ConfigurationAbsent => Severity::Warn,
            ErrorClass::Upstream => Severity::Error,
        }
    }
}

impl Reason {
    /// The class this reason falls under.
    pub fn class(&self) -> (class: ErrorClass)
        ensures
            class == self@.class(),
    {
        match self {
            Reason::MissingHost => ErrorClass::ClientInput,
            Reason::NoRouteMatched => ErrorClass::ClientInput,
            Reason::HostNotConfigured => ErrorClass::ConfigurationAbsent,
            Reason::RouteSetNotConfigured(_) => ErrorClass::ConfigurationAbsent,
            Reason::RouteSetStoreFailed(_) => ErrorClass::Upstream,
            Reason::TableStoreFailed(_) => ErrorClass::Upstream,
            Reason::TableMalformed(_) => ErrorClass::Upstream,
            Reason::BackendFailed(_) => ErrorClass::Upstream,
            Reason::SendFailed(_) => ErrorClass::Upstream,
            Reason::OutOfOrder => ErrorClass::Upstream,
        }
    }

    /// The status of the response that ends the request.
    pub fn status(&self) -> (status: u16)
        ensures
            status == self@.status(),
    {
        self.class().status_code()
    }

    /// The severity with which the ending is logged.
    pub fn severity(&self) -> (severity: Severity)
        ensures
            severity == self@.class().severity(),
    {
        self.class().log_severity()
    }

    /// The line that is logged for the ending.
    pub fn message(&self) -> (line: String)
        ensures
            line@ == self@.message(),
    {
        match self {
            Reason::MissingHost => String::from_str("No Host or Forwarded Host Header Found"),
            Reason::NoRouteMatched => String::from_str("No route matches the request path"),
            Reason::HostNotConfigured => String::from_str("Host routes not found in Config store"),
            Reason::RouteSetNotConfigured(id) => String::from_str("Routes ID ").concat(
                id.as_str(),
            ).concat(" not found in KV"),
            Reason::RouteSetStoreFailed(cause) => String::from_str(
                "Config store get error: ",
            ).concat(cause.as_str()),
            Reason::TableStoreFailed(cause) => String::from_str("KV store error: ").concat(
                cause.as_str(),
            ),
            Reason::TableMalformed(cause) => String::from_str("Routes parsing error: ").concat(
                cause.as_str(),
            ),
            Reason::BackendFailed(cause) => String::from_str("Dynamic backend failed: ").concat(
                cause.as_str(),
            ),
            Reason::SendFailed(cause) => String::from_str("Send Error: ").concat(cause.as_str()),
            Reason::OutOfOrder => String::from_str("Event out of order"),
        }
    }
}

} // verus!
