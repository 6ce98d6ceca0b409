//! Errors of the database connector.

use vstd::prelude::*;

verus! {

/// Why the connector could not hand out a client.
pub enum ConnectorError {
    /// Connecting failed; `reason` says why.
    ConnectionError { reason: String },
    /// The connector's queue was dropped.
    QueueDrop,
}

/// What a connector error reports.
pub open spec fn connector_error_text(e: ConnectorError) -> Seq<char> {
    match e {
        ConnectorError::ConnectionError { reason } => reason@,
        ConnectorError::QueueDrop => "queue drop error"@,
    }
}

impl ConnectorError {
    /// A failed connection, described by the failure's own text.
    pub fn from_failure(description: String) -> (r: ConnectorError)
        ensures
            r == (ConnectorError::ConnectionError { reason: description }),
    {
        ConnectorError::ConnectionError { reason: description }
    }

    /// A connection attempt that ran out of time; `description` is the
    /// timer's own text.
    pub fn from_timeout(description: &str) -> (r: ConnectorError)
        ensures
            r matches ConnectorError::ConnectionError { reason } && reason@ == "connection timeout: "@
                + description@,
    {
        let reason = String::from_str("connection timeout: ").concat(description);
        ConnectorError::ConnectionError { reason }
    }

    /// The error's text, as it is displayed.
    pub fn message(&self) -> (r: String)
        ensures
            r@ == connector_error_text(*self),
    {
        match self {
            ConnectorError::ConnectionError { reason } => reason.clone(),
            ConnectorError::QueueDrop => String::from_str("queue drop error"),
        }
    }
}

} // verus!
