//! The error taxonomy of the provider layer.

use vstd::prelude::*;

verus! {

/// The raw field of a record that failed a required decode rule.
#[derive(Debug, Clone, Copy, PartialEq, Eq, Structural)]
pub enum DecodeField {
    ItemId,
    TimeAdded,
    TimeUpdated,
    Favorite,
    ResolvedId,
    Status,
    Uri,
}

/// The handshake step that was attempted out of order.
#[derive(Debug, Clone, Copy, PartialEq, Eq, Structural)]
pub enum AuthStep {
    Request,
    Authorize,
}

/// Why an add response's shape could not be decoded.
#[derive(Debug, Clone, Copy, PartialEq, Eq, Structural)]
pub enum AddFault {
    MissingItem,
    MissingItemId,
    BadItemId,
}

/// A failure of one provider operation. Nothing is swallowed silently:
/// every operation either succeeds or surfaces one of these.
#[derive(Debug, Clone)]
pub enum ApiError {
    /// Network failure or a non-2xx HTTP status.
    Transport { status: u16 },
    /// The response body carried a non-null error despite HTTP success.
    Protocol { message: String },
    /// A required field failed its decode rule; the raw value is kept so a
    /// source API change can be diagnosed.
    Decode { field: DecodeField, value: String },
    /// A handshake step was attempted out of order.
    AuthState { step: AuthStep },
    /// An add response was missing or malformed at the nested identifier.
    AddShape { fault: AddFault },
}

} // verus!
