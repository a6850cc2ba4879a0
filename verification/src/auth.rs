//! The three-step authentication handshake as an explicit state machine.
//!
//! The library decides every transition and builds every request body; the
//! surrounding program only carries requests to the network, shows the
//! authorization page to the operator, and brings outcomes back. A step
//! attempted out of order is rejected here, before anything is sent.

use vstd::prelude::*;

use crate::error::ApiError;
use crate::error::AuthStep;
use crate::model::Secrets;
use crate::web::form_encoded;
use crate::web::form_urlencode;

verus! {

/// The out-of-band redirect marker: this tool has no callback listener.
pub const REDIRECT_URI: &'static str = "0.0.0.0";

/// The state tag sent along with the first handshake call.
pub const REQUEST_STATE: &'static str = "pocket-research";

/// The endpoint of the handshake's first step.
pub const OAUTH_REQUEST_URL: &'static str = "https://getpocket.com/v3/oauth/request";

/// The endpoint of the handshake's third step.
pub const OAUTH_AUTHORIZE_URL: &'static str = "https://getpocket.com/v3/oauth/authorize";

/// The page the operator visits to grant access.
pub const AUTHORIZE_PAGE_URL: &'static str = "https://getpocket.com/auth/authorize";

/// The body of the first handshake call.
#[derive(Debug, Clone)]
pub struct OauthRequest {
    pub consumer_key: String,
    pub redirect_uri: String,
    pub state: Option<String>,
}

/// The body of the third handshake call.
#[derive(Debug, Clone)]
pub struct AuthorizeRequest {
    pub consumer_key: String,
    pub code: String,
}

/// The handshake's position: unauthenticated, holding a short-lived code,
/// waiting on the operator, or holding the durable token.
#[derive(Debug, Clone)]
pub enum AuthState {
    Unauthenticated,
    RequestIssued { code: String },
    AuthorizationPending { code: String },
    Authenticated { access_token: String },
}

/// The three-step handshake: request a short-lived code, have the operator
/// grant access out of band, exchange the code for a durable token. Every
/// failure returns it to the unauthenticated state.
#[derive(Debug, Clone)]
pub struct Handshake {
    pub consumer_key: String,
    pub state: AuthState,
}

impl Handshake {
    /// Begin unauthenticated with the configured consumer identifier.
    pub fn new(consumer_key: String) -> (h: Handshake)
        ensures
            h.state is Unauthenticated,
            h.consumer_key == consumer_key,
    {
        Handshake { consumer_key, state: AuthState::Unauthenticated }
    }

    /// The first step's request body. Only the unauthenticated state may
    /// issue it; out of order it is an authentication-state error and
    /// nothing is sent.
    pub fn request_body(&self) -> (r: Result<OauthRequest, ApiError>)
        ensures
            r is Ok <==> self.state is Unauthenticated,
            r matches Ok(b) ==> (b.state matches Some(s) && s@ == REQUEST_STATE@
                && b.consumer_key == self.consumer_key && b.redirect_uri@ == REDIRECT_URI@),
            r matches Err(e) ==> (e matches ApiError::AuthState { step } && step
                == AuthStep::Request),
    {
        match &self.state {
            AuthState::Unauthenticated => Ok(
                OauthRequest {
                    consumer_key: self.consumer_key.clone(),
                    redirect_uri: String::from_str(REDIRECT_URI),
                    state: Some(String::from_str(REQUEST_STATE)),
                },
            ),
            _ => Err(ApiError::AuthState { step: AuthStep::Request }),
        }
    }

    /// Outcome of the first call: the source issued a short-lived code.
    pub fn on_request_code(&mut self, code: String)
        requires
            old(self).state is Unauthenticated,
        ensures
            final(self).state == (AuthState::RequestIssued { code }),
            final(self).consumer_key == old(self).consumer_key,
    {
        self.state = AuthState::RequestIssued { code };
    }

    /// Outcome of the first call: transport or response failure. The
    /// handshake returns to unauthenticated and the error is surfaced.
    pub fn on_request_failure(&mut self, status: u16) -> (e: ApiError)
        ensures
            final(self).state is Unauthenticated,
            final(self).consumer_key == old(self).consumer_key,
            e matches ApiError::Transport { status: st } && st == status,
    {
        self.state = AuthState::Unauthenticated;
        ApiError::Transport { status }
    }

    /// The second step's authorization page: the issued code embedded into
    /// the URL the operator must visit. Only a freshly issued code may be
    /// shown; out of order it is an authentication-state error.
    pub fn authorize_page(&self) -> (r: Result<String, ApiError>)
        ensures
            r is Ok <==> self.state is RequestIssued,
            self.state matches AuthState::RequestIssued { code } ==> (r matches Ok(u) && u@
                == AUTHORIZE_PAGE_URL@ + "?"@ + form_encoded(
                seq![("request_token"@, code@), ("redirect_uri"@, REDIRECT_URI@)],
            )),
            r matches Err(e) ==> (e matches ApiError::AuthState { step } && step
                == AuthStep::Authorize),
    {
        match &self.state {
            AuthState::RequestIssued { code } => {
                let mut pairs: Vec<(String, String)> = Vec::new();
                pairs.push((String::from_str("request_token"), code.clone()));
                pairs.push((String::from_str("redirect_uri"), String::from_str(REDIRECT_URI)));
                let query = form_urlencode(&pairs);
                proof {
                    assert(pairs@.map_values(|p: (String, String)| (p.0@, p.1@)) =~= seq![
                        ("request_token"@, code@),
                        ("redirect_uri"@, REDIRECT_URI@),
                    ]);
                }
                let mut page = String::from_str(AUTHORIZE_PAGE_URL);
                page.append("?");
                page.append(query.as_str());
                Ok(page)
            },
            _ => Err(ApiError::AuthState { step: AuthStep::Authorize }),
        }
    }

    /// The operator granted access out of band; the handshake may move on
    /// to the token exchange.
    pub fn operator_confirmed(&mut self)
        requires
            old(self).state is RequestIssued,
        ensures
            final(self).state matches AuthState::AuthorizationPending { code } && old(
                self,
            ).state matches AuthState::RequestIssued { code: c0 } && code == c0,
            final(self).consumer_key == old(self).consumer_key,
    {
        match &self.state {
            AuthState::RequestIssued { code } => {
                let c = code.clone();
                self.state = AuthState::AuthorizationPending { code: c };
            },
            _ => {
                proof {
                    assert(false);
                }
            },
        }
    }

    /// The third step's request body: the code is exchanged for a durable
    /// token. Calling it before a code is pending (the authorize step ahead
    /// of the request step) is an authentication-state error and nothing is
    /// sent to the network.
    pub fn authorize_body(&self) -> (r: Result<AuthorizeRequest, ApiError>)
        ensures
            r is Ok <==> self.state is AuthorizationPending,
            r matches Ok(b) ==> (self.state matches AuthState::AuthorizationPending { code }
                && b.code == code && b.consumer_key == self.consumer_key),
            r matches Err(e) ==> (e matches ApiError::AuthState { step } && step
                == AuthStep::Authorize),
    {
        match &self.state {
            AuthState::AuthorizationPending { code } => Ok(
                AuthorizeRequest { consumer_key: self.consumer_key.clone(), code: code.clone() },
            ),
            _ => Err(ApiError::AuthState { step: AuthStep::Authorize }),
        }
    }

    /// Outcome of the third call: the durable access token. Yields the
    /// credential the caller must persist across invocations.
    pub fn on_access_token(&mut self, access_token: String) -> (s: Secrets)
        requires
            old(self).state is AuthorizationPending,
        ensures
            final(self).state == (AuthState::Authenticated { access_token }),
            final(self).consumer_key == old(self).consumer_key,
            s.consumer_key == old(self).consumer_key,
            s.access_token == access_token,
    {
        self.state = AuthState::Authenticated { access_token: access_token.clone() };
        Secrets { consumer_key: self.consumer_key.clone(), access_token }
    }

    /// Outcome of the third call: denied, revoked or failed. The handshake
    /// returns to unauthenticated and the error is surfaced.
    pub fn on_authorize_failure(&mut self, status: u16) -> (e: ApiError)
        ensures
            final(self).state is Unauthenticated,
            final(self).consumer_key == old(self).consumer_key,
            e matches ApiError::Transport { status: st } && st == status,
    {
        self.state = AuthState::Unauthenticated;
        ApiError::Transport { status }
    }
}

} // verus!
