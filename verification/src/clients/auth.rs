//! The service that issues tokens: what is asked of it and what its answers mean.

use vstd::prelude::*;
use crate::clients::http::join4;
use crate::clients::http::service_error;
use crate::clients::http::service_failure;
use crate::clients::http::ApiReply;
use crate::clients::http::ApiRequest;
use crate::clients::http::ApiRequestView;
use crate::clients::http::HttpMethod;
use crate::domain::models::clone_text;
use crate::error::AppError;
use crate::error::Failure;
use crate::ids::hyphenated;
use crate::ids::id_text;

verus! {

/// The client of the token service.
#[derive(Debug)]
pub struct AuthClient {
    /// Where the token service is reached.
    pub base_url: String,
    /// The key that one service shows to another, where one is configured.
    pub internal_api_key: Option<String>,
}

/// The client of the token service as the contracts see it.
pub struct AuthClientView {
    pub base_url: Seq<char>,
    pub internal_api_key: Option<Seq<char>>,
}

impl View for AuthClient {
    type V = AuthClientView;

    open spec fn view(&self) -> AuthClientView {
        AuthClientView {
            base_url: self.base_url@,
            internal_api_key: self.internal_api_key.deep_view(),
        }
    }
}

impl Clone for AuthClient {
    fn clone(&self) -> (r: Self)
        ensures
            r@ == self@,
    {
        AuthClient {
            base_url: self.base_url.clone(),
            internal_api_key: clone_text(&self.internal_api_key),
        }
    }
}

/// What the token service answers.
#[derive(Debug)]
pub struct OAuthTokenResponse {
    pub access_token: String,
    pub token_type: Option<String>,
    pub expires_at: Option<String>,
}

impl AuthClientView {
    /// The address at which the token of `provider` for the user is asked for.
    pub open spec fn token_url(self, provider: Seq<char>, user_id: u128) -> Seq<char> {
        self.base_url + "/api/auth/internal/tokens/"@ + provider + "?user_id="@ + hyphenated(user_id)
    }

    /// The request for the token of `provider` for the user: it shows the key of the
    /// client where the client has one.
    pub open spec fn token_request(self, provider: Seq<char>, user_id: u128) -> ApiRequestView {
        ApiRequestView {
            method: HttpMethod::Get,
            url: self.token_url(provider, user_id),
            headers: match self.internal_api_key {
                Some(key) => seq![("X-Internal-Api-Key"@, key)],
                None => Seq::empty(),
            },
        }
    }
}

/// What the answer of the token service comes to: the token, or the failure of the
/// service.
pub open spec fn token_of(reply: ApiReply<OAuthTokenResponse>) -> Result<Seq<char>, Failure> {
    match reply {
        ApiReply::Unreachable(why) => Err(
            service_failure("Auth service request failed: "@ + why@),
        ),
        ApiReply::Rejected { status, body, .. } => Err(
            service_failure("Auth service returned "@ + status@ + ": "@ + body@),
        ),
        ApiReply::Garbled(why) => Err(service_failure("Failed to parse auth response: "@ + why@)),
        ApiReply::Accepted(answer) => Ok(answer.access_token@),
    }
}

impl AuthClient {
    /// A client that shows no key.
    pub fn new(base_url: String) -> (r: Self)
        ensures
            r@ == (AuthClientView { base_url: base_url@, internal_api_key: None }),
    {
        AuthClient { base_url, internal_api_key: None }
    }

    /// A client that shows `api_key` with each request, where there is one.
    pub fn with_api_key(base_url: String, api_key: Option<String>) -> (r: Self)
        ensures
            r@ == (AuthClientView {
                base_url: base_url@,
                internal_api_key: api_key.deep_view(),
            }),
    {
        AuthClient { base_url, internal_api_key: api_key }
    }

    /// The request for the token of `provider` for the user.
    pub fn token_request(&self, provider: &str, user_id: u128) -> (r: ApiRequest)
        ensures
            r@ == self@.token_request(provider@, user_id),
    {
        let id = id_text(user_id);
        let url = join4(self.base_url.as_str(), "/api/auth/internal/tokens/", provider, "?user_id=").concat(
            id.as_str(),
        );
        let mut headers: Vec<(String, String)> = Vec::new();
        match &self.internal_api_key {
            Some(key) => {
                headers.push((String::from_str("X-Internal-Api-Key"), key.clone()));
                assert(headers.deep_view() =~= seq![("X-Internal-Api-Key"@, key@)]);
            },
            None => {
                assert(headers.deep_view() =~= Seq::empty());
            },
        }
        ApiRequest { method: HttpMethod::Get, url, headers }
    }

    /// The token that the service has issued, read from its answer. An answer that is no
    /// success, or that cannot be read, is a failure of the service, and so is a request
    /// that could not be carried out.
    pub fn get_oauth_token(reply: ApiReply<OAuthTokenResponse>) -> (r: Result<String, AppError>)
        ensures
            match r {
                Ok(token) => token_of(reply) == Ok::<Seq<char>, Failure>(token@),
                Err(e) => token_of(reply) == Err::<Seq<char>, Failure>(e@),
            },
    {
        match reply {
            ApiReply::Unreachable(why) => Err(
                service_error("Auth service request failed: ", why.as_str()),
            ),
            ApiReply::Rejected { status, body, .. } => {
                let lead = join4("Auth service returned ", status.as_str(), ": ", body.as_str());
                Err(AppError::ExternalService(lead))
            },
            ApiReply::Garbled(why) => Err(
                service_error("Failed to parse auth response: ", why.as_str()),
            ),
            ApiReply::Accepted(answer) => Ok(answer.access_token),
        }
    }
}

} // verus!
