//! Renewing the credential: the request of the refresh-token grant, and what
//! its answer does to the cache.

use vstd::prelude::*;
use vstd::string::*;

use crate::credential::{persisted_form, Credential, CredentialView};
use crate::outside::{base64_encode, base64_standard};
use crate::plugin::{ConfigView, Plugin, PluginView};
use crate::views::result_view;

verus! {

/// The request of the refresh-token grant.
#[derive(Debug, PartialEq, Eq)]
pub struct TokenRequest {
    pub url: String,
    pub content_type: String,
    pub authorization: String,
    pub body: String,
}

pub struct TokenRequestView {
    pub url: Seq<char>,
    pub content_type: Seq<char>,
    pub authorization: Seq<char>,
    pub body: Seq<char>,
}

impl View for TokenRequest {
    type V = TokenRequestView;

    open spec fn view(&self) -> TokenRequestView {
        TokenRequestView {
            url: self.url@,
            content_type: self.content_type@,
            authorization: self.authorization@,
            body: self.body@,
        }
    }
}

/// The grant request of a configuration: Basic authentication with the
/// client's pair in base64, and the refresh token in a form body.
pub open spec fn token_request_for(config: ConfigView) -> TokenRequestView {
    TokenRequestView {
        url: "https://accounts.spotify.com/api/token"@,
        content_type: "application/x-www-form-urlencoded"@,
        authorization: "Basic "@ + base64_standard(
            vstd::utf8::encode_utf8(config.client_pair()),
        ),
        body: "grant_type=refresh_token&refresh_token="@ + config.refresh_token,
    }
}

/// What came back for the grant request.
#[derive(Debug, PartialEq, Eq)]
pub enum TokenReply {
    /// The request did not get through, or its answer could not be read.
    Unreachable(String),
    /// The answer holds no access token.
    Malformed(String),
    /// The answer holds this access token.
    Token(String),
}

pub enum TokenReplyView {
    Unreachable(Seq<char>),
    Malformed(Seq<char>),
    Token(Seq<char>),
}

impl View for TokenReply {
    type V = TokenReplyView;

    open spec fn view(&self) -> TokenReplyView {
        match self {
            TokenReply::Unreachable(detail) => TokenReplyView::Unreachable(detail@),
            TokenReply::Malformed(detail) => TokenReplyView::Malformed(detail@),
            TokenReply::Token(token) => TokenReplyView::Token(token@),
        }
    }
}

/// What a refresh did when it did not fail.
#[derive(Debug, PartialEq, Eq)]
pub enum Refreshed {
    /// The cache holds the new credential; `persist` is the text to keep.
    Stored { persist: String },
    /// The answer was malformed and the cache is as it was. This is worth a
    /// report, not an error: the next unauthorized answer refreshes again.
    Ignored(String),
}

pub enum RefreshedView {
    Stored { persist: Seq<char> },
    Ignored(Seq<char>),
}

impl View for Refreshed {
    type V = RefreshedView;

    open spec fn view(&self) -> RefreshedView {
        match self {
            Refreshed::Stored { persist } => RefreshedView::Stored { persist: persist@ },
            Refreshed::Ignored(detail) => RefreshedView::Ignored(detail@),
        }
    }
}

/// Why a refresh failed.
#[derive(Debug, PartialEq, Eq)]
pub enum RefreshError {
    /// The grant request did not get through.
    Transport(String),
    /// The new credential could not be persisted.
    CacheWrite(String),
}

pub enum RefreshErrorView {
    Transport(Seq<char>),
    CacheWrite(Seq<char>),
}

impl View for RefreshError {
    type V = RefreshErrorView;

    open spec fn view(&self) -> RefreshErrorView {
        match self {
            RefreshError::Transport(detail) => RefreshErrorView::Transport(detail@),
            RefreshError::CacheWrite(detail) => RefreshErrorView::CacheWrite(detail@),
        }
    }
}

/// The plugin after the answer to a grant request: only a token changes it,
/// and only its credential.
pub open spec fn plugin_after_refresh(plugin: PluginView, reply: TokenReplyView) -> PluginView {
    match reply {
        TokenReplyView::Token(token) => PluginView {
            config: plugin.config,
            credential: CredentialView { access_token: token },
        },
        _ => plugin,
    }
}

/// What the answer to a grant request comes to.
pub open spec fn refreshed(reply: TokenReplyView) -> Result<RefreshedView, RefreshErrorView> {
    match reply {
        TokenReplyView::Unreachable(detail) => Err(RefreshErrorView::Transport(detail)),
        TokenReplyView::Malformed(detail) => Ok(RefreshedView::Ignored(detail)),
        TokenReplyView::Token(token) => Ok(
            RefreshedView::Stored {
                persist: persisted_form(CredentialView { access_token: token }),
            },
        ),
    }
}

/// The Basic authorization that carries a client's pair, given the pair in
/// base64.
pub fn basic_authorization(encoded_pair: &str) -> (authorization: String)
    ensures
        authorization@ == "Basic "@ + encoded_pair@,
{
    let mut authorization = String::from_str("Basic ");
    authorization.append(encoded_pair);
    authorization
}

impl Plugin {
    /// The request that asks for a new credential.
    pub fn token_request(&self) -> (request: TokenRequest)
        requires
            self.wf(),
        ensures
            request@ == token_request_for(self@.config),
    {
        proof {
            self.view_of_fields();
        }
        let pair = self.config.client_pair();
        let encoded = base64_encode(pair.as_str().as_bytes());
        let authorization = basic_authorization(encoded.as_str());
        let mut body = String::from_str("grant_type=refresh_token&refresh_token=");
        body.append(self.config.refresh_token.as_str());
        TokenRequest {
            url: String::from_str("https://accounts.spotify.com/api/token"),
            content_type: String::from_str("application/x-www-form-urlencoded"),
            authorization,
            body,
        }
    }

    /// Takes the answer to the grant request: a token replaces the cached
    /// credential, anything else leaves the cache as it was.
    pub fn update_access_token(&mut self, reply: TokenReply) -> (outcome: Result<
        Refreshed,
        RefreshError,
    >)
        ensures
            final(self)@ == plugin_after_refresh(old(self)@, reply@),
            result_view(outcome) == refreshed(reply@),
    {
        proof {
            self.view_of_fields();
        }
        match reply {
            TokenReply::Unreachable(detail) => Err(RefreshError::Transport(detail)),
            TokenReply::Malformed(detail) => Ok(Refreshed::Ignored(detail)),
            TokenReply::Token(token) => {
                let ghost fresh = CredentialView { access_token: token@ };
                let change = |held: Credential| -> (next: Credential)
                    ensures
                        next@ == fresh,
                    { Credential { access_token: token } };
                let persist = self.cache.modify(change);
                proof {
                    self.cache.held_is_viewed();
                    self.view_of_fields();
                }
                Ok(Refreshed::Stored { persist })
            },
        }
    }
}

} // verus!
