//! The bearer credential and the single-value cache that holds it.
//!
//! The cache keeps one credential. A host stores the cache's persisted form
//! in a file of its own and hands it back at the next start; reading and
//! writing the file, and the lock that orders readers and writers, are the
//! host's.

use vstd::prelude::*;
use vstd::string::*;

use crate::text::equal;

verus! {

/// The secret that authorizes requests.
#[derive(Debug, PartialEq, Eq)]
pub struct Credential {
    pub access_token: String,
}

pub struct CredentialView {
    pub access_token: Seq<char>,
}

impl View for Credential {
    type V = CredentialView;

    open spec fn view(&self) -> CredentialView {
        CredentialView { access_token: self.access_token@ }
    }
}

impl Clone for Credential {
    fn clone(&self) -> (copy: Self)
        ensures
            copy@ == self@,
    {
        Credential { access_token: self.access_token.clone() }
    }
}

impl Default for Credential {
    /// The credential of a cache that was never written: an empty token.
    fn default() -> (credential: Self)
        ensures
            credential@ == CredentialView::blank(),
    {
        Credential { access_token: String::new() }
    }
}

impl CredentialView {
    pub open spec fn blank() -> CredentialView {
        CredentialView { access_token: Seq::empty() }
    }
}

/// The persisted form could not be read back.
#[derive(Clone, Copy, Debug, PartialEq, Eq, Structural)]
pub enum CacheLoadError {
    /// The text does not begin with the key of the token.
    Corrupt,
}

/// The key that opens the persisted form.
pub open spec fn token_key() -> Seq<char> {
    "access_token="@
}

/// The persisted form of a credential: the key, then the token as it is.
pub open spec fn persisted_form(credential: CredentialView) -> Seq<char> {
    token_key() + credential.access_token
}

/// The credential that a persisted form holds, if it is one.
pub open spec fn parsed_form(text: Seq<char>) -> Option<CredentialView> {
    if token_key().is_prefix_of(text) {
        Some(CredentialView { access_token: text.skip(token_key().len() as int) })
    } else {
        None
    }
}

/// What a cache holds after loading: the default when nothing was persisted,
/// otherwise what the persisted text holds.
pub open spec fn loaded(persisted: Option<Seq<char>>) -> Option<CredentialView> {
    match persisted {
        None => Some(CredentialView::blank()),
        Some(text) => parsed_form(text),
    }
}

/// Every credential is read back from its persisted form as it was.
pub proof fn persisted_form_round_trips(credential: CredentialView)
    ensures
        parsed_form(persisted_form(credential)) == Some(credential),
        loaded(Some(persisted_form(credential))) == Some(credential),
{
    let text = persisted_form(credential);
    assert(text.subrange(0, token_key().len() as int) =~= token_key());
    assert(text.skip(token_key().len() as int) =~= credential.access_token);
}

impl Credential {
    /// The text to persist for this credential.
    pub fn persisted(&self) -> (text: String)
        ensures
            text@ == persisted_form(self@),
    {
        let mut text = String::from_str("access_token=");
        text.append(self.access_token.as_str());
        text
    }

    /// Reads a credential back from its persisted form.
    pub fn parse(text: &str) -> (outcome: Result<Credential, CacheLoadError>)
        ensures
            match outcome {
                Ok(credential) => parsed_form(text@) == Some(credential@),
                Err(_) => parsed_form(text@) is None,
            },
    {
        proof {
            reveal_strlit("access_token=");
        }
        let key = "access_token=";
        let key_len: usize = 13;
        let len: usize = text.unicode_len();
        if len < key_len {
            return Err(CacheLoadError::Corrupt);
        }
        let head = text.substring_char(0, key_len);
        if equal(head, key) {
            let token = text.substring_char(key_len, len);
            Ok(Credential { access_token: token.to_owned() })
        } else {
            Err(CacheLoadError::Corrupt)
        }
    }
}

/// A cache for exactly one credential.
///
/// A shared reference reads it and a unique reference changes it, so no
/// reader ever sees a credential half written.
#[derive(Debug, PartialEq, Eq)]
pub struct CredentialCache {
    current: Credential,
}

impl View for CredentialCache {
    type V = CredentialView;

    closed spec fn view(&self) -> CredentialView {
        self.current@
    }
}

impl CredentialCache {
    /// The credential held, as a value.
    pub closed spec fn held(&self) -> Credential {
        self.current
    }

    /// What `held` and the view have to do with one another.
    pub proof fn held_is_viewed(&self)
        ensures
            self.held()@ == self@,
    {
    }

    /// Builds the cache from what a host found persisted: nothing, or the
    /// text that an earlier cache gave it to keep.
    pub fn load(persisted: Option<&str>) -> (outcome: Result<CredentialCache, CacheLoadError>)
        ensures
            match outcome {
                Ok(cache) => loaded(persisted.deep_view()) == Some(cache@),
                Err(_) => loaded(persisted.deep_view()) is None,
            },
    {
        match persisted {
            None => Ok(CredentialCache { current: Credential::default() }),
            Some(text) => {
                match Credential::parse(text) {
                    Ok(credential) => Ok(CredentialCache { current: credential }),
                    Err(error) => Err(error),
                }
            },
        }
    }

    /// A copy of the credential held.
    pub fn get(&self) -> (credential: Credential)
        ensures
            credential@ == self@,
    {
        self.current.clone()
    }

    /// The text a host persists for this cache.
    pub fn persisted(&self) -> (text: String)
        ensures
            text@ == persisted_form(self@),
    {
        self.current.persisted()
    }

    /// Replaces the credential by what `change` makes of it, and returns the
    /// text to persist for the new one.
    pub fn modify<F: FnOnce(Credential) -> Credential>(&mut self, change: F) -> (text: String)
        requires
            change.requires((old(self).held(),)),
        ensures
            change.ensures((old(self).held(),), final(self).held()),
            text@ == persisted_form(final(self)@),
    {
        let mut taken = Credential::default();
        core::mem::swap(&mut self.current, &mut taken);
        self.current = change(taken);
        self.current.persisted()
    }
}

} // verus!
