//! The cache of secondary assets: covers kept in base64 under the URL they
//! came from.

use vstd::prelude::*;

use crate::event::{Blob, BlobView};
use crate::outside::{
    base64_decode, base64_encode, base64_input_limit, base64_standard, base64_standard_decoded,
};
use crate::views::option_view;

verus! {

/// Why the bytes of a cover did not arrive.
#[derive(Debug, PartialEq, Eq)]
pub enum CoverFailure {
    /// The request did not get through.
    Unreachable(String),
    /// The answer's body could not be read.
    Unreadable(String),
}

pub enum CoverFailureView {
    Unreachable(Seq<char>),
    Unreadable(Seq<char>),
}

impl View for CoverFailure {
    type V = CoverFailureView;

    open spec fn view(&self) -> CoverFailureView {
        match self {
            CoverFailure::Unreachable(detail) => CoverFailureView::Unreachable(detail@),
            CoverFailure::Unreadable(detail) => CoverFailureView::Unreadable(detail@),
        }
    }
}

/// Why a blob could not be ensured.
#[derive(Debug, PartialEq, Eq)]
pub enum BlobError {
    /// The store could not say whether the blob exists.
    Lookup(String),
    /// The bytes could not be fetched.
    FetchFailed(String),
    /// The bytes arrived in part only.
    Unreadable(String),
    /// The bytes are more than base64 can take.
    TooLarge,
    /// The store did not take the blob.
    Persist(String),
}

pub enum BlobErrorView {
    Lookup(Seq<char>),
    FetchFailed(Seq<char>),
    Unreadable(Seq<char>),
    TooLarge,
    Persist(Seq<char>),
}

impl View for BlobError {
    type V = BlobErrorView;

    open spec fn view(&self) -> BlobErrorView {
        match self {
            BlobError::Lookup(detail) => BlobErrorView::Lookup(detail@),
            BlobError::FetchFailed(detail) => BlobErrorView::FetchFailed(detail@),
            BlobError::Unreadable(detail) => BlobErrorView::Unreadable(detail@),
            BlobError::TooLarge => BlobErrorView::TooLarge,
            BlobError::Persist(detail) => BlobErrorView::Persist(detail@),
        }
    }
}

/// The blob that keeps `bytes` under `url`.
pub open spec fn blob_of(url: Seq<char>, bytes: Seq<u8>) -> BlobView {
    BlobView { url, data: base64_standard(bytes) }
}

/// What a lookup serves: the bytes of the blob it found, if it found one
/// and the blob's data can be decoded.
pub open spec fn served(found: Result<Option<BlobView>, Seq<char>>) -> Option<Seq<u8>> {
    match found {
        Ok(Some(blob)) => base64_standard_decoded(blob.data),
        _ => None,
    }
}

/// The view of what a lookup found.
pub open spec fn lookup_view(found: Result<Option<Blob>, String>) -> Result<
    Option<BlobView>,
    Seq<char>,
> {
    match found {
        Ok(blob) => Ok(option_view(blob)),
        Err(detail) => Err(detail@),
    }
}

impl Blob {
    /// Keeps `bytes` under `url`.
    pub fn encode(url: String, bytes: &Vec<u8>) -> (blob: Blob)
        requires
            bytes@.len() <= base64_input_limit(),
        ensures
            blob@ == blob_of(url@, bytes@),
    {
        Blob { url, data: base64_encode(bytes.as_slice()) }
    }

    /// The bytes kept, where the data is base64. A blob that `encode` made
    /// gives back the bytes it was made of.
    pub fn decode(&self) -> (bytes: Option<Vec<u8>>)
        ensures
            option_view(bytes) == base64_standard_decoded(self@.data),
            forall|kept: Seq<u8>| #[trigger]
                base64_standard(kept) == self@.data ==> option_view(bytes) == Some(kept),
    {
        match base64_decode(self.data.as_str()) {
            Ok(bytes) => Some(bytes),
            Err(_) => None,
        }
    }
}

/// Answers the lookup of a cover: the bytes of the blob that the store
/// found, or nothing where it found none, failed, or holds data that is no
/// base64.
pub fn get_cover(found: Result<Option<Blob>, String>) -> (body: Option<Vec<u8>>)
    ensures
        option_view(body) == served(lookup_view(found)),
        forall|url: Seq<char>, kept: Seq<u8>|
            lookup_view(found) == Ok::<Option<BlobView>, Seq<char>>(
                Some(#[trigger] blob_of(url, kept)),
            ) ==> option_view(body) == Some(kept),
{
    match found {
        Ok(Some(blob)) => blob.decode(),
        _ => None,
    }
}

} // verus!
