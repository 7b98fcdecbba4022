//! The bounded fetch of an auxiliary resource.
//!
//! A fetch runs in two phases, because the size that a server declares is known
//! before any of the body is read. The caller performs the request and reports the
//! response head to [`head_received`], which decides whether the body is read at
//! all. If it is, the caller reads it and reports to [`body_received`], which bounds
//! what is kept. A fetch never fails its caller: whatever goes wrong, the resource
//! comes out empty.

use vstd::prelude::*;

verus! {

/// The largest favicon that is kept, in bytes.
pub const FAVICON_MAX_BYTES: u64 = 4_000_000;

/// The outcome of requesting a resource, before its body is read.
#[derive(Clone, Copy, Debug, PartialEq, Eq)]
pub enum HeadFetch {
    /// No response arrived: the name did not resolve, the connection was refused
    /// or timed out.
    Failed,
    /// A response arrived.
    Response {
        /// Whether the status indicates success.
        success: bool,
        /// The content length that the response declares, if it declares one.
        content_length: Option<u64>,
    },
}

/// The outcome of reading a response body.
#[derive(Clone, Debug, PartialEq, Eq)]
pub enum BodyFetch {
    /// The read broke off.
    Failed,
    /// The bytes that were read.
    Complete(Vec<u8>),
}

/// What a fetch does once the response head is known.
#[derive(Clone, Debug, PartialEq, Eq)]
pub enum FetchStep {
    /// Read the body, at most `limit` bytes of it.
    ReadBody {
        /// The number of bytes after which the read stops.
        limit: u64,
    },
    /// The fetch is over without a body read: the resource is empty.
    Skip,
}

/// Whether the body behind a response head is read: the status is a success and
/// the declared length, if any, is within the bound.
pub open spec fn body_wanted(head: HeadFetch, max_bytes: u64) -> bool {
    match head {
        HeadFetch::Failed => false,
        HeadFetch::Response { success, content_length } => success && match content_length {
            Some(declared) => declared <= max_bytes,
            None => true,
        },
    }
}

/// The part of a body that is kept: all of it when it is within the bound, else
/// its first `max_bytes` bytes.
pub open spec fn bounded(body: Seq<u8>, max_bytes: u64) -> Seq<u8> {
    if body.len() <= max_bytes {
        body
    } else {
        body.take(max_bytes as int)
    }
}

/// The bytes that a fetch yields, given the outcome of the body read.
pub open spec fn kept_bytes(body: BodyFetch, max_bytes: u64) -> Seq<u8> {
    match body {
        BodyFetch::Failed => Seq::empty(),
        BodyFetch::Complete(bytes) => bounded(bytes@, max_bytes),
    }
}

/// The bytes that a bounded fetch yields, given what the request and the read of
/// the body delivered. The read counts only where the body is wanted.
pub open spec fn fetch_bounded(head: HeadFetch, body: BodyFetch, max_bytes: u64) -> Seq<u8> {
    if body_wanted(head, max_bytes) {
        kept_bytes(body, max_bytes)
    } else {
        Seq::empty()
    }
}

/// A bounded fetch never yields more than its bound, and yields nothing of a
/// resource that declares more.
pub proof fn lemma_fetch_is_bounded(head: HeadFetch, body: BodyFetch, max_bytes: u64)
    ensures
        fetch_bounded(head, body, max_bytes).len() <= max_bytes,
        head matches HeadFetch::Response { content_length: Some(declared), .. } && declared
            > max_bytes ==> fetch_bounded(head, body, max_bytes) == Seq::<u8>::empty(),
{
}

/// Decides, from the response head, whether the body is read.
///
/// A response that declares more than `max_bytes` is skipped without a read of
/// its body, as is one whose status is no success and a request that failed.
pub fn head_received(head: HeadFetch, max_bytes: u64) -> (step: FetchStep)
    ensures
        step == if body_wanted(head, max_bytes) {
            (FetchStep::ReadBody { limit: max_bytes })
        } else {
            FetchStep::Skip
        },
        head matches HeadFetch::Response { content_length: Some(declared), .. } && declared
            > max_bytes ==> step == FetchStep::Skip,
{
    match head {
        HeadFetch::Failed => FetchStep::Skip,
        HeadFetch::Response { success, content_length } => {
            let within = match content_length {
                Some(declared) => declared <= max_bytes,
                None => true,
            };
            if success && within {
                FetchStep::ReadBody { limit: max_bytes }
            } else {
                FetchStep::Skip
            }
        },
    }
}

/// Bounds what a body read delivered.
///
/// A read that broke off yields nothing. A body longer than `max_bytes`, from a
/// server that declared less than it sent, is cut to its first `max_bytes` bytes.
pub fn body_received(body: BodyFetch, max_bytes: u64) -> (bytes: Vec<u8>)
    ensures
        bytes@ == kept_bytes(body, max_bytes),
        bytes@.len() <= max_bytes,
{
    match body {
        BodyFetch::Failed => Vec::new(),
        BodyFetch::Complete(mut bytes) => {
            if bytes.len() as u64 > max_bytes {
                bytes.truncate(max_bytes as usize);
            }
            bytes
        },
    }
}

} // verus!
