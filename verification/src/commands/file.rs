//! The commands on objects that decide more than which request to send.

use vstd::prelude::*;
use crate::r2::client::R2Client;
use crate::r2::keys::{as_folder, folder_key, lemma_as_folder_closed};
use crate::r2::wire::{Request, RequestView};

verus! {

/// The request that makes the folder `path` visible in `bucket`: an object
/// without content whose key is `path` closed by the delimiter.
pub open spec fn folder_request(bucket: Seq<char>, path: Seq<char>) -> RequestView {
    RequestView::PutObject { bucket: bucket, key: as_folder(path), body: Seq::<u8>::empty() }
}

/// A folder is created under one key, whether its path is given with the
/// delimiter at its end or without it, and the object stored has no content.
pub proof fn lemma_folder_request_closed(bucket: Seq<char>, path: Seq<char>)
    ensures
        folder_request(bucket, path) == folder_request(bucket, as_folder(path)),
        folder_request(bucket, path)->PutObject_key == as_folder(path),
        folder_request(bucket, path)->PutObject_body.len() == 0,
{
    lemma_as_folder_closed(path);
}

/// The request that makes the folder `path` visible in `bucket_name`.
pub fn create_folder(client: &R2Client, bucket_name: &str, path: &str) -> (r: Request)
    ensures
        r@ == folder_request(bucket_name@, path@),
{
    let key = folder_key(path);
    client.put_object_request(bucket_name, key.as_str(), Vec::new())
}

} // verus!
