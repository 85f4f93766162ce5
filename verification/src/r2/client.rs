//! The client of one account: where it connects, which request each
//! operation sends, and what each reply means.
//!
//! Every operation comes in two halves. The first names the request; the
//! caller sends it and hands the store's answer to the second, which turns it
//! into the operation's result. A failed exchange is handed over as the text
//! of the failure.

use vstd::prelude::*;
use vstd::string::*;
use aws_sdk_s3::presigning::PresigningConfig;
use crate::r2::keys::{as_folder, folder_key, lemma_as_folder_closed, DELIMITER};
use crate::r2::listing::{list_page, listing};
use crate::r2::sdk::{config_life, presign_refusal, presigning_config, MAX_PRESIGN_SECONDS};
use crate::r2::types::{BucketInfo, BucketInfoView, ObjectInfo, R2Error, R2ErrorView};
use crate::r2::wire::{ListObjectsPage, RemoteBucket, RemoteBucketView, Request, RequestView};

verus! {

/// The region named to the store, which routes by endpoint alone.
pub const REGION: &'static str = "auto";

/// The name under which the client presents its credentials.
pub const CREDENTIALS_PROVIDER: &'static str = "r2-explorer";

/// The endpoint of an account's store.
pub open spec fn endpoint_url(account_id: Seq<char>) -> Seq<char> {
    "https://"@ + account_id + ".r2.cloudflarestorage.com"@
}

/// The client of one account. It holds what a transport needs to reach the
/// account's store: the endpoint and the static credentials.
pub struct R2Client {
    account_id: String,
    endpoint: String,
    access_key_id: String,
    secret_access_key: String,
}

/// An `R2Client` as mathematical values.
pub struct R2ClientView {
    pub account_id: Seq<char>,
    pub endpoint: Seq<char>,
    pub access_key_id: Seq<char>,
    pub secret_access_key: Seq<char>,
}

impl View for R2Client {
    type V = R2ClientView;

    closed spec fn view(&self) -> R2ClientView {
        R2ClientView {
            account_id: self.account_id@,
            endpoint: self.endpoint@,
            access_key_id: self.access_key_id@,
            secret_access_key: self.secret_access_key@,
        }
    }
}

/// The buckets of a reply, a missing name read as the empty name.
pub open spec fn bucket_infos(buckets: Seq<RemoteBucketView>) -> Seq<BucketInfoView> {
    buckets.map_values(
        |b: RemoteBucketView|
            BucketInfoView {
                name: match b.name {
                    Some(n) => n,
                    None => Seq::empty(),
                },
                creation_date: b.creation_date,
            },
    )
}

/// The prefix that a listing sends: none for a missing or empty prefix, else
/// the prefix closed by the delimiter, so that it matches whole folders only.
pub open spec fn listing_prefix(prefix: Option<Seq<char>>) -> Option<Seq<char>> {
    match prefix {
        Some(p) => if p.len() == 0 {
            None
        } else {
            Some(as_folder(p))
        },
        None => None,
    }
}

/// The request of a listing of `bucket` below `prefix`.
pub open spec fn listing_request(bucket: Seq<char>, prefix: Option<Seq<char>>) -> RequestView {
    RequestView::ListObjects {
        bucket: bucket,
        delimiter: seq![DELIMITER],
        prefix: listing_prefix(prefix),
    }
}

/// The request that deletes `keys` from `bucket`: none where there is no
/// key, else one batch with all of them.
pub open spec fn batch_delete_request(bucket: Seq<char>, keys: Seq<Seq<char>>) -> Option<
    RequestView,
> {
    if keys.len() == 0 {
        None
    } else {
        Some(RequestView::DeleteObjects { bucket: bucket, keys: keys })
    }
}

/// The request of a URL that reads `key` for `expires_in` seconds.
pub open spec fn presign_request(
    bucket: Seq<char>,
    key: Seq<char>,
    expires_in: nat,
) -> RequestView {
    RequestView::PresignGetObject { bucket: bucket, key: key, expires_in: expires_in }
}

/// A listing below a prefix that is not empty sends one and the same
/// request, whether the prefix is given with the delimiter at its end or
/// without it: the prefix sent is the closed one.
pub proof fn lemma_listing_prefix_closed(bucket: Seq<char>, prefix: Seq<char>)
    requires
        prefix.len() > 0,
    ensures
        listing_request(bucket, Some(prefix)) == listing_request(bucket, Some(as_folder(prefix))),
        listing_prefix(Some(prefix)) == Some(as_folder(prefix)),
{
    lemma_as_folder_closed(prefix);
}

/// Deleting no key sends nothing.
pub proof fn lemma_empty_batch_sends_nothing(bucket: Seq<char>)
    ensures
        batch_delete_request(bucket, Seq::<Seq<char>>::empty()) is None,
{
}

/// Requests for URLs of one key with different lifetimes differ: each
/// carries its own lifetime.
pub proof fn lemma_presign_request_keeps_expiry(
    bucket: Seq<char>,
    key: Seq<char>,
    first: nat,
    second: nat,
)
    requires
        first != second,
    ensures
        presign_request(bucket, key, first) != presign_request(bucket, key, second),
        presign_request(bucket, key, first)->PresignGetObject_expires_in == first,
        presign_request(bucket, key, second)->PresignGetObject_expires_in == second,
{
}

impl R2Client {
    /// The endpoint is always the one of the account.
    #[verifier::type_invariant]
    spec fn endpoint_is_of_account(self) -> bool {
        self.endpoint@ == endpoint_url(self.account_id@)
    }

    /// A client for the account `account_id` with the given static
    /// credentials. Nothing is contacted, and it always succeeds.
    pub fn new(account_id: &str, access_key_id: &str, secret_access_key: &str) -> (r: Result<
        R2Client,
        R2Error,
    >)
        ensures
            r is Ok,
            r->Ok_0@ == (R2ClientView {
                account_id: account_id@,
                endpoint: endpoint_url(account_id@),
                access_key_id: access_key_id@,
                secret_access_key: secret_access_key@,
            }),
    {
        let endpoint = String::from_str("https://").concat(account_id).concat(
            ".r2.cloudflarestorage.com",
        );
        Ok(
            R2Client {
                account_id: String::from_str(account_id),
                endpoint,
                access_key_id: String::from_str(access_key_id),
                secret_access_key: String::from_str(secret_access_key),
            },
        )
    }

    /// The account that the client serves.
    pub fn account_id(&self) -> (r: &str)
        ensures
            r@ == self@.account_id,
    {
        self.account_id.as_str()
    }

    /// The URL at which the store is reached: that of the account.
    pub fn endpoint(&self) -> (r: &str)
        ensures
            r@ == self@.endpoint,
            r@ == endpoint_url(self@.account_id),
    {
        proof {
            use_type_invariant(self);
        }
        self.endpoint.as_str()
    }

    /// The public half of the credentials.
    pub fn access_key_id(&self) -> (r: &str)
        ensures
            r@ == self@.access_key_id,
    {
        self.access_key_id.as_str()
    }

    /// The private half of the credentials.
    pub fn secret_access_key(&self) -> (r: &str)
        ensures
            r@ == self@.secret_access_key,
    {
        self.secret_access_key.as_str()
    }

    /// Whether the bucket is named in the path of the URL rather than in its
    /// host. The store is addressed by path only.
    pub fn force_path_style(&self) -> (r: bool)
        ensures
            r,
    {
        true
    }

    /// The request that lists the account's buckets.
    pub fn list_buckets_request(&self) -> (r: Request)
        ensures
            r@ == RequestView::ListBuckets,
    {
        Request::ListBuckets
    }

    /// The buckets that the store reported, in its order; a failure becomes
    /// an `SdkError` with the failure's text.
    pub fn list_buckets(&self, reply: Result<Vec<RemoteBucket>, String>) -> (r: Result<
        Vec<BucketInfo>,
        R2Error,
    >)
        ensures
            match r {
                Ok(buckets) => reply is Ok && buckets.deep_view() == bucket_infos(
                    reply->Ok_0.deep_view(),
                ),
                Err(e) => reply is Err && e@ == R2ErrorView::SdkError(reply->Err_0@),
            },
    {
        match reply {
            Err(text) => Err(R2Error::SdkError(text)),
            Ok(remote) => {
                let mut buckets: Vec<BucketInfo> = Vec::new();
                let mut i: usize = 0;
                while i < remote.len()
                    invariant
                        i <= remote.len(),
                        buckets.len() == i,
                        forall|k: int|
                            0 <= k < i ==> (#[trigger] buckets[k])@ == bucket_infos(
                                remote.deep_view(),
                            )[k],
                    decreases remote.len() - i,
                {
                    let bucket = &remote[i];
                    let info = BucketInfo {
                        name: match &bucket.name {
                            Some(n) => n.clone(),
                            None => String::new(),
                        },
                        creation_date: match &bucket.creation_date {
                            Some(d) => Some(d.clone()),
                            None => None,
                        },
                    };
                    buckets.push(info);
                    i += 1;
                }
                Ok(buckets)
            },
        }
    }

    /// The request that creates the bucket `bucket_name`.
    pub fn create_bucket_request(&self, bucket_name: &str) -> (r: Request)
        ensures
            r@ == (RequestView::CreateBucket { bucket: bucket_name@ }),
    {
        Request::CreateBucket { bucket: String::from_str(bucket_name) }
    }

    /// Success for success; a failure, such as a name already taken, becomes
    /// an `SdkError` with the failure's text.
    pub fn create_bucket(&self, reply: Result<(), String>) -> (r: Result<(), R2Error>)
        ensures
            match r {
                Ok(()) => reply is Ok,
                Err(e) => reply is Err && e@ == R2ErrorView::SdkError(reply->Err_0@),
            },
    {
        match reply {
            Ok(()) => Ok(()),
            Err(text) => Err(R2Error::SdkError(text)),
        }
    }

    /// The request that deletes the bucket `bucket_name`.
    pub fn delete_bucket_request(&self, bucket_name: &str) -> (r: Request)
        ensures
            r@ == (RequestView::DeleteBucket { bucket: bucket_name@ }),
    {
        Request::DeleteBucket { bucket: String::from_str(bucket_name) }
    }

    /// Success for success; a failure, such as a bucket that still holds
    /// objects, becomes an `SdkError` with the failure's text.
    pub fn delete_bucket(&self, reply: Result<(), String>) -> (r: Result<(), R2Error>)
        ensures
            match r {
                Ok(()) => reply is Ok,
                Err(e) => reply is Err && e@ == R2ErrorView::SdkError(reply->Err_0@),
            },
    {
        match reply {
            Ok(()) => Ok(()),
            Err(text) => Err(R2Error::SdkError(text)),
        }
    }

    /// The request that probes for the bucket `bucket_name`.
    pub fn get_bucket_info_request(&self, bucket_name: &str) -> (r: Request)
        ensures
            r@ == (RequestView::HeadBucket { bucket: bucket_name@ }),
    {
        Request::HeadBucket { bucket: String::from_str(bucket_name) }
    }

    /// The bucket under its name and without a creation date, which the
    /// probe does not carry, where the probe succeeded; any failure of the
    /// probe becomes `BucketNotFound` with the failure's text.
    pub fn get_bucket_info(&self, bucket_name: &str, reply: Result<(), String>) -> (r: Result<
        BucketInfo,
        R2Error,
    >)
        ensures
            match r {
                Ok(info) => reply is Ok && info@ == (BucketInfoView {
                    name: bucket_name@,
                    creation_date: None,
                }),
                Err(e) => reply is Err && e@ == R2ErrorView::BucketNotFound(reply->Err_0@),
            },
    {
        match reply {
            Ok(()) => Ok(BucketInfo { name: String::from_str(bucket_name), creation_date: None }),
            Err(text) => Err(R2Error::BucketNotFound(text)),
        }
    }

    /// The request that lists one level of `bucket_name`: grouped at the
    /// delimiter, below `prefix` where one is given and not empty.
    pub fn list_objects_request(&self, bucket_name: &str, prefix: Option<&str>) -> (r: Request)
        ensures
            r@ == listing_request(bucket_name@, prefix.deep_view()),
    {
        let sent: Option<String> = match prefix {
            Some(p) => if p.is_empty() {
                None
            } else {
                Some(folder_key(p))
            },
            None => None,
        };
        proof {
            reveal_strlit("/");
            assert("/"@ =~= seq![DELIMITER]);
        }
        Request::ListObjects {
            bucket: String::from_str(bucket_name),
            delimiter: String::from_str("/"),
            prefix: sent,
        }
    }

    /// The lines of the page that the store reported, folders first; a
    /// failure becomes an `SdkError` with the failure's text.
    pub fn list_objects(&self, reply: Result<ListObjectsPage, String>) -> (r: Result<
        Vec<ObjectInfo>,
        R2Error,
    >)
        ensures
            match r {
                Ok(objects) => reply is Ok && objects.deep_view() == listing(reply->Ok_0@),
                Err(e) => reply is Err && e@ == R2ErrorView::SdkError(reply->Err_0@),
            },
    {
        match reply {
            Ok(page) => Ok(list_page(&page)),
            Err(text) => Err(R2Error::SdkError(text)),
        }
    }

    /// The request that stores `data` under `key`, in one piece.
    pub fn put_object_request(&self, bucket_name: &str, key: &str, data: Vec<u8>) -> (r: Request)
        ensures
            r@ == (RequestView::PutObject { bucket: bucket_name@, key: key@, body: data@ }),
    {
        Request::PutObject {
            bucket: String::from_str(bucket_name),
            key: String::from_str(key),
            body: data,
        }
    }

    /// Success for success; a failure becomes an `SdkError` with the
    /// failure's text.
    pub fn put_object(&self, reply: Result<(), String>) -> (r: Result<(), R2Error>)
        ensures
            match r {
                Ok(()) => reply is Ok,
                Err(e) => reply is Err && e@ == R2ErrorView::SdkError(reply->Err_0@),
            },
    {
        match reply {
            Ok(()) => Ok(()),
            Err(text) => Err(R2Error::SdkError(text)),
        }
    }

    /// The request that fetches the object under `key`.
    pub fn get_object_request(&self, bucket_name: &str, key: &str) -> (r: Request)
        ensures
            r@ == (RequestView::GetObject { bucket: bucket_name@, key: key@ }),
    {
        Request::GetObject { bucket: String::from_str(bucket_name), key: String::from_str(key) }
    }

    /// The bytes that the store sent, all of them; a failure, of the request
    /// or while the body was read, becomes an `SdkError` with the failure's
    /// text.
    pub fn get_object(&self, reply: Result<Vec<u8>, String>) -> (r: Result<Vec<u8>, R2Error>)
        ensures
            match r {
                Ok(data) => reply is Ok && data@ == reply->Ok_0@,
                Err(e) => reply is Err && e@ == R2ErrorView::SdkError(reply->Err_0@),
            },
    {
        match reply {
            Ok(data) => Ok(data),
            Err(text) => Err(R2Error::SdkError(text)),
        }
    }

    /// The request that deletes the object under `key`.
    pub fn delete_object_request(&self, bucket_name: &str, key: &str) -> (r: Request)
        ensures
            r@ == (RequestView::DeleteObject { bucket: bucket_name@, key: key@ }),
    {
        Request::DeleteObject { bucket: String::from_str(bucket_name), key: String::from_str(key) }
    }

    /// Success for success; a failure becomes an `SdkError` with the
    /// failure's text.
    pub fn delete_object(&self, reply: Result<(), String>) -> (r: Result<(), R2Error>)
        ensures
            match r {
                Ok(()) => reply is Ok,
                Err(e) => reply is Err && e@ == R2ErrorView::SdkError(reply->Err_0@),
            },
    {
        match reply {
            Ok(()) => Ok(()),
            Err(text) => Err(R2Error::SdkError(text)),
        }
    }

    /// The request that deletes all of `keys` in one batch, or none at all
    /// where `keys` is empty: then there is nothing to send.
    pub fn delete_objects_request(&self, bucket_name: &str, keys: &[String]) -> (r: Option<
        Request,
    >)
        ensures
            r.deep_view() == batch_delete_request(bucket_name@, keys.deep_view()),
            r is None <==> keys@.len() == 0,
    {
        if keys.len() == 0 {
            return None;
        }
        let mut batch: Vec<String> = Vec::new();
        let mut i: usize = 0;
        while i < keys.len()
            invariant
                i <= keys.len(),
                batch.len() == i,
                forall|k: int| 0 <= k < i ==> (#[trigger] batch[k])@ == keys[k]@,
            decreases keys.len() - i,
        {
            batch.push(keys[i].clone());
            i += 1;
        }
        assert(batch.deep_view() =~= keys.deep_view());
        Some(Request::DeleteObjects { bucket: String::from_str(bucket_name), keys: batch })
    }

    /// Success where nothing had to be sent (`reply` is `None`) and where
    /// the batch went through as a whole; a failure becomes an `SdkError`
    /// with the failure's text.
    pub fn delete_objects(&self, reply: Option<Result<(), String>>) -> (r: Result<(), R2Error>)
        ensures
            match r {
                Ok(()) => reply is None || reply->0 is Ok,
                Err(e) => reply is Some && reply->0 is Err && e@ == R2ErrorView::SdkError(
                    reply->0->Err_0@,
                ),
            },
    {
        match reply {
            None => Ok(()),
            Some(Ok(())) => Ok(()),
            Some(Err(text)) => Err(R2Error::SdkError(text)),
        }
    }

    /// The request for a URL that reads `key` and stays good for
    /// `expires_in` seconds, with the signer's configuration for exactly
    /// that life. A life of more than `MAX_PRESIGN_SECONDS` is refused by
    /// the signer, as an `SdkError` with the signer's text, and no other is.
    pub fn get_presigned_url_request(&self, bucket_name: &str, key: &str, expires_in: u64) -> (r:
        Result<(Request, PresigningConfig), R2Error>)
        ensures
            match r {
                Ok(signing) => {
                    &&& expires_in <= MAX_PRESIGN_SECONDS
                    &&& signing.0@ == presign_request(bucket_name@, key@, expires_in as nat)
                    &&& config_life(signing.1) == expires_in
                },
                Err(e) => expires_in > MAX_PRESIGN_SECONDS && e@ == R2ErrorView::SdkError(
                    presign_refusal(),
                ),
            },
    {
        match presigning_config(expires_in) {
            Err(text) => Err(R2Error::SdkError(text)),
            Ok(config) => Ok(
                (
                    Request::PresignGetObject {
                        bucket: String::from_str(bucket_name),
                        key: String::from_str(key),
                        expires_in,
                    },
                    config,
                ),
            ),
        }
    }

    /// The signed URL; a failure, such as a time beyond what the signer
    /// allows, becomes an `SdkError` with the failure's text.
    pub fn get_presigned_url(&self, reply: Result<String, String>) -> (r: Result<String, R2Error>)
        ensures
            match r {
                Ok(url) => reply is Ok && url@ == reply->Ok_0@,
                Err(e) => reply is Err && e@ == R2ErrorView::SdkError(reply->Err_0@),
            },
    {
        match reply {
            Ok(url) => Ok(url),
            Err(text) => Err(R2Error::SdkError(text)),
        }
    }
}

} // verus!
