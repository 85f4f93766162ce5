//! What travels between this crate and the store, as plain data: the
//! requests that a caller is asked to send, and what the store answered.

use vstd::prelude::*;

verus! {

/// A request to the store. The caller sends it as it stands.
#[derive(Debug, PartialEq, Eq)]
pub enum Request {
    /// List the buckets of the account.
    ListBuckets,
    /// Create a bucket.
    CreateBucket { bucket: String },
    /// Delete a bucket.
    DeleteBucket { bucket: String },
    /// Ask whether a bucket exists, without reading anything of it.
    HeadBucket { bucket: String },
    /// List one level of a bucket: the keys that begin with `prefix`, those
    /// that hold `delimiter` behind the prefix grouped by what they share up
    /// to it.
    ListObjects { bucket: String, delimiter: String, prefix: Option<String> },
    /// Store `body` under `key`, whole.
    PutObject { bucket: String, key: String, body: Vec<u8> },
    /// Fetch the object under `key`, whole.
    GetObject { bucket: String, key: String },
    /// Delete the object under `key`.
    DeleteObject { bucket: String, key: String },
    /// Delete the objects under `keys` in one batch.
    DeleteObjects { bucket: String, keys: Vec<String> },
    /// Sign a URL that lets its holder read `key` for `expires_in` seconds.
    /// Nothing is sent to the store.
    PresignGetObject { bucket: String, key: String, expires_in: u64 },
}

/// A `Request` as mathematical values.
pub enum RequestView {
    ListBuckets,
    CreateBucket { bucket: Seq<char> },
    DeleteBucket { bucket: Seq<char> },
    HeadBucket { bucket: Seq<char> },
    ListObjects { bucket: Seq<char>, delimiter: Seq<char>, prefix: Option<Seq<char>> },
    PutObject { bucket: Seq<char>, key: Seq<char>, body: Seq<u8> },
    GetObject { bucket: Seq<char>, key: Seq<char> },
    DeleteObject { bucket: Seq<char>, key: Seq<char> },
    DeleteObjects { bucket: Seq<char>, keys: Seq<Seq<char>> },
    PresignGetObject { bucket: Seq<char>, key: Seq<char>, expires_in: nat },
}

impl View for Request {
    type V = RequestView;

    open spec fn view(&self) -> RequestView {
        match self {
            Request::ListBuckets => RequestView::ListBuckets,
            Request::CreateBucket { bucket } => RequestView::CreateBucket { bucket: bucket@ },
            Request::DeleteBucket { bucket } => RequestView::DeleteBucket { bucket: bucket@ },
            Request::HeadBucket { bucket } => RequestView::HeadBucket { bucket: bucket@ },
            Request::ListObjects { bucket, delimiter, prefix } => RequestView::ListObjects {
                bucket: bucket@,
                delimiter: delimiter@,
                prefix: prefix.deep_view(),
            },
            Request::PutObject { bucket, key, body } => RequestView::PutObject {
                bucket: bucket@,
                key: key@,
                body: body@,
            },
            Request::GetObject { bucket, key } => RequestView::GetObject {
                bucket: bucket@,
                key: key@,
            },
            Request::DeleteObject { bucket, key } => RequestView::DeleteObject {
                bucket: bucket@,
                key: key@,
            },
            Request::DeleteObjects { bucket, keys } => RequestView::DeleteObjects {
                bucket: bucket@,
                keys: keys.deep_view(),
            },
            Request::PresignGetObject { bucket, key, expires_in } => RequestView::PresignGetObject {
                bucket: bucket@,
                key: key@,
                expires_in: *expires_in as nat,
            },
        }
    }
}

impl DeepView for Request {
    type V = RequestView;

    open spec fn deep_view(&self) -> RequestView {
        self@
    }
}

/// A bucket as the store reports it.
#[derive(Debug, PartialEq, Eq)]
pub struct RemoteBucket {
    pub name: Option<String>,
    pub creation_date: Option<String>,
}

/// A `RemoteBucket` as mathematical values.
pub struct RemoteBucketView {
    pub name: Option<Seq<char>>,
    pub creation_date: Option<Seq<char>>,
}

impl View for RemoteBucket {
    type V = RemoteBucketView;

    open spec fn view(&self) -> RemoteBucketView {
        RemoteBucketView {
            name: self.name.deep_view(),
            creation_date: self.creation_date.deep_view(),
        }
    }
}

impl DeepView for RemoteBucket {
    type V = RemoteBucketView;

    open spec fn deep_view(&self) -> RemoteBucketView {
        self@
    }
}

/// An object as the store reports it in a listing.
#[derive(Debug, PartialEq, Eq)]
pub struct RemoteObject {
    pub key: Option<String>,
    pub size: Option<i64>,
    pub last_modified: Option<String>,
    pub e_tag: Option<String>,
}

/// A `RemoteObject` as mathematical values.
pub struct RemoteObjectView {
    pub key: Option<Seq<char>>,
    pub size: Option<int>,
    pub last_modified: Option<Seq<char>>,
    pub e_tag: Option<Seq<char>>,
}

impl View for RemoteObject {
    type V = RemoteObjectView;

    open spec fn view(&self) -> RemoteObjectView {
        RemoteObjectView {
            key: self.key.deep_view(),
            size: match self.size {
                Some(n) => Some(n as int),
                None => None,
            },
            last_modified: self.last_modified.deep_view(),
            e_tag: self.e_tag.deep_view(),
        }
    }
}

impl DeepView for RemoteObject {
    type V = RemoteObjectView;

    open spec fn deep_view(&self) -> RemoteObjectView {
        self@
    }
}

/// One page of a delimited listing, as the store reports it.
#[derive(Debug, PartialEq, Eq)]
pub struct ListObjectsPage {
    /// One entry for each group of keys that share a prefix up to the
    /// delimiter; the store may leave the prefix of an entry out.
    pub common_prefixes: Vec<Option<String>>,
    /// The objects directly at this level.
    pub contents: Vec<RemoteObject>,
}

/// A `ListObjectsPage` as mathematical values.
pub struct ListObjectsPageView {
    pub common_prefixes: Seq<Option<Seq<char>>>,
    pub contents: Seq<RemoteObjectView>,
}

impl View for ListObjectsPage {
    type V = ListObjectsPageView;

    open spec fn view(&self) -> ListObjectsPageView {
        ListObjectsPageView {
            common_prefixes: self.common_prefixes.deep_view(),
            contents: self.contents.deep_view(),
        }
    }
}

} // verus!
