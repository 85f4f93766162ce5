//! What a listing shows, and how a storage operation fails.

use vstd::prelude::*;
use vstd::string::*;

verus! {

/// One bucket of the account.
#[derive(Debug, Clone, PartialEq, Eq)]
pub struct BucketInfo {
    /// The bucket's name, unique within the account.
    pub name: String,
    /// When the store says the bucket was created, as the store wrote it.
    pub creation_date: Option<String>,
}

/// A `BucketInfo` as mathematical values.
pub struct BucketInfoView {
    pub name: Seq<char>,
    pub creation_date: Option<Seq<char>>,
}

impl View for BucketInfo {
    type V = BucketInfoView;

    open spec fn view(&self) -> BucketInfoView {
        BucketInfoView { name: self.name@, creation_date: self.creation_date.deep_view() }
    }
}

impl DeepView for BucketInfo {
    type V = BucketInfoView;

    open spec fn deep_view(&self) -> BucketInfoView {
        self@
    }
}

/// One line of a folder listing: a file, or a folder made up from the keys
/// below it.
#[derive(Debug, Clone, PartialEq, Eq)]
pub struct ObjectInfo {
    /// The full key; for a folder, the prefix that its keys share.
    pub key: String,
    /// The last segment of the key.
    pub name: String,
    /// The size in bytes; 0 for a folder.
    pub size: i64,
    /// When the object last changed, as the store wrote it; empty for a folder.
    pub last_modified: String,
    /// Whether the line stands for a folder.
    pub is_folder: bool,
    /// The content fingerprint of a file; a folder has none.
    pub etag: Option<String>,
}

/// An `ObjectInfo` as mathematical values.
pub struct ObjectInfoView {
    pub key: Seq<char>,
    pub name: Seq<char>,
    pub size: int,
    pub last_modified: Seq<char>,
    pub is_folder: bool,
    pub etag: Option<Seq<char>>,
}

impl View for ObjectInfo {
    type V = ObjectInfoView;

    open spec fn view(&self) -> ObjectInfoView {
        ObjectInfoView {
            key: self.key@,
            name: self.name@,
            size: self.size as int,
            last_modified: self.last_modified@,
            is_folder: self.is_folder,
            etag: self.etag.deep_view(),
        }
    }
}

impl DeepView for ObjectInfo {
    type V = ObjectInfoView;

    open spec fn deep_view(&self) -> ObjectInfoView {
        self@
    }
}

/// Why a storage operation failed. Each kind carries the text that the
/// failing party gave.
#[derive(Debug, PartialEq, Eq)]
pub enum R2Error {
    /// The transport or the store refused the request.
    SdkError(String),
    /// The credentials could not be used.
    CredentialsError(String),
    /// The bucket could not be found.
    BucketNotFound(String),
    /// The object could not be found.
    ObjectNotFound(String),
    /// The network failed.
    NetworkError(String),
    /// Anything else.
    Unknown(String),
}

/// An `R2Error` as mathematical values.
pub enum R2ErrorView {
    SdkError(Seq<char>),
    CredentialsError(Seq<char>),
    BucketNotFound(Seq<char>),
    ObjectNotFound(Seq<char>),
    NetworkError(Seq<char>),
    Unknown(Seq<char>),
}

impl View for R2Error {
    type V = R2ErrorView;

    open spec fn view(&self) -> R2ErrorView {
        match self {
            R2Error::SdkError(m) => R2ErrorView::SdkError(m@),
            R2Error::CredentialsError(m) => R2ErrorView::CredentialsError(m@),
            R2Error::BucketNotFound(m) => R2ErrorView::BucketNotFound(m@),
            R2Error::ObjectNotFound(m) => R2ErrorView::ObjectNotFound(m@),
            R2Error::NetworkError(m) => R2ErrorView::NetworkError(m@),
            R2Error::Unknown(m) => R2ErrorView::Unknown(m@),
        }
    }
}

impl R2ErrorView {
    /// The text shown to the user: a label for the kind, then the detail.
    pub open spec fn message(self) -> Seq<char> {
        match self {
            R2ErrorView::SdkError(m) => "AWS SDK 错误: "@ + m,
            R2ErrorView::CredentialsError(m) => "凭证错误: "@ + m,
            R2ErrorView::BucketNotFound(m) => "存储桶不存在: "@ + m,
            R2ErrorView::ObjectNotFound(m) => "对象不存在: "@ + m,
            R2ErrorView::NetworkError(m) => "网络错误: "@ + m,
            R2ErrorView::Unknown(m) => "未知错误: "@ + m,
        }
    }
}

impl R2Error {
    /// The text shown to the user.
    pub fn message(&self) -> (text: String)
        ensures
            text@ == self@.message(),
    {
        match self {
            R2Error::SdkError(m) => String::from_str("AWS SDK 错误: ").concat(m.as_str()),
            R2Error::CredentialsError(m) => String::from_str("凭证错误: ").concat(m.as_str()),
            R2Error::BucketNotFound(m) => String::from_str("存储桶不存在: ").concat(m.as_str()),
            R2Error::ObjectNotFound(m) => String::from_str("对象不存在: ").concat(m.as_str()),
            R2Error::NetworkError(m) => String::from_str("网络错误: ").concat(m.as_str()),
            R2Error::Unknown(m) => String::from_str("未知错误: ").concat(m.as_str()),
        }
    }
}

} // verus!
