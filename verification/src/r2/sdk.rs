//! What the client takes from the AWS SDK without sending anything: the
//! signer's configuration for a URL of limited life.
//!
//! Nothing declared here is proved. Each item says what is taken on trust.

use vstd::prelude::*;

verus! {

/// The longest life, in seconds, that the signer gives a URL: one week.
pub const MAX_PRESIGN_SECONDS: u64 = 604_800;

/// `aws_sdk_s3::presigning::PresigningConfig`, carried as it comes.
#[verifier::external_type_specification]
#[verifier::external_body]
pub struct ExPresigningConfig(aws_sdk_s3::presigning::PresigningConfig);

/// The life, in whole seconds, for which a signer's configuration was made:
/// what `PresigningConfig::expires` gives of it.
pub uninterp spec fn config_life(config: aws_sdk_s3::presigning::PresigningConfig) -> nat;

/// What the signer says where it refuses a life of more than one week.
pub open spec fn presign_refusal() -> Seq<char> {
    "`expires_in` must be no longer than one week"@
}

/// `PresigningConfig::expires_in` for a life of `seconds` whole seconds,
/// starting now, with a refusal given as the text that it displays. The SDK
/// refuses a life of more than one week, with the text of `presign_refusal`,
/// and accepts every other; the configuration that it makes is for the life
/// asked for, neither shortened nor rounded.
#[verifier::external_body]
pub(crate) fn presigning_config(seconds: u64) -> (r: Result<
    aws_sdk_s3::presigning::PresigningConfig,
    String,
>)
    ensures
        r is Ok <==> seconds <= MAX_PRESIGN_SECONDS,
        r is Ok ==> config_life(r->Ok_0) == seconds,
        r is Err ==> r->Err_0@ == presign_refusal(),
{
    let life = std::time::Duration::from_secs(seconds);
    match aws_sdk_s3::presigning::PresigningConfig::expires_in(life) {
        Ok(config) => Ok(config),
        Err(refusal) => Err(refusal.to_string()),
    }
}

} // verus!
