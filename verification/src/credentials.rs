//! Presence checks for the credential values that a `send` call needs.
//!
//! The three values (access key id, secret access key, region) are read from
//! the process environment by the caller and handed in as optional strings;
//! the checks themselves are pure, so the tie-break order of the errors can
//! be stated exactly.

use vstd::prelude::*;

verus! {

/// Which required environment value a failed credential check found missing.
#[derive(Clone, Copy, Debug, PartialEq, Eq)]
pub enum Credential {
    AwsAccessKeyId,
    AwsSecretAccessKey,
    AwsRegion,
    All,
}

/// An error this library raises locally, before any network attempt.
#[derive(Clone, Copy, Debug, PartialEq, Eq)]
pub enum Error {
    MissingCredential(Credential),
}

impl Error {
    /// The diagnostic line that names the missing value.
    pub open spec fn spec_message(&self) -> Seq<char> {
        match *self {
            Error::MissingCredential(Credential::AwsRegion) => "AWS_REGION env var is required."@,
            Error::MissingCredential(Credential::AwsAccessKeyId) => "AWS_ACCESS_KEY_ID env var is required."@,
            Error::MissingCredential(Credential::AwsSecretAccessKey) => "AWS_SECRET_ACCESS_KEY env var is required."@,
            Error::MissingCredential(Credential::All) => "AWS_SECRET_ACCESS_KEY, AWS_REGION, AWS_ACCESS_KEY_ID env var is required."@,
        }
    }

    /// Render the error as the diagnostic line that names the missing value.
    pub fn message(&self) -> (r: String)
        ensures
            r@ == self.spec_message(),
    {
        match self {
            Error::MissingCredential(Credential::AwsRegion) => String::from_str(
                "AWS_REGION env var is required.",
            ),
            Error::MissingCredential(Credential::AwsAccessKeyId) => String::from_str(
                "AWS_ACCESS_KEY_ID env var is required.",
            ),
            Error::MissingCredential(Credential::AwsSecretAccessKey) => String::from_str(
                "AWS_SECRET_ACCESS_KEY env var is required.",
            ),
            Error::MissingCredential(Credential::All) => String::from_str(
                "AWS_SECRET_ACCESS_KEY, AWS_REGION, AWS_ACCESS_KEY_ID env var is required.",
            ),
        }
    }
}

/// Check that both key values are present.
///
/// The tie-break order matters for error reporting: a missing secret key is
/// reported only when the access key is present, a missing access key only
/// when the secret key is present, and `All` when both are absent. The
/// region value is checked separately, by `get_aws_region`, and only after
/// this check has passed.
pub fn verify_credentials(access_key: &Option<String>, secret_key: &Option<String>) -> (r: Result<
    (),
    Error,
>)
    ensures
        access_key is Some && secret_key is Some ==> r is Ok,
        access_key is Some && secret_key is None ==> r == Err::<(), Error>(
            Error::MissingCredential(Credential::AwsSecretAccessKey),
        ),
        access_key is None && secret_key is Some ==> r == Err::<(), Error>(
            Error::MissingCredential(Credential::AwsAccessKeyId),
        ),
        access_key is None && secret_key is None ==> r == Err::<(), Error>(
            Error::MissingCredential(Credential::All),
        ),
{
    match (access_key, secret_key) {
        (Some(_), Some(_)) => Ok(()),
        (Some(_), None) => Err(Error::MissingCredential(Credential::AwsSecretAccessKey)),
        (None, Some(_)) => Err(Error::MissingCredential(Credential::AwsAccessKeyId)),
        (None, None) => Err(Error::MissingCredential(Credential::All)),
    }
}

/// Resolve the region value, reporting its absence as `MissingCredential`.
///
/// An unparsable region value is not this function's concern: parsing is
/// owned by the publish client's constructor in the surrounding application.
pub fn get_aws_region(region: Option<String>) -> (r: Result<String, Error>)
    ensures
        region is Some ==> r is Ok && r->Ok_0@ == region->Some_0@,
        region is None ==> r == Err::<String, Error>(
            Error::MissingCredential(Credential::AwsRegion),
        ),
{
    match region {
        Some(name) => Ok(name),
        None => Err(Error::MissingCredential(Credential::AwsRegion)),
    }
}

} // verus!
