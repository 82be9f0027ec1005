//! Where a repository's snapshot is fetched from, and how the answer to the
//! request is judged.

use vstd::prelude::*;
use vstd::string::*;
use crate::reference::{Host, HostModel, Repo, RepoModel};
use crate::text::{decimal_of, push_decimal};

verus! {

/// The container format of a provider's snapshot.
#[derive(Debug, Clone, Copy, PartialEq, Eq)]
pub enum ArchiveFormat {
    /// A gzip-compressed tar stream.
    TarGz,
    /// A zip file, which cannot be unpacked as a stream.
    Zip,
}

/// Why a snapshot could not be materialized.
#[derive(Debug, Clone, Copy, PartialEq, Eq)]
pub enum MaterializeError {
    /// The provider answered with status 401.
    RepositoryNotFound,
    /// The provider answered with a status other than 200 and 401.
    UnexpectedStatus(u16),
    /// The request could not be made, or the stream could not be opened.
    TransportError,
    /// The snapshot comes in a format other than gzip-compressed tar.
    UnsupportedArchiveFormat,
}

/// How progress can be shown while the snapshot streams in.
#[derive(Debug, Clone, Copy, PartialEq, Eq)]
pub enum ProgressMode {
    /// The total size in bytes is known.
    Determinate(u64),
    /// The total size is unknown.
    Indeterminate,
}

/// The address of the snapshot of a repository's default branch.
pub open spec fn archive_url_of(repo: RepoModel) -> Seq<char> {
    match repo.host {
        HostModel::Github => "https://github.com/"@ + repo.owner + "/"@ + repo.project
            + "/archive/HEAD.tar.gz"@,
        HostModel::Gitlab(domain) => "https://"@ + domain + "/"@ + repo.owner + "/"@
            + repo.project + "/repository/archive.tar.gz"@,
        HostModel::BitBucket => "https://bitbucket.org/"@ + repo.owner + "/"@ + repo.project
            + "/get/HEAD.zip"@,
    }
}

/// Builds the address of the snapshot of a repository's default branch.
pub fn archive_url(repo: &Repo) -> (url: String)
    ensures
        url@ == archive_url_of(repo@),
{
    let mut url = match &repo.host {
        Host::Github => String::from_str("https://github.com/"),
        Host::Gitlab(domain) => {
            let mut prefix = String::from_str("https://");
            prefix.append(domain.as_str());
            prefix.append("/");
            prefix
        },
        Host::BitBucket => String::from_str("https://bitbucket.org/"),
    };
    url.append(repo.owner.as_str());
    url.append("/");
    url.append(repo.project.as_str());
    match &repo.host {
        Host::Github => url.append("/archive/HEAD.tar.gz"),
        Host::Gitlab(_) => url.append("/repository/archive.tar.gz"),
        Host::BitBucket => url.append("/get/HEAD.zip"),
    }
    url
}

/// The format in which a provider serves its snapshots.
pub open spec fn format_of(host: HostModel) -> ArchiveFormat {
    match host {
        HostModel::BitBucket => ArchiveFormat::Zip,
        _ => ArchiveFormat::TarGz,
    }
}

/// The format in which a provider serves its snapshots.
pub fn archive_format(host: &Host) -> (f: ArchiveFormat)
    ensures
        f == format_of(host@),
{
    match host {
        Host::BitBucket => ArchiveFormat::Zip,
        _ => ArchiveFormat::TarGz,
    }
}

/// How a response status is judged: 200 lets the transfer proceed, 401 means
/// that the repository was not found, any other status is reported as it is.
pub open spec fn status_verdict(status: u16) -> Result<(), MaterializeError> {
    if status == 200 {
        Ok(())
    } else if status == 401 {
        Err(MaterializeError::RepositoryNotFound)
    } else {
        Err(MaterializeError::UnexpectedStatus(status))
    }
}

/// Judges the status of the provider's response.
pub fn check_status(status: u16) -> (r: Result<(), MaterializeError>)
    ensures
        r == status_verdict(status),
{
    if status == 200 {
        Ok(())
    } else if status == 401 {
        Err(MaterializeError::RepositoryNotFound)
    } else {
        Err(MaterializeError::UnexpectedStatus(status))
    }
}

/// The progress display that fits a response: determinate exactly when the
/// response declares its length.
pub open spec fn progress_for(content_length: Option<u64>) -> ProgressMode {
    match content_length {
        Some(total) => ProgressMode::Determinate(total),
        None => ProgressMode::Indeterminate,
    }
}

/// Chooses the progress display for a response.
pub fn progress_mode(content_length: Option<u64>) -> (m: ProgressMode)
    ensures
        m == progress_for(content_length),
{
    match content_length {
        Some(total) => ProgressMode::Determinate(total),
        None => ProgressMode::Indeterminate,
    }
}

impl MaterializeError {
    /// The message shown for this error; an unexpected status is written out
    /// in base ten.
    pub open spec fn message_text(self) -> Seq<char> {
        match self {
            MaterializeError::RepositoryNotFound => "Could not find repository."@,
            MaterializeError::UnexpectedStatus(status) => "Received response status: "@
                + decimal_of(status as nat),
            MaterializeError::TransportError => "Could not reach the repository."@,
            MaterializeError::UnsupportedArchiveFormat => "Archive format is not supported."@,
        }
    }

    /// The message shown for this error.
    pub fn message(&self) -> (r: String)
        ensures
            r@ == self.message_text(),
    {
        match self {
            MaterializeError::RepositoryNotFound => String::from_str("Could not find repository."),
            MaterializeError::UnexpectedStatus(status) => {
                let mut text = String::from_str("Received response status: ");
                push_decimal(&mut text, *status);
                text
            },
            MaterializeError::TransportError => String::from_str(
                "Could not reach the repository.",
            ),
            MaterializeError::UnsupportedArchiveFormat => String::from_str(
                "Archive format is not supported.",
            ),
        }
    }
}

} // verus!
