//! How an audio download ends, and how that is worded for the caller.

use vstd::prelude::*;
use crate::provision::{ProvisionError, ProvisionErrorModel};
use crate::text::join2;

verus! {

/// How a run of the extractor went wrong.
#[derive(Debug, PartialEq, Eq)]
pub enum ProcessFailure {
    /// The program could not be started; the system's account of it.
    NotStarted(String),
    /// The program ran and exited with a non-zero code; what it wrote to its
    /// standard error stream.
    Failed(String),
}

/// The mathematical content of a [`ProcessFailure`].
pub enum ProcessFailureModel {
    NotStarted(Seq<char>),
    Failed(Seq<char>),
}

impl View for ProcessFailure {
    type V = ProcessFailureModel;

    open spec fn view(&self) -> ProcessFailureModel {
        match self {
            ProcessFailure::NotStarted(d) => ProcessFailureModel::NotStarted(d@),
            ProcessFailure::Failed(d) => ProcessFailureModel::Failed(d@),
        }
    }
}

impl ProcessFailure {
    /// A copy of this failure.
    pub fn duplicate(&self) -> (copy: ProcessFailure)
        ensures
            copy@ == self@,
    {
        match self {
            ProcessFailure::NotStarted(d) => ProcessFailure::NotStarted(d.clone()),
            ProcessFailure::Failed(d) => ProcessFailure::Failed(d.clone()),
        }
    }
}

/// Why a download did not produce a file.
#[derive(Debug, PartialEq, Eq)]
pub enum DownloadError {
    /// The URL names none of the accepted hosts.
    InvalidInput,
    /// The extractor could not be provisioned.
    Provision(ProvisionError),
    /// The title of the video could not be fetched.
    Metadata(ProcessFailure),
    /// The extraction itself failed.
    Execution(ProcessFailure),
}

/// The mathematical content of a [`DownloadError`].
pub enum DownloadErrorModel {
    InvalidInput,
    Provision(ProvisionErrorModel),
    Metadata(ProcessFailureModel),
    Execution(ProcessFailureModel),
}

impl View for DownloadError {
    type V = DownloadErrorModel;

    open spec fn view(&self) -> DownloadErrorModel {
        match self {
            DownloadError::InvalidInput => DownloadErrorModel::InvalidInput,
            DownloadError::Provision(e) => DownloadErrorModel::Provision(e@),
            DownloadError::Metadata(f) => DownloadErrorModel::Metadata(f@),
            DownloadError::Execution(f) => DownloadErrorModel::Execution(f@),
        }
    }
}

impl DownloadError {
    /// A copy of this error.
    pub fn duplicate(&self) -> (copy: DownloadError)
        ensures
            copy@ == self@,
    {
        match self {
            DownloadError::InvalidInput => DownloadError::InvalidInput,
            DownloadError::Provision(e) => DownloadError::Provision(e.duplicate()),
            DownloadError::Metadata(f) => DownloadError::Metadata(f.duplicate()),
            DownloadError::Execution(f) => DownloadError::Execution(f.duplicate()),
        }
    }
}

/// How a download ended.
#[derive(Debug, PartialEq, Eq)]
pub enum Outcome {
    /// The audio was saved; the directory that the user chose.
    Saved(String),
    /// The user dismissed the save dialog.
    Canceled,
    /// The download failed.
    Failed(DownloadError),
}

/// The mathematical content of an [`Outcome`].
pub enum OutcomeModel {
    Saved(Seq<char>),
    Canceled,
    Failed(DownloadErrorModel),
}

impl View for Outcome {
    type V = OutcomeModel;

    open spec fn view(&self) -> OutcomeModel {
        match self {
            Outcome::Saved(d) => OutcomeModel::Saved(d@),
            Outcome::Canceled => OutcomeModel::Canceled,
            Outcome::Failed(e) => OutcomeModel::Failed(e@),
        }
    }
}

/// The one line that tells the caller how the download ended.
pub open spec fn outcome_message(outcome: OutcomeModel) -> Seq<char> {
    match outcome {
        OutcomeModel::Saved(directory) => "Ok: path="@ + directory,
        OutcomeModel::Canceled => "canceled"@,
        OutcomeModel::Failed(DownloadErrorModel::InvalidInput) => "invalid URL"@,
        OutcomeModel::Failed(DownloadErrorModel::Provision(e)) => "Error ensuring yt-dlp: "@
            + e.detail,
        OutcomeModel::Failed(DownloadErrorModel::Metadata(ProcessFailureModel::NotStarted(d))) =>
            "Error: Failed to execute yt-dlp: "@ + d,
        OutcomeModel::Failed(DownloadErrorModel::Metadata(ProcessFailureModel::Failed(d))) =>
            "Error: yt-dlp failed to get title: "@ + d,
        OutcomeModel::Failed(DownloadErrorModel::Execution(ProcessFailureModel::NotStarted(d))) =>
            "Error: Failed to run yt-dlp: "@ + d,
        OutcomeModel::Failed(DownloadErrorModel::Execution(ProcessFailureModel::Failed(d))) =>
            "Error: yt-dlp failed: "@ + d,
    }
}

impl Outcome {
    /// A copy of this outcome.
    pub fn duplicate(&self) -> (copy: Outcome)
        ensures
            copy@ == self@,
    {
        match self {
            Outcome::Saved(d) => Outcome::Saved(d.clone()),
            Outcome::Canceled => Outcome::Canceled,
            Outcome::Failed(e) => Outcome::Failed(e.duplicate()),
        }
    }

    /// The one line that tells the caller how the download ended.
    pub fn message(&self) -> (line: String)
        ensures
            line@ == outcome_message(self@),
    {
        match self {
            Outcome::Saved(directory) => join2("Ok: path=", directory.as_str()),
            Outcome::Canceled => "canceled".to_string(),
            Outcome::Failed(DownloadError::InvalidInput) => "invalid URL".to_string(),
            Outcome::Failed(DownloadError::Provision(e)) => join2(
                "Error ensuring yt-dlp: ",
                e.detail.as_str(),
            ),
            Outcome::Failed(DownloadError::Metadata(ProcessFailure::NotStarted(d))) => join2(
                "Error: Failed to execute yt-dlp: ",
                d.as_str(),
            ),
            Outcome::Failed(DownloadError::Metadata(ProcessFailure::Failed(d))) => join2(
                "Error: yt-dlp failed to get title: ",
                d.as_str(),
            ),
            Outcome::Failed(DownloadError::Execution(ProcessFailure::NotStarted(d))) => join2(
                "Error: Failed to run yt-dlp: ",
                d.as_str(),
            ),
            Outcome::Failed(DownloadError::Execution(ProcessFailure::Failed(d))) => join2(
                "Error: yt-dlp failed: ",
                d.as_str(),
            ),
        }
    }
}

} // verus!
