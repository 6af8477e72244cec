//! The one action the dispatcher asks of the platform: a check run that
//! reports a commit's status. This module says what is sent; sending it is the
//! caller's part.

use crate::event::{text_of, Repository, RepositoryView};
use vstd::prelude::*;
use vstd::string::StringExecFns;

verus! {

/// How far a check run has come.
#[derive(Clone, Copy, Debug, PartialEq, Eq, Structural)]
pub enum CheckRunStatus {
    Queued,
    InProgress,
    Completed,
}

/// How a completed check run ended.
#[derive(Clone, Copy, Debug, PartialEq, Eq, Structural)]
pub enum CheckRunConclusion {
    Success,
    Failure,
    Neutral,
    Cancelled,
    TimedOut,
    Skipped,
    Stale,
    ActionRequired,
}

/// How grave an annotation is.
#[derive(Clone, Copy, Debug, PartialEq, Eq, Structural)]
pub enum CheckRunOutputAnnotationLevel {
    Notice,
    Warning,
    Failure,
}

/// A remark on some lines of a file.
#[derive(Clone, Debug, PartialEq, Eq)]
pub struct CheckRunOutputAnnotation {
    pub path: String,
    pub start_line: u32,
    pub end_line: u32,
    pub start_column: Option<u32>,
    pub end_column: Option<u32>,
    pub annotation_level: CheckRunOutputAnnotationLevel,
    pub message: String,
    pub title: Option<String>,
    pub raw_details: Option<String>,
}

/// An annotation as its texts.
pub struct CheckRunOutputAnnotationView {
    pub path: Seq<char>,
    pub start_line: u32,
    pub end_line: u32,
    pub start_column: Option<u32>,
    pub end_column: Option<u32>,
    pub annotation_level: CheckRunOutputAnnotationLevel,
    pub message: Seq<char>,
    pub title: Option<Seq<char>>,
    pub raw_details: Option<Seq<char>>,
}

impl View for CheckRunOutputAnnotation {
    type V = CheckRunOutputAnnotationView;

    open spec fn view(&self) -> CheckRunOutputAnnotationView {
        CheckRunOutputAnnotationView {
            path: self.path@,
            start_line: self.start_line,
            end_line: self.end_line,
            start_column: self.start_column,
            end_column: self.end_column,
            annotation_level: self.annotation_level,
            message: self.message@,
            title: text_of(self.title),
            raw_details: text_of(self.raw_details),
        }
    }
}

/// What a check run shows to its reader.
#[derive(Clone, Debug, PartialEq, Eq)]
pub struct CheckRunOutput {
    pub title: String,
    pub summary: String,
    pub text: Option<String>,
    pub annotations: Vec<CheckRunOutputAnnotation>,
}

/// An output as its texts.
pub struct CheckRunOutputView {
    pub title: Seq<char>,
    pub summary: Seq<char>,
    pub text: Option<Seq<char>>,
    pub annotations: Seq<CheckRunOutputAnnotationView>,
}

impl View for CheckRunOutput {
    type V = CheckRunOutputView;

    open spec fn view(&self) -> CheckRunOutputView {
        CheckRunOutputView {
            title: self.title@,
            summary: self.summary@,
            text: text_of(self.text),
            annotations: Seq::new(self.annotations@.len(), |i: int| self.annotations@[i]@),
        }
    }
}

/// A check run to be created: where, for which commit, and what it says.
#[derive(Clone, Debug, PartialEq, Eq)]
pub struct CheckRun {
    pub owner: String,
    pub repo: String,
    pub name: String,
    pub head_sha: String,
    pub details_url: String,
    pub external_id: String,
    pub status: CheckRunStatus,
    pub conclusion: CheckRunConclusion,
    pub output: CheckRunOutput,
}

/// A check run as its texts.
pub struct CheckRunView {
    pub owner: Seq<char>,
    pub repo: Seq<char>,
    pub name: Seq<char>,
    pub head_sha: Seq<char>,
    pub details_url: Seq<char>,
    pub external_id: Seq<char>,
    pub status: CheckRunStatus,
    pub conclusion: CheckRunConclusion,
    pub output: CheckRunOutputView,
}

impl View for CheckRun {
    type V = CheckRunView;

    open spec fn view(&self) -> CheckRunView {
        CheckRunView {
            owner: self.owner@,
            repo: self.repo@,
            name: self.name@,
            head_sha: self.head_sha@,
            details_url: self.details_url@,
            external_id: self.external_id@,
            status: self.status,
            conclusion: self.conclusion,
            output: self.output@,
        }
    }
}

/// Why no commit status came about.
#[derive(Clone, Debug, PartialEq, Eq)]
pub enum GitHubActionError {
    /// The repository names no owner, so it cannot be addressed.
    MissingOwner,
    /// The platform did not create the check run; `message` is what it said.
    Octocrab { message: String },
}

/// The one annotation that every commit status carries.
pub open spec fn status_annotation() -> CheckRunOutputAnnotationView {
    CheckRunOutputAnnotationView {
        path: "Cargo.toml"@,
        start_line: 5,
        end_line: 5,
        start_column: Some(8u32),
        end_column: Some(12u32),
        annotation_level: CheckRunOutputAnnotationLevel::Warning,
        message: "Is this **markdown**? insert meme here"@,
        title: Some("invalid rule"@),
        raw_details: Some("`yada` yada?"@),
    }
}

/// What every commit status shows.
pub open spec fn status_output() -> CheckRunOutputView {
    CheckRunOutputView {
        title: "my title"@,
        summary: "this **worked** right?\n"@,
        text: Some(
            "# github yada\n\n> [!CAUTION]\n> Advises about risks or negative outcomes of certain actions.\n"@,
        ),
        annotations: seq![status_annotation()],
    }
}

/// The check run that reports the status of commit `sha` in the repository
/// `repo` of `owner`: a completed, successful run under a fixed name with a
/// fixed output.
pub open spec fn status_check_run(owner: Seq<char>, repo: Seq<char>, sha: Seq<char>) -> CheckRunView {
    CheckRunView {
        owner,
        repo,
        name: "my-check"@,
        head_sha: sha,
        details_url: "https://54aa-91-118-110-130.ngrok-free.app/1234"@,
        external_id: "1234"@,
        status: CheckRunStatus::Completed,
        conclusion: CheckRunConclusion::Success,
        output: status_output(),
    }
}

/// What asking for a commit status for `sha` in `repository` comes to: the
/// check run to create, or the reason why none can be.
pub open spec fn commit_status(repository: RepositoryView, sha: Seq<char>) -> Result<
    CheckRunView,
    GitHubActionError,
> {
    match repository.owner {
        None => Err(GitHubActionError::MissingOwner),
        Some(owner) => Ok(status_check_run(owner, repository.name, sha)),
    }
}

fn status_output_of() -> (output: CheckRunOutput)
    ensures
        output@ == status_output(),
{
    let annotation = CheckRunOutputAnnotation {
        path: String::from_str("Cargo.toml"),
        start_line: 5,
        end_line: 5,
        start_column: Some(8),
        end_column: Some(12),
        annotation_level: CheckRunOutputAnnotationLevel::Warning,
        message: String::from_str("Is this **markdown**? insert meme here"),
        title: Some(String::from_str("invalid rule")),
        raw_details: Some(String::from_str("`yada` yada?")),
    };
    let mut annotations: Vec<CheckRunOutputAnnotation> = Vec::new();
    annotations.push(annotation);
    let output = CheckRunOutput {
        title: String::from_str("my title"),
        summary: String::from_str("this **worked** right?\n"),
        text: Some(
            String::from_str(
                "# github yada\n\n> [!CAUTION]\n> Advises about risks or negative outcomes of certain actions.\n",
            ),
        ),
        annotations,
    };
    assert(output@.annotations =~= seq![status_annotation()]);
    output
}

/// Says which check run has to be created to report the status of commit
/// `sha` in `repository`. A repository without an owner cannot be addressed.
pub fn create_commit_status(repository: &Repository, sha: &str) -> (planned: Result<
    CheckRun,
    GitHubActionError,
>)
    ensures
        match planned {
            Ok(run) => commit_status(repository@, sha@) == Ok::<CheckRunView, GitHubActionError>(
                run@,
            ),
            Err(error) => commit_status(repository@, sha@) == Err::<
                CheckRunView,
                GitHubActionError,
            >(error),
        },
{
    match &repository.owner {
        None => Err(GitHubActionError::MissingOwner),
        Some(owner) => Ok(
            CheckRun {
                owner: owner.clone(),
                repo: repository.name.clone(),
                name: String::from_str("my-check"),
                head_sha: String::from_str(sha),
                details_url: String::from_str("https://54aa-91-118-110-130.ngrok-free.app/1234"),
                external_id: String::from_str("1234"),
                status: CheckRunStatus::Completed,
                conclusion: CheckRunConclusion::Success,
                output: status_output_of(),
            },
        ),
    }
}

} // verus!
