use vstd::prelude::*;
use crate::matcher::PatternError;

verus! {

/// How a matched file is moved; chosen once for a whole run.
#[derive(Clone, Copy, Debug, PartialEq, Eq, Structural)]
pub enum RelocationPolicy {
    /// One rename; fails across devices.
    Rename,
    /// Copy the bytes, then delete the source.
    CopyThenDelete,
}

/// Why one file could not be moved.
#[derive(Clone, Debug)]
pub enum RelocationError {
    /// The rename failed; nothing changed.
    Rename { message: String },
    /// The copy failed; the source is untouched.
    Copy { message: String },
    /// The copy succeeded but the source could not be deleted: the file now
    /// exists twice and needs manual cleanup.
    PartialRelocation { message: String },
}

/// A failure while enumerating a source folder; it ends the whole run.
#[derive(Clone, Debug)]
pub enum ListError {
    ReadDir { folder: String, message: String },
    EntryRead { folder: String, message: String },
    FileType { folder: String, message: String },
}

/// A failure that ends one rule; the run goes on with the next rule.
#[derive(Clone, Debug)]
pub enum RuleError {
    DirectoryCreate { folder: String, message: String },
    Pattern(PatternError),
}

/// One record of what a run did.
#[derive(Debug)]
pub enum Outcome {
    /// The rule's source folder does not exist.
    Warning { folder: String },
    /// The rule could not be set up and was skipped.
    RuleFailed { rule: String, error: RuleError },
    /// One attempt to move a matched file.
    FileAction {
        file_name: String,
        source_folder: String,
        destination_folder: String,
        result: Result<(), RelocationError>,
    },
    /// The end of a rule, with the number of files it moved.
    RuleSummary { rule: String, moved: usize },
}

pub enum RuleErrorView {
    DirectoryCreate { folder: Seq<char>, message: Seq<char> },
    Pattern { pattern: Seq<char>, message: Seq<char> },
}

pub enum OutcomeView {
    Warning { folder: Seq<char> },
    RuleFailed { rule: Seq<char>, error: RuleErrorView },
    FileAction {
        file_name: Seq<char>,
        source_folder: Seq<char>,
        destination_folder: Seq<char>,
        result: Result<(), RelocationError>,
    },
    RuleSummary { rule: Seq<char>, moved: nat },
}

impl View for RuleError {
    type V = RuleErrorView;

    open spec fn view(&self) -> RuleErrorView {
        match self {
            RuleError::DirectoryCreate { folder, message } => RuleErrorView::DirectoryCreate {
                folder: folder@,
                message: message@,
            },
            RuleError::Pattern(e) => RuleErrorView::Pattern {
                pattern: e.pattern@,
                message: e.message@,
            },
        }
    }
}

impl View for Outcome {
    type V = OutcomeView;

    open spec fn view(&self) -> OutcomeView {
        match self {
            Outcome::Warning { folder } => OutcomeView::Warning { folder: folder@ },
            Outcome::RuleFailed { rule, error } => OutcomeView::RuleFailed {
                rule: rule@,
                error: error@,
            },
            Outcome::FileAction { file_name, source_folder, destination_folder, result } =>
                OutcomeView::FileAction {
                file_name: file_name@,
                source_folder: source_folder@,
                destination_folder: destination_folder@,
                result: *result,
            },
            Outcome::RuleSummary { rule, moved } => OutcomeView::RuleSummary {
                rule: rule@,
                moved: *moved as nat,
            },
        }
    }
}

impl RelocationPolicy {
    /// The result of a move under `Rename`, from the result of the rename.
    pub fn rename_result(renamed: Result<(), String>) -> (r: Result<(), RelocationError>)
        ensures
            match renamed {
                Ok(_) => r is Ok,
                Err(m) => r == Err::<(), RelocationError>(RelocationError::Rename { message: m }),
            },
    {
        match renamed {
            Ok(()) => Ok(()),
            Err(message) => Err(RelocationError::Rename { message }),
        }
    }

    /// The result of a move under `CopyThenDelete`. `removed` is the result of
    /// deleting the source, attempted only after a copy that succeeded.
    pub fn copy_then_delete_result(copied: Result<(), String>, removed: Option<Result<(), String>>) -> (r:
        Result<(), RelocationError>)
        requires
            copied is Ok <==> removed is Some,
        ensures
            match (copied, removed) {
                (Err(m), _) => r == Err::<(), RelocationError>(RelocationError::Copy { message: m }),
                (Ok(_), Some(Err(m))) => r == Err::<(), RelocationError>(
                    RelocationError::PartialRelocation { message: m },
                ),
                _ => r is Ok,
            },
    {
        match copied {
            Err(message) => Err(RelocationError::Copy { message }),
            Ok(()) => match removed {
                Some(Err(message)) => Err(RelocationError::PartialRelocation { message }),
                _ => Ok(()),
            },
        }
    }
}

impl RelocationError {
    /// A copy is left behind at the destination while the source remains.
    pub fn leaves_duplicate(&self) -> (r: bool)
        ensures
            r == (self is PartialRelocation),
    {
        match self {
            RelocationError::PartialRelocation { .. } => true,
            _ => false,
        }
    }
}

impl Outcome {
    pub fn is_file_action(&self) -> (r: bool)
        ensures
            r == (self is FileAction),
    {
        match self {
            Outcome::FileAction { .. } => true,
            _ => false,
        }
    }
}

} // verus!
