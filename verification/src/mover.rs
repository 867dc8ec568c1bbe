//! The mover: where an added file goes, and what follows from each step of
//! taking it there.
use vstd::prelude::*;
use crate::category::{category_of, classify, Category};
use crate::error::{error_line, error_text, ErrorKind};
use crate::path::{
    file_name,
    file_name_of,
    join,
    joined,
    lemma_file_name,
    lemma_file_name_of_joined,
};
use crate::watcher::Event;

verus! {

/// The line that reports a move.
pub open spec fn moved_text(source: Seq<char>, destination: Seq<char>) -> Seq<char> {
    "Moved "@ + source + " to "@ + destination
}

/// The line that reports that `source` was moved to `destination`.
pub fn moved_line(source: &str, destination: &str) -> (line: String)
    ensures
        line@ == moved_text(source@, destination@),
{
    let mut line = String::from_str("Moved ");
    line.append(source);
    line.append(" to ");
    line.append(destination);
    line
}

/// The folder under `root` that collects the files of `category`.
pub fn subdirectory_path(root: &str, category: Category) -> (path: String)
    ensures
        path@ == joined(root@, category.folder()),
{
    join(root, category.subdirectory_name())
}

/// The path that the file at `source` has once it is moved into
/// `directory`: it keeps its file name.
pub fn destination_path(source: &str, directory: &str) -> (path: String)
    ensures
        path@ == joined(directory@, file_name_of(source@)),
        file_name_of(path@) == file_name_of(source@),
        category_of(path@) == category_of(source@),
{
    proof {
        lemma_file_name(source@);
        lemma_file_name_of_joined(directory@, file_name_of(source@));
    }
    join(directory, file_name(source))
}

/// How one added file is to be moved.
#[derive(Debug, PartialEq, Eq)]
pub struct MovePlan {
    /// Where the file is.
    pub source: String,
    /// What kind of file it is.
    pub category: Category,
    /// The folder that collects files of that kind.
    pub subdirectory: String,
    /// Where the file goes.
    pub destination: String,
}

impl MovePlan {
    /// Whether this is the plan for the file at `path` in the watched folder
    /// `root`: the file goes into the folder of its category under `root`,
    /// and keeps its file name.
    pub open spec fn fits(&self, root: Seq<char>, path: Seq<char>) -> bool {
        &&& self.source@ == path
        &&& self.category == category_of(path)
        &&& self.subdirectory@ == joined(root, self.category.folder())
        &&& self.destination@ == joined(self.subdirectory@, file_name_of(path))
    }
}

/// The plan for the file that `event` announces, in the watched folder
/// `root`.
pub fn plan_move(root: &str, event: &Event) -> (plan: MovePlan)
    ensures
        plan.fits(root@, event.path()),
        file_name_of(plan.destination@) == file_name_of(event.path()),
        category_of(plan.destination@) == plan.category,
{
    let source = event.file_path();
    let category = classify(source);
    let subdirectory = subdirectory_path(root, category);
    let destination = destination_path(source, subdirectory.as_str());
    MovePlan { source: String::from_str(source), category, subdirectory, destination }
}

/// How a step of a move ended.
#[derive(Clone, Copy, Debug, PartialEq, Eq, Structural)]
pub enum Outcome {
    /// It was carried out.
    Done,
    /// There was nothing to do: what was to be created exists.
    AlreadyExists,
    /// It could not be carried out.
    Failed,
}

/// The line that ends the handling of one file.
#[derive(Debug, PartialEq, Eq)]
pub struct Report {
    /// `None` for a move that was made; else the kind of failure.
    pub failure: Option<ErrorKind>,
    /// The line to print: to the output for a move that was made, to the
    /// error stream for a failure.
    pub line: String,
}

/// What is to be done next for one file.
#[derive(Debug, PartialEq, Eq)]
pub enum Step {
    /// Create the folder of the plan, unless it exists.
    CreateSubdirectory,
    /// Rename the source of the plan to its destination.
    Rename,
    /// Nothing more: print the report and go on with the next file.
    Finished(Report),
}

/// A step, with its report as text.
pub enum StepView {
    CreateSubdirectory,
    Rename,
    Finished { failure: Option<ErrorKind>, line: Seq<char> },
}

impl View for Step {
    type V = StepView;

    open spec fn view(&self) -> StepView {
        match self {
            Step::CreateSubdirectory => StepView::CreateSubdirectory,
            Step::Rename => StepView::Rename,
            Step::Finished(report) => StepView::Finished {
                failure: report.failure,
                line: report.line@,
            },
        }
    }
}

impl MovePlan {
    /// The step that follows `step` once it ended in `outcome`, for the
    /// reason `cause` where it failed. The file is renamed only once its
    /// folder is there; a failure of either step ends the handling of this
    /// file with a report of the failure; a rename that was made ends it
    /// with the report of the move.
    pub open spec fn after(
        &self,
        step: StepView,
        outcome: Outcome,
        cause: Seq<char>,
    ) -> StepView {
        match step {
            StepView::CreateSubdirectory => if outcome == Outcome::Failed {
                StepView::Finished {
                    failure: Some(ErrorKind::SubdirectoryCreate),
                    line: error_text(ErrorKind::SubdirectoryCreate, self.subdirectory@, cause),
                }
            } else {
                StepView::Rename
            },
            StepView::Rename => if outcome == Outcome::Done {
                StepView::Finished {
                    failure: None,
                    line: moved_text(self.source@, self.destination@),
                }
            } else {
                StepView::Finished {
                    failure: Some(ErrorKind::Move),
                    line: error_text(ErrorKind::Move, self.source@, cause),
                }
            },
            StepView::Finished { failure, line } => step,
        }
    }

    /// The first step of every move.
    pub fn first_step(&self) -> (step: Step)
        ensures
            step@ == StepView::CreateSubdirectory,
    {
        Step::CreateSubdirectory
    }

    /// The step that follows `step` once it ended in `outcome`, for the
    /// reason `cause` where it failed.
    pub fn advance(&self, step: Step, outcome: Outcome, cause: &str) -> (next: Step)
        ensures
            next@ == self.after(step@, outcome, cause@),
    {
        match step {
            Step::CreateSubdirectory => match outcome {
                Outcome::Failed => Step::Finished(
                    Report {
                        failure: Some(ErrorKind::SubdirectoryCreate),
                        line: error_line(
                            ErrorKind::SubdirectoryCreate,
                            self.subdirectory.as_str(),
                            cause,
                        ),
                    },
                ),
                _ => Step::Rename,
            },
            Step::Rename => match outcome {
                Outcome::Done => Step::Finished(
                    Report {
                        failure: None,
                        line: moved_line(self.source.as_str(), self.destination.as_str()),
                    },
                ),
                _ => Step::Finished(
                    Report {
                        failure: Some(ErrorKind::Move),
                        line: error_line(ErrorKind::Move, self.source.as_str(), cause),
                    },
                ),
            },
            Step::Finished(report) => Step::Finished(report),
        }
    }
}

/// Every move ends after two steps at most, whatever their outcomes, and a
/// file is reported as moved only where both steps were carried out.
pub proof fn lemma_two_steps_finish(
    plan: MovePlan,
    first: Outcome,
    first_cause: Seq<char>,
    second: Outcome,
    second_cause: Seq<char>,
)
    ensures
        plan.after(
            plan.after(StepView::CreateSubdirectory, first, first_cause),
            second,
            second_cause,
        ) is Finished,
        plan.after(
            plan.after(StepView::CreateSubdirectory, first, first_cause),
            second,
            second_cause,
        )->failure is None <==> (first != Outcome::Failed && second == Outcome::Done),
{
}

} // verus!
