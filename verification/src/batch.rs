//! Gathering the settled tasks of a harvest into a batch.

use vstd::prelude::*;
use vstd::string::StringExecFns;
use crate::error::ScrapeError;
use crate::error::ScrapeErrorView;
use crate::fetch::FetchReply;
use crate::fetch::FetchReplyView;
use crate::model::Candidate;
use crate::model::CandidateView;
use crate::model::Icon;
use crate::model::IconView;
use crate::resolve::detail_outcome;
use crate::resolve::resolve_detail;

verus! {

/// How the task of one candidate ended.
#[derive(Debug, PartialEq, Eq)]
pub enum TaskOutcome {
    /// The candidate was resolved into an icon.
    Resolved(Icon),
    /// The candidate of this name could not be resolved.
    Failed { name: String, error: ScrapeError },
    /// The task itself did not run to its end.
    Aborted(String),
}

/// Mathematical value of a [`TaskOutcome`].
pub enum TaskOutcomeView {
    Resolved(IconView),
    Failed { name: Seq<char>, error: ScrapeErrorView },
    Aborted(Seq<char>),
}

impl View for TaskOutcome {
    type V = TaskOutcomeView;

    open spec fn view(&self) -> TaskOutcomeView {
        match self {
            TaskOutcome::Resolved(icon) => TaskOutcomeView::Resolved(icon@),
            TaskOutcome::Failed { name, error } => TaskOutcomeView::Failed {
                name: name@,
                error: error@,
            },
            TaskOutcome::Aborted(cause) => TaskOutcomeView::Aborted(cause@),
        }
    }
}

impl DeepView for TaskOutcome {
    type V = TaskOutcomeView;

    open spec fn deep_view(&self) -> TaskOutcomeView {
        self@
    }
}

/// A task that gave no icon: what is kept of it for the log.
#[derive(Debug, PartialEq, Eq)]
pub enum Failure {
    /// The candidate of this name could not be resolved.
    Resolution { name: String, error: ScrapeError },
    /// A task did not run to its end.
    Execution(String),
}

/// Mathematical value of a [`Failure`].
pub enum FailureView {
    Resolution { name: Seq<char>, error: ScrapeErrorView },
    Execution(Seq<char>),
}

impl View for Failure {
    type V = FailureView;

    open spec fn view(&self) -> FailureView {
        match self {
            Failure::Resolution { name, error } => FailureView::Resolution {
                name: name@,
                error: error@,
            },
            Failure::Execution(cause) => FailureView::Execution(cause@),
        }
    }
}

impl DeepView for Failure {
    type V = FailureView;

    open spec fn deep_view(&self) -> FailureView {
        self@
    }
}

/// The outcome of all the tasks of a harvest: the icons that were resolved
/// and the failures of the others, each in the order in which the tasks
/// were handed over.
#[derive(Debug, PartialEq, Eq)]
pub struct Batch {
    pub icons: Vec<Icon>,
    pub failures: Vec<Failure>,
}

/// Mathematical value of a [`Batch`].
pub struct BatchView {
    pub icons: Seq<IconView>,
    pub failures: Seq<FailureView>,
}

impl BatchView {
    /// A batch is of use where it holds at least one icon.
    pub open spec fn usable(self) -> bool {
        self.icons.len() > 0
    }
}

impl View for Batch {
    type V = BatchView;

    open spec fn view(&self) -> BatchView {
        BatchView { icons: self.icons.deep_view(), failures: self.failures.deep_view() }
    }
}

/// The icon of a task, where it gave one.
pub open spec fn icon_of(o: TaskOutcomeView) -> Option<IconView> {
    match o {
        TaskOutcomeView::Resolved(icon) => Some(icon),
        _ => None,
    }
}

/// The failure of a task, where it gave no icon.
pub open spec fn failure_of(o: TaskOutcomeView) -> Option<FailureView> {
    match o {
        TaskOutcomeView::Resolved(_) => None,
        TaskOutcomeView::Failed { name, error } => Some(FailureView::Resolution { name, error }),
        TaskOutcomeView::Aborted(cause) => Some(FailureView::Execution(cause)),
    }
}

/// The icons among the outcomes, in the order of the outcomes.
pub open spec fn icons_of(outcomes: Seq<TaskOutcomeView>) -> Seq<IconView> {
    outcomes.filter_map(|o: TaskOutcomeView| icon_of(o))
}

/// The failures among the outcomes, in the order of the outcomes.
pub open spec fn failures_of(outcomes: Seq<TaskOutcomeView>) -> Seq<FailureView> {
    outcomes.filter_map(|o: TaskOutcomeView| failure_of(o))
}

/// The batch that a sequence of outcomes comes to.
pub open spec fn gathered(outcomes: Seq<TaskOutcomeView>) -> BatchView {
    BatchView { icons: icons_of(outcomes), failures: failures_of(outcomes) }
}

/// One more outcome adds its icon to the icons, or its failure to the
/// failures.
proof fn lemma_gathered_next(outcomes: Seq<TaskOutcomeView>, i: int)
    requires
        0 <= i < outcomes.len(),
    ensures
        icons_of(outcomes.take(i + 1)) == match icon_of(outcomes[i]) {
            Some(icon) => icons_of(outcomes.take(i)).push(icon),
            None => icons_of(outcomes.take(i)),
        },
        failures_of(outcomes.take(i + 1)) == match failure_of(outcomes[i]) {
            Some(failure) => failures_of(outcomes.take(i)).push(failure),
            None => failures_of(outcomes.take(i)),
        },
{
    let pick_icon = |o: TaskOutcomeView| icon_of(o);
    let pick_failure = |o: TaskOutcomeView| failure_of(o);
    outcomes.lemma_filter_map_take_succ(pick_icon, i);
    outcomes.lemma_filter_map_take_succ(pick_failure, i);
    let icons = outcomes.take(i).filter_map(pick_icon);
    let failures = outcomes.take(i).filter_map(pick_failure);
    match icon_of(outcomes[i]) {
        Some(icon) => {
            assert(icons + seq![icon] =~= icons.push(icon));
        },
        None => {
            assert(icons + Seq::<IconView>::empty() =~= icons);
        },
    }
    match failure_of(outcomes[i]) {
        Some(failure) => {
            assert(failures + seq![failure] =~= failures.push(failure));
        },
        None => {
            assert(failures + Seq::<FailureView>::empty() =~= failures);
        },
    }
}

/// The number of outcomes that gave no icon.
pub open spec fn failed_count(outcomes: Seq<TaskOutcomeView>) -> nat {
    outcomes.filter(|o: TaskOutcomeView| !(o is Resolved)).len()
}

/// Of the outcomes of N tasks, K of which gave no icon, the batch holds
/// N - K icons and K failures, and it is of use exactly where N - K > 0.
pub proof fn lemma_partial_failure(outcomes: Seq<TaskOutcomeView>)
    ensures
        failed_count(outcomes) <= outcomes.len(),
        gathered(outcomes).icons.len() == outcomes.len() - failed_count(outcomes),
        gathered(outcomes).failures.len() == failed_count(outcomes),
        gathered(outcomes).usable() <==> outcomes.len() - failed_count(outcomes) > 0,
    decreases outcomes.len(),
{
    reveal(Seq::filter);
    if outcomes.len() > 0 {
        lemma_partial_failure(outcomes.drop_last());
    }
}

/// How the task of a candidate ends on a reply to the request for its
/// detail page.
pub open spec fn settled(c: CandidateView, reply: FetchReplyView) -> TaskOutcomeView {
    match detail_outcome(c, reply) {
        Ok(icon) => TaskOutcomeView::Resolved(icon),
        Err(error) => TaskOutcomeView::Failed { name: c.name, error },
    }
}

/// Ends the task of a candidate: resolves it from the reply to the request
/// for its detail page, and keeps the failure under the candidate's name
/// where it cannot be resolved.
pub fn settle(candidate: &Candidate, reply: FetchReply) -> (outcome: TaskOutcome)
    ensures
        outcome@ == settled(candidate@, reply@),
{
    match resolve_detail(candidate, reply) {
        Ok(icon) => TaskOutcome::Resolved(icon),
        Err(error) => TaskOutcome::Failed { name: String::from_str(candidate.name()), error },
    }
}

/// Gathers the outcomes of all tasks: every icon goes to the batch's icons,
/// every other outcome to its failures, and none stops the gathering. The
/// batch holds as many icons as tasks gave one, and as many failures as
/// tasks gave none.
pub fn aggregate(outcomes: Vec<TaskOutcome>) -> (batch: Batch)
    ensures
        batch@ == gathered(outcomes.deep_view()),
        batch.failures.len() == failed_count(outcomes.deep_view()),
        batch.icons.len() == outcomes.len() - failed_count(outcomes.deep_view()),
        forall|k: int| 0 <= k < batch@.icons.len() ==> (#[trigger] batch@.icons[k]).valid(),
{
    let ghost given = outcomes.deep_view();
    let mut icons: Vec<Icon> = Vec::new();
    let mut failures: Vec<Failure> = Vec::new();
    assert(icons.deep_view() =~= icons_of(given.take(0)));
    assert(failures.deep_view() =~= failures_of(given.take(0)));
    for outcome in it: outcomes
        invariant
            it.seq() == outcomes@,
            given == outcomes.deep_view(),
            icons.deep_view() == icons_of(given.take(it.index() as int)),
            failures.deep_view() == failures_of(given.take(it.index() as int)),
            forall|k: int| 0 <= k < icons.len() ==> (#[trigger] icons[k])@.valid(),
    {
        let ghost i = it.index() as int;
        let ghost icons_before = icons.deep_view();
        let ghost failures_before = failures.deep_view();
        assert(given[i] == outcome@);
        proof {
            lemma_gathered_next(given, i);
        }
        match outcome {
            TaskOutcome::Resolved(icon) => {
                let _ = icon.icon_name();
                icons.push(icon);
                assert(icons.deep_view() =~= icons_before.push(icon@));
            },
            TaskOutcome::Failed { name, error } => {
                let failure = Failure::Resolution { name, error };
                failures.push(failure);
                assert(failures.deep_view() =~= failures_before.push(failure@));
            },
            TaskOutcome::Aborted(cause) => {
                let failure = Failure::Execution(cause);
                failures.push(failure);
                assert(failures.deep_view() =~= failures_before.push(failure@));
            },
        }
    }
    assert(given.take(given.len() as int) =~= given);
    proof {
        lemma_partial_failure(given);
    }
    Batch { icons, failures }
}

impl Batch {
    /// Tells whether the batch holds at least one icon.
    pub fn is_usable(&self) -> (usable: bool)
        ensures
            usable == self@.usable(),
    {
        self.icons.len() > 0
    }

    /// Gives the icons of a batch that holds any; a batch without icons is
    /// the failure `NoIconsFound`.
    pub fn into_icons(self) -> (icons: Result<Vec<Icon>, ScrapeError>)
        ensures
            match icons {
                Ok(found) => self@.usable() && found.deep_view() == self@.icons,
                Err(e) => !self@.usable() && e@ == ScrapeErrorView::NoIconsFound,
            },
    {
        if self.icons.len() > 0 {
            Ok(self.icons)
        } else {
            Err(ScrapeError::NoIconsFound)
        }
    }
}

} // verus!
