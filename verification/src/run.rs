//! The course of one harvest, as the driver sees it: the library says what
//! to do next, the driver does it and reports what came of it.

use vstd::prelude::*;
use crate::batch::aggregate;
use crate::batch::failed_count;
use crate::batch::gathered;
use crate::batch::lemma_partial_failure;
use crate::batch::Failure;
use crate::batch::FailureView;
use crate::batch::TaskOutcome;
use crate::batch::TaskOutcomeView;
use crate::error::Mismatch;
use crate::error::ScrapeError;
use crate::error::ScrapeErrorView;
use crate::fetch::is_success;
use crate::fetch::FetchReply;
use crate::fetch::FetchReplyView;
use crate::html::fault_free;
use crate::html::icon_entries;
use crate::html::index_entries;
use crate::html::EntryView;
use crate::html::listing;
use crate::model::Candidate;
use crate::model::CandidateView;
use crate::model::Icon;
use crate::model::IconView;
use crate::resolve::absolute;
use crate::resolve::index_candidates;
use crate::resolve::lemma_index_lists_icon_entries;
use crate::resolve::index_outcome;

verus! {

/// Where a harvest stands.
#[derive(Clone, Copy, Debug, PartialEq, Eq, Structural)]
pub enum Run {
    /// The index page has been asked for.
    AwaitingIndex,
    /// The detail pages of `pending` candidates have been asked for.
    AwaitingDetails { pending: usize },
    /// The icons have been handed over to be stored; `count` is their number.
    AwaitingStore { count: usize },
    /// The harvest is over.
    Finished,
}

/// What came of storing the icons.
#[derive(Debug, PartialEq, Eq)]
pub enum StoreOutcome {
    /// The icons are stored.
    Stored,
    /// The icons could not be turned into text.
    NotSerialized(String),
    /// The text could not be written.
    NotWritten(String),
}

/// Mathematical value of a [`StoreOutcome`].
pub enum StoreOutcomeView {
    Stored,
    NotSerialized(Seq<char>),
    NotWritten(Seq<char>),
}

impl View for StoreOutcome {
    type V = StoreOutcomeView;

    open spec fn view(&self) -> StoreOutcomeView {
        match self {
            StoreOutcome::Stored => StoreOutcomeView::Stored,
            StoreOutcome::NotSerialized(cause) => StoreOutcomeView::NotSerialized(cause@),
            StoreOutcome::NotWritten(cause) => StoreOutcomeView::NotWritten(cause@),
        }
    }
}

/// What the driver reports back.
#[derive(Debug, PartialEq, Eq)]
pub enum Event {
    /// The reply to the request for the index page.
    IndexFetched(FetchReply),
    /// The outcomes of the tasks, one for each candidate, once all have
    /// settled, in the order in which they are to be kept.
    TasksSettled(Vec<TaskOutcome>),
    /// What came of storing the icons.
    StoreDone(StoreOutcome),
}

/// Mathematical value of an [`Event`].
pub enum EventView {
    IndexFetched(FetchReplyView),
    TasksSettled(Seq<TaskOutcomeView>),
    StoreDone(StoreOutcomeView),
}

impl View for Event {
    type V = EventView;

    open spec fn view(&self) -> EventView {
        match self {
            Event::IndexFetched(reply) => EventView::IndexFetched(reply@),
            Event::TasksSettled(outcomes) => EventView::TasksSettled(outcomes.deep_view()),
            Event::StoreDone(outcome) => EventView::StoreDone(outcome@),
        }
    }
}

/// What the driver is to do next.
#[derive(Debug, PartialEq, Eq)]
pub enum Action {
    /// Request the index page.
    FetchIndex,
    /// Request the detail page of each candidate, all at once, settle each
    /// task on its reply, and report when all have settled.
    ResolveAll(Vec<Candidate>),
    /// Store these icons, in this order, in place of what was stored before.
    Store(Vec<Icon>),
    /// Report that `count` icons were stored.
    Succeed { count: usize },
    /// Report this failure.
    Fail(ScrapeError),
    /// Nothing: the event was not the awaited one.
    Ignore,
}

/// Mathematical value of an [`Action`].
pub enum ActionView {
    FetchIndex,
    ResolveAll(Seq<CandidateView>),
    Store(Seq<IconView>),
    Succeed { count: usize },
    Fail(ScrapeErrorView),
    Ignore,
}

impl View for Action {
    type V = ActionView;

    open spec fn view(&self) -> ActionView {
        match self {
            Action::FetchIndex => ActionView::FetchIndex,
            Action::ResolveAll(candidates) => ActionView::ResolveAll(candidates.deep_view()),
            Action::Store(icons) => ActionView::Store(icons.deep_view()),
            Action::Succeed { count } => ActionView::Succeed { count: *count },
            Action::Fail(error) => ActionView::Fail(error@),
            Action::Ignore => ActionView::Ignore,
        }
    }
}

/// What a step of the harvest tells the driver: the failures to log, and
/// then what to do.
#[derive(Debug, PartialEq, Eq)]
pub struct Step {
    pub log: Vec<Failure>,
    pub action: Action,
}

/// Mathematical value of a [`Step`].
pub struct StepView {
    pub log: Seq<FailureView>,
    pub action: ActionView,
}

impl View for Step {
    type V = StepView;

    open spec fn view(&self) -> StepView {
        StepView { log: self.log.deep_view(), action: self.action@ }
    }
}

/// A step that only tells what to do.
pub open spec fn plain(action: ActionView) -> StepView {
    StepView { log: Seq::empty(), action }
}

/// Where a harvest goes on the reply for the index page: on to the tasks of
/// the candidates, or to its end with the failure.
pub open spec fn after_index(reply: FetchReplyView) -> (Run, StepView) {
    match index_outcome(reply) {
        Ok(candidates) => (
            Run::AwaitingDetails { pending: candidates.len() as usize },
            plain(ActionView::ResolveAll(candidates)),
        ),
        Err(error) => (Run::Finished, plain(ActionView::Fail(error))),
    }
}

/// Where a harvest goes once the tasks have settled: on to storing the icons
/// where there is at least one, else to its end with `NoIconsFound`; the
/// failures are logged either way.
pub open spec fn after_tasks(outcomes: Seq<TaskOutcomeView>) -> (Run, StepView) {
    let batch = gathered(outcomes);
    if batch.usable() {
        (
            Run::AwaitingStore { count: batch.icons.len() as usize },
            StepView { log: batch.failures, action: ActionView::Store(batch.icons) },
        )
    } else {
        (
            Run::Finished,
            StepView { log: batch.failures, action: ActionView::Fail(ScrapeErrorView::NoIconsFound) },
        )
    }
}

/// What is reported once `count` icons were to be stored.
pub open spec fn after_store(count: usize, outcome: StoreOutcomeView) -> ActionView {
    match outcome {
        StoreOutcomeView::Stored => ActionView::Succeed { count },
        StoreOutcomeView::NotSerialized(cause) => ActionView::Fail(
            ScrapeErrorView::Serialization(cause),
        ),
        StoreOutcomeView::NotWritten(cause) => ActionView::Fail(ScrapeErrorView::Write(cause)),
    }
}

/// Whether `event` is the one that a harvest at `run` waits for: the reply
/// for the index page, then one outcome for each candidate, then the outcome
/// of storing.
pub open spec fn awaited(run: Run, event: EventView) -> bool {
    match (run, event) {
        (Run::AwaitingIndex, EventView::IndexFetched(_)) => true,
        (Run::AwaitingDetails { pending }, EventView::TasksSettled(outcomes)) => outcomes.len()
            == pending,
        (Run::AwaitingStore { .. }, EventView::StoreDone(_)) => true,
        _ => false,
    }
}

/// Where a harvest goes on an event, and what it tells the driver. An event
/// that is not the awaited one changes nothing.
pub open spec fn next(run: Run, event: EventView) -> (Run, StepView) {
    if !awaited(run, event) {
        (run, plain(ActionView::Ignore))
    } else {
        match (run, event) {
            (Run::AwaitingIndex, EventView::IndexFetched(reply)) => after_index(reply),
            (Run::AwaitingDetails { .. }, EventView::TasksSettled(outcomes)) => after_tasks(
                outcomes,
            ),
            (Run::AwaitingStore { count }, EventView::StoreDone(outcome)) => (
                Run::Finished,
                plain(after_store(count, outcome)),
            ),
            _ => (run, plain(ActionView::Ignore)),
        }
    }
}

/// Makes the step that only tells what to do.
fn tell(action: Action) -> (told: Step)
    ensures
        told@ == plain(action@),
        told.action == action,
{
    let told = Step { log: Vec::new(), action };
    assert(told.log.deep_view() =~= Seq::empty());
    told
}

/// The step on the reply for the index page.
fn on_index(reply: FetchReply) -> (went: (Run, Step))
    ensures
        (went.0, went.1@) == after_index(reply@),
        !(went.1.action is Store),
{
    match index_candidates(reply) {
        Ok(candidates) => (
            Run::AwaitingDetails { pending: candidates.len() },
            tell(Action::ResolveAll(candidates)),
        ),
        Err(error) => (Run::Finished, tell(Action::Fail(error))),
    }
}

/// The step on the settled tasks.
fn on_settled(outcomes: Vec<TaskOutcome>) -> (went: (Run, Step))
    ensures
        (went.0, went.1@) == after_tasks(outcomes.deep_view()),
        went.1.action matches Action::Store(icons) ==> icons.len() > 0 && forall|k: int|
            0 <= k < icons.len() ==> (#[trigger] icons[k])@.valid(),
{
    let batch = aggregate(outcomes);
    assert(forall|k: int|
        0 <= k < batch.icons.len() ==> (#[trigger] batch.icons[k])@ == batch@.icons[k]);
    if batch.is_usable() {
        (
            Run::AwaitingStore { count: batch.icons.len() },
            Step { log: batch.failures, action: Action::Store(batch.icons) },
        )
    } else {
        (Run::Finished, Step { log: batch.failures, action: Action::Fail(ScrapeError::NoIconsFound) })
    }
}

/// The step on the outcome of storing `count` icons.
fn on_stored(count: usize, outcome: StoreOutcome) -> (went: (Run, Step))
    ensures
        went.0 == Run::Finished,
        went.1@ == plain(after_store(count, outcome@)),
        !(went.1.action is Store),
{
    let action = match outcome {
        StoreOutcome::Stored => Action::Succeed { count },
        StoreOutcome::NotSerialized(cause) => Action::Fail(ScrapeError::Serialization(cause)),
        StoreOutcome::NotWritten(cause) => Action::Fail(ScrapeError::Write(cause)),
    };
    (Run::Finished, tell(action))
}

impl Run {
    /// Begins a harvest: the first thing to do is to request the index page.
    pub fn start() -> (begun: (Run, Action))
        ensures
            begun.0 == Run::AwaitingIndex,
            begun.1@ == ActionView::FetchIndex,
    {
        (Run::AwaitingIndex, Action::FetchIndex)
    }

    /// Tells whether the harvest is over.
    pub fn is_finished(&self) -> (over: bool)
        ensures
            over == (*self == Run::Finished),
    {
        match self {
            Run::Finished => true,
            _ => false,
        }
    }

    /// Takes the harvest one step on: judges what the driver reports, and
    /// tells what to log and what to do next. Icons are handed over to be
    /// stored only where there is at least one, and each of them is a named
    /// hexadecimal literal.
    pub fn step(&mut self, event: Event) -> (told: Step)
        ensures
            (*final(self), told@) == next(*old(self), event@),
            told.action matches Action::Store(icons) ==> icons.len() > 0 && forall|k: int|
                0 <= k < icons.len() ==> (#[trigger] icons[k])@.valid(),
    {
        let (then, told) = match (*self, event) {
            (Run::AwaitingIndex, Event::IndexFetched(reply)) => on_index(reply),
            (Run::AwaitingDetails { pending }, Event::TasksSettled(outcomes)) => {
                if outcomes.len() == pending {
                    on_settled(outcomes)
                } else {
                    (*self, tell(Action::Ignore))
                }
            },
            (Run::AwaitingStore { count }, Event::StoreDone(outcome)) => on_stored(count, outcome),
            _ => (*self, tell(Action::Ignore)),
        };
        *self = then;
        told
    }
}

/// A harvest that is over stays over: whatever is reported to it, it asks
/// for nothing more.
pub proof fn lemma_finished_is_final(event: EventView)
    ensures
        next(Run::Finished, event) == (Run::Finished, plain(ActionView::Ignore)),
{
}

/// Of N candidates whose tasks have settled, K of them without an icon, the
/// harvest logs K failures; where N - K > 0 it hands N - K icons over to be
/// stored, and where N - K = 0 it ends with `NoIconsFound`.
pub proof fn lemma_partial_failure_goes_on(outcomes: Seq<TaskOutcomeView>)
    requires
        outcomes.len() <= usize::MAX,
    ensures
        ({
            let n = outcomes.len();
            let k = failed_count(outcomes);
            let (then, told) = next(
                Run::AwaitingDetails { pending: n as usize },
                EventView::TasksSettled(outcomes),
            );
            &&& k <= n
            &&& told.log == gathered(outcomes).failures
            &&& told.log.len() == k
            &&& n - k > 0 ==> {
                &&& then == Run::AwaitingStore { count: (n - k) as usize }
                &&& told.action == ActionView::Store(gathered(outcomes).icons)
                &&& gathered(outcomes).icons.len() == n - k
            }
            &&& n - k == 0 ==> {
                &&& then == Run::Finished
                &&& told.action == ActionView::Fail(ScrapeErrorView::NoIconsFound)
            }
        }),
{
    lemma_partial_failure(outcomes);
}

/// Where every task failed, or there was none, the harvest ends with
/// `NoIconsFound`; nothing is handed over to be stored, then or later.
pub proof fn lemma_no_icons_nothing_stored(outcomes: Seq<TaskOutcomeView>, later: EventView)
    requires
        outcomes.len() <= usize::MAX,
        outcomes.len() - failed_count(outcomes) == 0,
    ensures
        ({
            let (then, told) = next(
                Run::AwaitingDetails { pending: outcomes.len() as usize },
                EventView::TasksSettled(outcomes),
            );
            &&& then == Run::Finished
            &&& told.action == ActionView::Fail(ScrapeErrorView::NoIconsFound)
            &&& next(then, later) == (Run::Finished, plain(ActionView::Ignore))
        }),
{
    lemma_partial_failure(outcomes);
}

/// On an index page that came with success and is laid out as expected,
/// the harvest asks for the detail pages of exactly the entries whose name
/// is not reserved, each at [`DETAIL_BASE`](crate::resolve::DETAIL_BASE)
/// followed by the entry's link, wherever in the page the reserved names
/// stand.
pub proof fn lemma_conforming_index_is_resolved(
    status: u16,
    page: Seq<char>,
    entries: Seq<EntryView>,
)
    requires
        is_success(status),
        index_entries(page) == Some(entries),
        fault_free(entries),
    ensures
        ({
            let asked = icon_entries(entries).map_values(|c: CandidateView| absolute(c));
            next(
                Run::AwaitingIndex,
                EventView::IndexFetched(FetchReplyView::Answered { status, body: page }),
            ) == (
                Run::AwaitingDetails { pending: asked.len() as usize },
                plain(ActionView::ResolveAll(asked)),
            )
        }),
{
    lemma_index_lists_icon_entries(status, page, entries);
}

/// An index page that is not laid out as expected ends the harvest with
/// the mismatch: no detail page is asked for, then or later. A page without
/// the container is such a page.
pub proof fn lemma_mismatch_ends_run(status: u16, page: Seq<char>, later: EventView)
    requires
        is_success(status),
        listing(index_entries(page)) is Err,
    ensures
        ({
            let (then, told) = next(
                Run::AwaitingIndex,
                EventView::IndexFetched(FetchReplyView::Answered { status, body: page }),
            );
            &&& then == Run::Finished
            &&& told == plain(
                ActionView::Fail(
                    ScrapeErrorView::StructuralMismatch(listing(index_entries(page))->Err_0),
                ),
            )
            &&& next(then, later) == (Run::Finished, plain(ActionView::Ignore))
        }),
        index_entries(page) is None ==> listing(index_entries(page)) == Err::<
            Seq<CandidateView>,
            Mismatch,
        >(Mismatch::Container),
{
}

/// Icons are handed over to be stored on one event only: the settling of
/// the tasks, one for each candidate, with at least one icon among them.
pub proof fn lemma_store_needs_icons(run: Run, event: EventView)
    requires
        next(run, event).1.action is Store,
    ensures
        run is AwaitingDetails,
        event is TasksSettled,
        event->TasksSettled_0.len() == run->pending,
        gathered(event->TasksSettled_0).icons.len() > 0,
        next(run, event).1.action == ActionView::Store(gathered(event->TasksSettled_0).icons),
{
}

} // verus!
