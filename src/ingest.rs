//! The join point of the concurrent ingestion of datasets: failures are
//! reported and left out, the records of the datasets that succeeded are
//! joined. Fetching and decoding happen outside; this is the decision part.
use vstd::prelude::*;

use crate::message::{Level, Message};

verus! {

/// Why one dataset contributed no records.
#[derive(Debug)]
pub enum DatasetError {
    Fetch { dataset: String, detail: String },
    Decode { dataset: String, detail: String },
    Deserialize { dataset: String, detail: String },
    /// The progress consumer went away while the dataset was being handled.
    ChannelClosed { dataset: String },
    /// The task that handled a dataset panicked or was cancelled.
    TaskFailed { detail: String },
}

/// The one-line text that reports `e`.
pub open spec fn error_text(e: DatasetError) -> Seq<char> {
    match e {
        DatasetError::Fetch { dataset, detail } => "Could not fetch AIXM dataset ("@ + dataset@
            + "): "@ + detail@,
        DatasetError::Decode { dataset, detail } => "Could not decode AIXM dataset ("@ + dataset@
            + "): "@ + detail@,
        DatasetError::Deserialize { dataset, detail } => "Could not deserialize AIXM dataset ("@
            + dataset@ + "): "@ + detail@,
        DatasetError::ChannelClosed { dataset } => "Could not report progress on AIXM dataset ("@
            + dataset@ + "): channel closed"@,
        DatasetError::TaskFailed { detail } => "AIXM dataset task failed: "@ + detail@,
    }
}

impl DatasetError {
    pub fn message(&self) -> (r: String)
        ensures
            r@ == error_text(*self),
    {
        match self {
            DatasetError::Fetch { dataset, detail } => {
                let mut s = String::from_str("Could not fetch AIXM dataset (");
                s.append(dataset.as_str());
                s.append("): ");
                s.append(detail.as_str());
                s
            },
            DatasetError::Decode { dataset, detail } => {
                let mut s = String::from_str("Could not decode AIXM dataset (");
                s.append(dataset.as_str());
                s.append("): ");
                s.append(detail.as_str());
                s
            },
            DatasetError::Deserialize { dataset, detail } => {
                let mut s = String::from_str("Could not deserialize AIXM dataset (");
                s.append(dataset.as_str());
                s.append("): ");
                s.append(detail.as_str());
                s
            },
            DatasetError::ChannelClosed { dataset } => {
                let mut s = String::from_str("Could not report progress on AIXM dataset (");
                s.append(dataset.as_str());
                s.append("): channel closed");
                s
            },
            DatasetError::TaskFailed { detail } => {
                let mut s = String::from_str("AIXM dataset task failed: ");
                s.append(detail.as_str());
                s
            },
        }
    }
}

/// The payloads of the successful outcomes, in order.
pub open spec fn successes<T, E>(outcomes: Seq<Result<T, E>>) -> Seq<T>
    decreases outcomes.len(),
{
    if outcomes.len() == 0 {
        Seq::empty()
    } else {
        let rest = successes(outcomes.drop_last());
        match outcomes.last() {
            Ok(t) => rest.push(t),
            Err(_) => rest,
        }
    }
}

/// The errors of the failed outcomes, in order.
pub open spec fn failures<T, E>(outcomes: Seq<Result<T, E>>) -> Seq<E>
    decreases outcomes.len(),
{
    if outcomes.len() == 0 {
        Seq::empty()
    } else {
        let rest = failures(outcomes.drop_last());
        match outcomes.last() {
            Ok(_) => rest,
            Err(e) => rest.push(e),
        }
    }
}

pub open spec fn vec_views<T>(parts: Seq<Vec<T>>) -> Seq<Seq<T>> {
    parts.map_values(|p: Vec<T>| p@)
}

/// Relies on `itertools::concat`, which folds the parts with `Extend` and
/// gives an empty vector when there are none: the parts joined in order.
#[verifier::external_body]
fn concat_parts<T>(parts: Vec<Vec<T>>) -> (r: Vec<T>)
    ensures
        r@ == vec_views(parts@).flatten(),
{
    itertools::concat(parts)
}

/// Joins the records of the datasets that succeeded, in the order of
/// `outcomes`, and reports each failed dataset with one error message, in the
/// same order. No failure keeps the others from contributing.
pub fn collect_records<T>(outcomes: Vec<Result<Vec<T>, DatasetError>>) -> (r: (
    Vec<T>,
    Vec<Message>,
))
    ensures
        r.0@ == vec_views(successes(outcomes@)).flatten(),
        r.1@.len() == failures(outcomes@).len(),
        forall|k: int|
            0 <= k < r.1@.len() ==> (#[trigger] r.1@[k]).content@ == error_text(
                failures(outcomes@)[k],
            ) && r.1@[k].level == Level::Error,
{
    let ghost all = outcomes@;
    let n = outcomes.len();
    let mut rest = outcomes;
    let mut parts: Vec<Vec<T>> = Vec::new();
    let mut messages: Vec<Message> = Vec::new();
    let mut k: usize = 0;
    while rest.len() > 0
        invariant
            k + rest@.len() == all.len(),
            all.len() == n,
            rest@ == all.subrange(k as int, all.len() as int),
            parts@ == successes(all.take(k as int)),
            messages@.len() == failures(all.take(k as int)).len(),
            forall|j: int|
                0 <= j < messages@.len() ==> (#[trigger] messages@[j]).content@ == error_text(
                    failures(all.take(k as int))[j],
                ) && messages@[j].level == Level::Error,
        decreases rest@.len(),
    {
        let outcome = rest.remove(0);
        assert(all.take(k + 1).drop_last() =~= all.take(k as int));
        assert(all.take(k + 1).last() == outcome);
        match outcome {
            Ok(records) => {
                parts.push(records);
            },
            Err(e) => {
                let text = e.message();
                messages.push(Message::error(text));
            },
        }
        k = k + 1;
        assert(rest@ =~= all.subrange(k as int, all.len() as int));
    }
    assert(all.take(k as int) =~= all);
    (concat_parts(parts), messages)
}

/// Keeps the values of the outcomes that succeeded, in order, and reports
/// each failure, already rendered as text, with one error message.
pub fn keep_successes<T>(outcomes: Vec<Result<T, String>>) -> (r: (Vec<T>, Vec<Message>))
    ensures
        r.0@ == successes(outcomes@),
        r.1@.len() == failures(outcomes@).len(),
        forall|k: int|
            0 <= k < r.1@.len() ==> (#[trigger] r.1@[k]).content@ == failures(outcomes@)[k]@
                && r.1@[k].level == Level::Error,
{
    let ghost all = outcomes@;
    let n = outcomes.len();
    let mut rest = outcomes;
    let mut kept: Vec<T> = Vec::new();
    let mut messages: Vec<Message> = Vec::new();
    let mut k: usize = 0;
    while rest.len() > 0
        invariant
            k + rest@.len() == all.len(),
            all.len() == n,
            rest@ == all.subrange(k as int, all.len() as int),
            kept@ == successes(all.take(k as int)),
            messages@.len() == failures(all.take(k as int)).len(),
            forall|j: int|
                0 <= j < messages@.len() ==> (#[trigger] messages@[j]).content@ == failures(
                    all.take(k as int),
                )[j]@ && messages@[j].level == Level::Error,
        decreases rest@.len(),
    {
        let outcome = rest.remove(0);
        assert(all.take(k + 1).drop_last() =~= all.take(k as int));
        assert(all.take(k + 1).last() == outcome);
        match outcome {
            Ok(value) => {
                kept.push(value);
            },
            Err(text) => {
                messages.push(Message::error(text));
            },
        }
        k = k + 1;
        assert(rest@ =~= all.subrange(k as int, all.len() as int));
    }
    assert(all.take(k as int) =~= all);
    (kept, messages)
}

/// The stages of handling one dataset, reported in this order.
#[derive(Clone, Copy, Debug, PartialEq, Eq, Structural)]
pub enum IngestStage {
    Fetching,
    Fetched,
    Loading,
    Loaded,
}

pub open spec fn stage_text(stage: IngestStage, dataset: Seq<char>) -> Seq<char> {
    match stage {
        IngestStage::Fetching => "Fetching AIXM: "@ + dataset,
        IngestStage::Fetched => "Fetched AIXM: "@ + dataset,
        IngestStage::Loading => "Loading AIXM: "@ + dataset,
        IngestStage::Loaded => "Loaded AIXM: "@ + dataset,
    }
}

/// The progress message for `dataset` reaching `stage`.
pub fn progress_message(stage: IngestStage, dataset: &str) -> (r: Message)
    ensures
        r.content@ == stage_text(stage, dataset@),
        r.level == Level::Info,
{
    let mut s = match stage {
        IngestStage::Fetching => String::from_str("Fetching AIXM: "),
        IngestStage::Fetched => String::from_str("Fetched AIXM: "),
        IngestStage::Loading => String::from_str("Loading AIXM: "),
        IngestStage::Loaded => String::from_str("Loaded AIXM: "),
    };
    s.append(dataset);
    Message::info(s)
}

/// Where the handling of one dataset stands.
#[derive(Debug)]
pub enum TaskPhase {
    AnnounceFetch,
    Request,
    ReadBody,
    AnnounceFetched,
    AnnounceLoad,
    Deserialize,
    AnnounceLoaded,
    Finished,
}

/// What the caller does next for a dataset.
#[derive(Debug)]
pub enum TaskAction {
    /// Send a progress message.
    Report(Message),
    /// Request the dataset's URL.
    Request,
    /// Read the body of the response.
    ReadBody,
    /// Decode the body into records.
    Deserialize,
    /// Nothing is left to do; `DatasetTask::result` tells how it went.
    Done,
}

/// How the last action went; a failure carries the error's text.
#[derive(Debug)]
pub enum TaskOutcome {
    Succeeded,
    Failed(String),
}

/// The handling of one dataset: fetch, then decode, reporting each stage.
/// A failed decode is still reported as loaded; a progress message that
/// cannot be sent ends the task with that error instead.
#[derive(Debug)]
pub struct DatasetTask {
    pub dataset: String,
    pub phase: TaskPhase,
    pub error: Option<DatasetError>,
}

/// The action that belongs to the phase of `task`.
pub open spec fn task_action_for(task: DatasetTask, a: TaskAction) -> bool {
    let d = task.dataset@;
    match task.phase {
        TaskPhase::AnnounceFetch => a matches TaskAction::Report(m) && m.content@ == stage_text(
            IngestStage::Fetching,
            d,
        ) && m.level == Level::Info,
        TaskPhase::Request => a is Request,
        TaskPhase::ReadBody => a is ReadBody,
        TaskPhase::AnnounceFetched => a matches TaskAction::Report(m) && m.content@ == stage_text(
            IngestStage::Fetched,
            d,
        ) && m.level == Level::Info,
        TaskPhase::AnnounceLoad => a matches TaskAction::Report(m) && m.content@ == stage_text(
            IngestStage::Loading,
            d,
        ) && m.level == Level::Info,
        TaskPhase::Deserialize => a is Deserialize,
        TaskPhase::AnnounceLoaded => a matches TaskAction::Report(m) && m.content@ == stage_text(
            IngestStage::Loaded,
            d,
        ) && m.level == Level::Info,
        TaskPhase::Finished => a is Done,
    }
}

/// How the phase moves on with the outcome of its action.
pub open spec fn task_advanced(old: DatasetTask, outcome: TaskOutcome, new: DatasetTask) -> bool {
    let d = old.dataset@;
    &&& new.dataset == old.dataset
    &&& match (old.phase, outcome) {
        (TaskPhase::AnnounceFetch, TaskOutcome::Succeeded) => new.phase is Request && new.error
            == old.error,
        (TaskPhase::Request, TaskOutcome::Succeeded) => new.phase is ReadBody && new.error
            == old.error,
        (TaskPhase::ReadBody, TaskOutcome::Succeeded) => new.phase is AnnounceFetched && new.error
            == old.error,
        (TaskPhase::AnnounceFetched, TaskOutcome::Succeeded) => new.phase is AnnounceLoad
            && new.error == old.error,
        (TaskPhase::AnnounceLoad, TaskOutcome::Succeeded) => new.phase is Deserialize && new.error
            == old.error,
        (TaskPhase::Deserialize, TaskOutcome::Succeeded) => new.phase is AnnounceLoaded
            && new.error == old.error,
        (TaskPhase::AnnounceLoaded, TaskOutcome::Succeeded) => new.phase is Finished && new.error
            == old.error,
        (TaskPhase::Request, TaskOutcome::Failed(detail)) => new.phase is Finished
            && (new.error matches Some(DatasetError::Fetch { dataset, detail: x }) && dataset@ == d
            && x == detail),
        (TaskPhase::ReadBody, TaskOutcome::Failed(detail)) => new.phase is Finished
            && (new.error matches Some(DatasetError::Decode { dataset, detail: x }) && dataset@ == d
            && x == detail),
        (TaskPhase::Deserialize, TaskOutcome::Failed(detail)) => new.phase is AnnounceLoaded
            && (new.error matches Some(DatasetError::Deserialize { dataset, detail: x })
            && dataset@ == d && x == detail),
        (TaskPhase::Finished, _) => new.phase is Finished && new.error == old.error,
        (_, TaskOutcome::Failed(_)) => new.phase is Finished
            && (new.error matches Some(DatasetError::ChannelClosed { dataset }) && dataset@ == d),
    }
}

impl DatasetTask {
    pub fn new(dataset: String) -> (r: DatasetTask)
        ensures
            r.dataset == dataset,
            r.phase is AnnounceFetch,
            r.error is None,
    {
        DatasetTask { dataset, phase: TaskPhase::AnnounceFetch, error: None }
    }

    /// The action of the present phase.
    pub fn action(&self) -> (r: TaskAction)
        ensures
            task_action_for(*self, r),
    {
        match self.phase {
            TaskPhase::AnnounceFetch => TaskAction::Report(
                progress_message(IngestStage::Fetching, self.dataset.as_str()),
            ),
            TaskPhase::Request => TaskAction::Request,
            TaskPhase::ReadBody => TaskAction::ReadBody,
            TaskPhase::AnnounceFetched => TaskAction::Report(
                progress_message(IngestStage::Fetched, self.dataset.as_str()),
            ),
            TaskPhase::AnnounceLoad => TaskAction::Report(
                progress_message(IngestStage::Loading, self.dataset.as_str()),
            ),
            TaskPhase::Deserialize => TaskAction::Deserialize,
            TaskPhase::AnnounceLoaded => TaskAction::Report(
                progress_message(IngestStage::Loaded, self.dataset.as_str()),
            ),
            TaskPhase::Finished => TaskAction::Done,
        }
    }

    /// Moves on with the outcome of the action of the present phase.
    pub fn advance(&mut self, outcome: TaskOutcome)
        ensures
            task_advanced(*old(self), outcome, *final(self)),
    {
        match (&self.phase, outcome) {
            (TaskPhase::AnnounceFetch, TaskOutcome::Succeeded) => {
                self.phase = TaskPhase::Request;
            },
            (TaskPhase::Request, TaskOutcome::Succeeded) => {
                self.phase = TaskPhase::ReadBody;
            },
            (TaskPhase::ReadBody, TaskOutcome::Succeeded) => {
                self.phase = TaskPhase::AnnounceFetched;
            },
            (TaskPhase::AnnounceFetched, TaskOutcome::Succeeded) => {
                self.phase = TaskPhase::AnnounceLoad;
            },
            (TaskPhase::AnnounceLoad, TaskOutcome::Succeeded) => {
                self.phase = TaskPhase::Deserialize;
            },
            (TaskPhase::Deserialize, TaskOutcome::Succeeded) => {
                self.phase = TaskPhase::AnnounceLoaded;
            },
            (TaskPhase::AnnounceLoaded, TaskOutcome::Succeeded) => {
                self.phase = TaskPhase::Finished;
            },
            (TaskPhase::Request, TaskOutcome::Failed(detail)) => {
                self.error = Some(DatasetError::Fetch { dataset: self.dataset.clone(), detail });
                self.phase = TaskPhase::Finished;
            },
            (TaskPhase::ReadBody, TaskOutcome::Failed(detail)) => {
                self.error = Some(DatasetError::Decode { dataset: self.dataset.clone(), detail });
                self.phase = TaskPhase::Finished;
            },
            (TaskPhase::Deserialize, TaskOutcome::Failed(detail)) => {
                self.error = Some(
                    DatasetError::Deserialize { dataset: self.dataset.clone(), detail },
                );
                self.phase = TaskPhase::AnnounceLoaded;
            },
            (TaskPhase::Finished, _) => {},
            (_, TaskOutcome::Failed(_)) => {
                self.error = Some(DatasetError::ChannelClosed { dataset: self.dataset.clone() });
                self.phase = TaskPhase::Finished;
            },
        }
    }

    /// How a finished task went.
    pub fn result(self) -> (r: Result<(), DatasetError>)
        requires
            self.phase is Finished,
        ensures
            match self.error {
                Some(e) => r == Err::<(), DatasetError>(e),
                None => r is Ok,
            },
    {
        match self.error {
            Some(e) => Err(e),
            None => Ok(()),
        }
    }
}

} // verus!
