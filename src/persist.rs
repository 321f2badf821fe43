//! The local files of a run, and the backup-then-write protocol that replaces
//! a sector file with its reconciled text.
//!
//! The protocol is a state machine: `WriteBack::action` says what to do next,
//! the caller does it and hands the outcome to `WriteBack::advance`. The
//! original file is renamed to its backup name before anything is written at
//! its path, so a failure at any step leaves the original content on disk.
use vstd::prelude::*;

use crate::clock::{stamp_text, Timestamp};
use crate::facility::FacilityRecord;
use crate::local::{IntersectionMap, SectorData};
use crate::message::{Level, Message};
use crate::reconcile::{isec_folded, sector_folded, AixmUpdateExt};

verus! {

/// A local file loaded for the run, with its path.
#[derive(Debug)]
#[allow(inconsistent_fields)]
pub enum EuroscopeFile<C> {
    /// A sector file; reconciled and written back.
    Sct { path: String, content: SectorData<C> },
    /// An airspace file; neither reconciled nor written.
    Ese { path: String },
    /// An intersection list; reconciled in memory, not written.
    Isec { path: String, content: IntersectionMap<C> },
}

impl<C: Copy> EuroscopeFile<C> {
    pub open spec fn wf(&self) -> bool {
        match self {
            EuroscopeFile::Isec { content, .. } => content.wf(),
            _ => true,
        }
    }

    pub open spec fn path_spec(&self) -> String {
        match *self {
            EuroscopeFile::Sct { path, .. } => path,
            EuroscopeFile::Ese { path } => path,
            EuroscopeFile::Isec { path, .. } => path,
        }
    }

    pub fn path(&self) -> (r: &String)
        ensures
            *r == self.path_spec(),
    {
        match self {
            EuroscopeFile::Sct { path, .. } => path,
            EuroscopeFile::Ese { path } => path,
            EuroscopeFile::Isec { path, .. } => path,
        }
    }

    /// Folds the records into the file's content; an airspace file is returned
    /// as it is.
    pub fn combine_with_aixm<F: Fn(C, C) -> u64>(
        self,
        records: &Vec<FacilityRecord<C>>,
        distance_m: &F,
        log: &mut Vec<Message>,
    ) -> (r: EuroscopeFile<C>)
        requires
            self.wf(),
            forall|a: C, b: C| call_requires(*distance_m, (a, b)),
        ensures
            r.wf(),
            match (self, r) {
                (
                    EuroscopeFile::Sct { path, content },
                    EuroscopeFile::Sct { path: new_path, content: new_content },
                ) => new_path == path && sector_folded(
                    content,
                    old(log)@,
                    records@,
                    *distance_m,
                    new_content,
                    final(log)@,
                ),
                (
                    EuroscopeFile::Isec { path, content },
                    EuroscopeFile::Isec { path: new_path, content: new_content },
                ) => new_path == path && isec_folded(
                    content@,
                    old(log)@,
                    records@,
                    *distance_m,
                    new_content@,
                    final(log)@,
                ),
                (EuroscopeFile::Ese { path }, EuroscopeFile::Ese { path: new_path }) => new_path
                    == path && final(log)@ == old(log)@,
                _ => false,
            },
    {
        match self {
            EuroscopeFile::Sct { path, content } => {
                let content = content.update_from_aixm(records, distance_m, log);
                EuroscopeFile::Sct { path, content }
            },
            EuroscopeFile::Isec { path, content } => {
                let content = content.update_from_aixm(records, distance_m, log);
                EuroscopeFile::Isec { path, content }
            },
            EuroscopeFile::Ese { path } => EuroscopeFile::Ese { path },
        }
    }
}

impl<C> EuroscopeFile<C> {
    /// The write-back of the file with the text `text`, for a run started at
    /// `time`: only a sector file is written back.
    pub fn write_plan(&self, text: String, time: &Timestamp) -> (r: Option<WriteBack>)
        requires
            time.wf(),
        ensures
            match *self {
                EuroscopeFile::Sct { path, .. } => r matches Some(wb) && wb.wf() && wb.path@
                    == path@ && wb.content == text && wb.backup_path@ == backup_name(path@, *time)
                    && wb.phase is AnnounceMove,
                _ => r is None,
            },
    {
        match self {
            EuroscopeFile::Sct { path, .. } => Some(WriteBack::new(path.clone(), text, time)),
            _ => None,
        }
    }
}

/// Why a sector file could not be replaced.
#[derive(Debug)]
pub enum PersistError {
    Rename { from: String, to: String, detail: String },
    CreateNew { path: String, detail: String },
    WriteNew { path: String, detail: String },
    /// The progress consumer went away.
    ChannelClosed { path: String },
}

pub open spec fn persist_error_text(e: PersistError) -> Seq<char> {
    match e {
        PersistError::Rename { from, to, detail } => "Could not rename file ("@ + from@ + " -> "@
            + to@ + "): "@ + detail@,
        PersistError::CreateNew { path, detail } => "Could not create file ("@ + path@ + "): "@
            + detail@,
        PersistError::WriteNew { path, detail } => "Could not write to new file ("@ + path@
            + "): "@ + detail@,
        PersistError::ChannelClosed { path } => "Could not report progress on writing "@ + path@
            + ": channel closed"@,
    }
}

impl PersistError {
    pub fn message(&self) -> (r: String)
        ensures
            r@ == persist_error_text(*self),
    {
        match self {
            PersistError::Rename { from, to, detail } => {
                let mut s = String::from_str("Could not rename file (");
                s.append(from.as_str());
                s.append(" -> ");
                s.append(to.as_str());
                s.append("): ");
                s.append(detail.as_str());
                s
            },
            PersistError::CreateNew { path, detail } => {
                let mut s = String::from_str("Could not create file (");
                s.append(path.as_str());
                s.append("): ");
                s.append(detail.as_str());
                s
            },
            PersistError::WriteNew { path, detail } => {
                let mut s = String::from_str("Could not write to new file (");
                s.append(path.as_str());
                s.append("): ");
                s.append(detail.as_str());
                s
            },
            PersistError::ChannelClosed { path } => {
                let mut s = String::from_str("Could not report progress on writing ");
                s.append(path.as_str());
                s.append(": channel closed");
                s
            },
        }
    }
}

/// Where a write-back stands.
#[derive(Debug)]
pub enum WritePhase {
    AnnounceMove,
    Rename,
    AnnounceWrite,
    Create,
    Write,
    AnnounceDone,
    Finished,
    Failed(PersistError),
}

/// How the last action went; a failure carries the error's text.
#[derive(Debug)]
pub enum StepOutcome {
    Succeeded,
    Failed(String),
}

/// What the caller does next.
#[derive(Debug)]
pub enum WriteAction {
    /// Send a progress message.
    Report(Message),
    /// Rename the file `from` to `to`.
    Rename { from: String, to: String },
    /// Create a file at `path`, failing if one exists there.
    CreateNew { path: String },
    /// Write `content` in full to the file created at `path`.
    WriteAll { path: String, content: String },
    /// Nothing is left to do; `WriteBack::result` tells how it went.
    Done,
}

/// A write-back of `content` to the file at `path`, whose present content
/// goes to `backup_path` first.
#[derive(Debug)]
pub struct WriteBack {
    pub path: String,
    pub backup_path: String,
    pub content: String,
    pub phase: WritePhase,
}

/// The backup name of `path` for a run started at `t`.
pub open spec fn backup_name(path: Seq<char>, t: Timestamp) -> Seq<char> {
    path + ".bkp"@ + stamp_text(t)
}

/// The action that belongs to the phase of `wb`.
pub open spec fn action_for(wb: WriteBack, a: WriteAction) -> bool {
    match wb.phase {
        WritePhase::AnnounceMove => a matches WriteAction::Report(m) && m.content@ == "Moving "@
            + wb.path@ + " to "@ + wb.backup_path@ && m.level == Level::Info,
        WritePhase::Rename => a matches WriteAction::Rename { from, to } && from@ == wb.path@
            && to@ == wb.backup_path@,
        WritePhase::AnnounceWrite => a matches WriteAction::Report(m) && m.content@
            == "Writing new "@ + wb.path@ && m.level == Level::Info,
        WritePhase::Create => a matches WriteAction::CreateNew { path } && path@ == wb.path@,
        WritePhase::Write => a matches WriteAction::WriteAll { path, content } && path@ == wb.path@
            && content@ == wb.content@,
        WritePhase::AnnounceDone => a matches WriteAction::Report(m) && m.content@
            == "Finished writing "@ + wb.path@ && m.level == Level::Info,
        _ => a is Done,
    }
}

/// How the phase moves on with the outcome of its action; everything else
/// stays.
pub open spec fn advanced(old: WriteBack, outcome: StepOutcome, new: WriteBack) -> bool {
    &&& new.path == old.path
    &&& new.backup_path == old.backup_path
    &&& new.content == old.content
    &&& match (old.phase, outcome) {
        (WritePhase::AnnounceMove, StepOutcome::Succeeded) => new.phase is Rename,
        (WritePhase::Rename, StepOutcome::Succeeded) => new.phase is AnnounceWrite,
        (WritePhase::AnnounceWrite, StepOutcome::Succeeded) => new.phase is Create,
        (WritePhase::Create, StepOutcome::Succeeded) => new.phase is Write,
        (WritePhase::Write, StepOutcome::Succeeded) => new.phase is AnnounceDone,
        (WritePhase::AnnounceDone, StepOutcome::Succeeded) => new.phase is Finished,
        (WritePhase::Rename, StepOutcome::Failed(d)) => new.phase matches WritePhase::Failed(
            PersistError::Rename { from, to, detail },
        ) && from@ == old.path@ && to@ == old.backup_path@ && detail == d,
        (WritePhase::Create, StepOutcome::Failed(d)) => new.phase matches WritePhase::Failed(
            PersistError::CreateNew { path, detail },
        ) && path@ == old.path@ && detail == d,
        (WritePhase::Write, StepOutcome::Failed(d)) => new.phase matches WritePhase::Failed(
            PersistError::WriteNew { path, detail },
        ) && path@ == old.path@ && detail == d,
        (WritePhase::AnnounceMove, StepOutcome::Failed(_))
        | (WritePhase::AnnounceWrite, StepOutcome::Failed(_))
        | (WritePhase::AnnounceDone, StepOutcome::Failed(_)) => new.phase matches WritePhase::Failed(
            PersistError::ChannelClosed { path },
        ) && path@ == old.path@,
        _ => new.phase == old.phase,
    }
}

impl WriteBack {
    /// The backup name differs from the file's name.
    pub open spec fn wf(&self) -> bool {
        self.backup_path@ != self.path@
    }

    /// Starts the write-back of `content` to `path` for a run started at `time`.
    pub fn new(path: String, content: String, time: &Timestamp) -> (r: WriteBack)
        requires
            time.wf(),
        ensures
            r.wf(),
            r.path == path,
            r.content == content,
            r.backup_path@ == backup_name(path@, *time),
            r.phase is AnnounceMove,
    {
        let mut backup_path = path.clone();
        backup_path.append(".bkp");
        let stamp = time.backup_stamp();
        backup_path.append(stamp.as_str());
        proof {
            reveal_strlit(".bkp");
            assert(backup_path@.len() > path@.len());
        }
        WriteBack { path, backup_path, content, phase: WritePhase::AnnounceMove }
    }

    /// The action of the present phase.
    pub fn action(&self) -> (r: WriteAction)
        ensures
            action_for(*self, r),
    {
        match &self.phase {
            WritePhase::AnnounceMove => {
                let mut s = String::from_str("Moving ");
                s.append(self.path.as_str());
                s.append(" to ");
                s.append(self.backup_path.as_str());
                WriteAction::Report(Message::info(s))
            },
            WritePhase::Rename => WriteAction::Rename {
                from: self.path.clone(),
                to: self.backup_path.clone(),
            },
            WritePhase::AnnounceWrite => {
                let mut s = String::from_str("Writing new ");
                s.append(self.path.as_str());
                WriteAction::Report(Message::info(s))
            },
            WritePhase::Create => WriteAction::CreateNew { path: self.path.clone() },
            WritePhase::Write => WriteAction::WriteAll {
                path: self.path.clone(),
                content: self.content.clone(),
            },
            WritePhase::AnnounceDone => {
                let mut s = String::from_str("Finished writing ");
                s.append(self.path.as_str());
                WriteAction::Report(Message::info(s))
            },
            _ => WriteAction::Done,
        }
    }

    /// Moves on with the outcome of the action of the present phase.
    pub fn advance(&mut self, outcome: StepOutcome)
        ensures
            advanced(*old(self), outcome, *final(self)),
    {
        let next = match (&self.phase, outcome) {
            (WritePhase::AnnounceMove, StepOutcome::Succeeded) => WritePhase::Rename,
            (WritePhase::Rename, StepOutcome::Succeeded) => WritePhase::AnnounceWrite,
            (WritePhase::AnnounceWrite, StepOutcome::Succeeded) => WritePhase::Create,
            (WritePhase::Create, StepOutcome::Succeeded) => WritePhase::Write,
            (WritePhase::Write, StepOutcome::Succeeded) => WritePhase::AnnounceDone,
            (WritePhase::AnnounceDone, StepOutcome::Succeeded) => WritePhase::Finished,
            (WritePhase::Rename, StepOutcome::Failed(detail)) => WritePhase::Failed(
                PersistError::Rename {
                    from: self.path.clone(),
                    to: self.backup_path.clone(),
                    detail,
                },
            ),
            (WritePhase::Create, StepOutcome::Failed(detail)) => WritePhase::Failed(
                PersistError::CreateNew { path: self.path.clone(), detail },
            ),
            (WritePhase::Write, StepOutcome::Failed(detail)) => WritePhase::Failed(
                PersistError::WriteNew { path: self.path.clone(), detail },
            ),
            (WritePhase::AnnounceMove, StepOutcome::Failed(_))
            | (WritePhase::AnnounceWrite, StepOutcome::Failed(_))
            | (WritePhase::AnnounceDone, StepOutcome::Failed(_)) => WritePhase::Failed(
                PersistError::ChannelClosed { path: self.path.clone() },
            ),
            _ => {
                return;
            },
        };
        self.phase = next;
    }

    /// How a finished write-back went.
    pub fn result(self) -> (r: Result<(), PersistError>)
        requires
            self.phase is Finished || self.phase is Failed,
        ensures
            match self.phase {
                WritePhase::Failed(e) => r == Err::<(), PersistError>(e),
                _ => r is Ok,
            },
    {
        match self.phase {
            WritePhase::Failed(e) => Err(e),
            _ => Ok(()),
        }
    }
}

/// How the files change when the action of the phase of `wb` has the given
/// outcome: a rename moves the content, an exclusive create succeeds only
/// where no file is, a failed write may leave any prefix of the content.
pub open spec fn fs_effect(
    wb: WriteBack,
    outcome: StepOutcome,
    fs: Map<Seq<char>, Seq<char>>,
    fs2: Map<Seq<char>, Seq<char>>,
) -> bool {
    let p = wb.path@;
    let b = wb.backup_path@;
    match (wb.phase, outcome) {
        (WritePhase::Rename, StepOutcome::Succeeded) => fs.contains_key(p) && fs2 == fs.remove(
            p,
        ).insert(b, fs[p]),
        (WritePhase::Create, StepOutcome::Succeeded) => !fs.contains_key(p) && fs2 == fs.insert(
            p,
            Seq::empty(),
        ),
        (WritePhase::Write, StepOutcome::Succeeded) => fs2 == fs.insert(p, wb.content@),
        (WritePhase::Write, StepOutcome::Failed(_)) => exists|n: int|
            0 <= n <= wb.content@.len() && fs2 == fs.insert(p, wb.content@.take(n)),
        _ => fs2 == fs,
    }
}

/// Where the original content `original` of the file is kept in each phase.
pub open spec fn content_safe(
    wb: WriteBack,
    fs: Map<Seq<char>, Seq<char>>,
    original: Seq<char>,
) -> bool {
    let p = wb.path@;
    let b = wb.backup_path@;
    match wb.phase {
        WritePhase::AnnounceMove | WritePhase::Rename => fs.contains_key(p) && fs[p] == original,
        WritePhase::AnnounceWrite | WritePhase::Create | WritePhase::Write => fs.contains_key(b)
            && fs[b] == original,
        WritePhase::AnnounceDone | WritePhase::Finished => fs.contains_key(b) && fs[b] == original
            && fs.contains_key(p) && fs[p] == wb.content@,
        WritePhase::Failed(_) => (fs.contains_key(p) && fs[p] == original) || (fs.contains_key(b)
            && fs[b] == original),
    }
}

/// Backup before write: whatever the outcome of each step, the original
/// content stays at the file's path until the rename has moved it to the
/// backup path, and stays at the backup path from then on, also when creating
/// or writing the new file fails. A write-back that finishes leaves the
/// original content at the backup path and the new content at the file's
/// path. A new write-back starts in a phase where this holds as soon as the
/// file holds its original content.
pub proof fn lemma_backup_before_write(
    wb: WriteBack,
    outcome: StepOutcome,
    next: WriteBack,
    fs: Map<Seq<char>, Seq<char>>,
    fs2: Map<Seq<char>, Seq<char>>,
    original: Seq<char>,
)
    requires
        wb.wf(),
        content_safe(wb, fs, original),
        advanced(wb, outcome, next),
        fs_effect(wb, outcome, fs, fs2),
    ensures
        next.wf(),
        content_safe(next, fs2, original),
{
}

} // verus!
