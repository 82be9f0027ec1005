//! The materialization of a snapshot, as the decisions taken between the
//! steps of fetching, reading and writing that a driver performs.

use vstd::prelude::*;
use crate::archive::{
    archive_format, archive_url, archive_url_of, check_status, format_of, progress_for,
    progress_mode, status_verdict, ArchiveFormat, MaterializeError, ProgressMode,
};
use crate::reference::Repo;

verus! {

/// The path of an archive entry without its first component, the root that
/// wraps every entry of a snapshot; `None` for a path without components.
pub open spec fn without_root(path: Seq<Seq<char>>) -> Option<Seq<Seq<char>>> {
    if path.len() == 0 {
        None
    } else {
        Some(path.subrange(1, path.len() as int))
    }
}

/// Strips the first component from an entry's path, given component by
/// component.
pub fn strip_root(path: &Vec<String>) -> (r: Option<Vec<String>>)
    ensures
        r.deep_view() == without_root(path.deep_view()),
{
    if path.len() == 0 {
        return None;
    }
    let mut rest: Vec<String> = Vec::new();
    let mut i: usize = 1;
    while i < path.len()
        invariant
            1 <= i <= path@.len(),
            rest@.len() == i - 1,
            forall|j: int| 0 <= j < rest@.len() ==> rest@[j]@ == path@[j + 1]@,
        decreases path@.len() - i,
    {
        rest.push(path[i].clone());
        i += 1;
    }
    assert(rest.deep_view() =~= path.deep_view().subrange(1, path@.len() as int));
    Some(rest)
}

/// Where a materialization stands.
#[derive(Debug, Clone, Copy, PartialEq, Eq)]
pub enum Stage {
    /// The request is under way and no response has been judged.
    Requesting,
    /// The archive is open and its next entry is awaited.
    Reading,
    /// An entry was handed out to be written and the result is awaited.
    Writing,
    /// The materialization has ended, well or badly.
    Finished,
}

/// How many entries were written and how many were passed over.
#[derive(Debug, Clone, Copy, PartialEq, Eq)]
pub struct Tally {
    pub unpacked: u64,
    pub skipped: u64,
}

/// The decisions of one materialization.
#[derive(Debug, Clone, Copy, PartialEq, Eq)]
pub struct Materializer {
    pub format: ArchiveFormat,
    pub stage: Stage,
    pub tally: Tally,
}

/// What the driver reports.
#[derive(Debug, Clone, PartialEq, Eq)]
pub enum Event {
    /// The provider answered with this status and declared this length.
    Response { status: u16, content_length: Option<u64> },
    /// The request could not be made, or the stream could not be opened.
    TransportFailure,
    /// The archive yielded an entry with this path, component by component.
    Entry(Vec<String>),
    /// The archive yielded an entry that could not be read.
    UnreadableEntry,
    /// The entry handed out was written (`true`) or could not be (`false`).
    Written(bool),
    /// The archive has no further entry.
    End,
}

/// What the driver is to do next.
#[derive(Debug, Clone, PartialEq, Eq)]
pub enum Action {
    /// Open the response body as a gzip-compressed tar stream and show
    /// progress in this mode.
    Open(ProgressMode),
    /// Write the entry just read at this path below the destination.
    Write(Vec<String>),
    /// Read the next entry.
    Next,
    /// Stop: the snapshot is materialized.
    Finish(Tally),
    /// Stop: the materialization failed.
    Fail(MaterializeError),
    /// Nothing: the event did not fit the stage and was ignored.
    Ignore,
}

/// Mathematical model of an [`Event`].
pub enum EventModel {
    Response { status: u16, content_length: Option<u64> },
    TransportFailure,
    Entry(Seq<Seq<char>>),
    UnreadableEntry,
    Written(bool),
    End,
}

/// Mathematical model of an [`Action`].
pub enum ActionModel {
    Open(ProgressMode),
    Write(Seq<Seq<char>>),
    Next,
    Finish(Tally),
    Fail(MaterializeError),
    Ignore,
}

impl View for Event {
    type V = EventModel;

    open spec fn view(&self) -> EventModel {
        match self {
            Event::Response { status, content_length } => EventModel::Response {
                status: *status,
                content_length: *content_length,
            },
            Event::TransportFailure => EventModel::TransportFailure,
            Event::Entry(path) => EventModel::Entry(path.deep_view()),
            Event::UnreadableEntry => EventModel::UnreadableEntry,
            Event::Written(ok) => EventModel::Written(*ok),
            Event::End => EventModel::End,
        }
    }
}

impl View for Action {
    type V = ActionModel;

    open spec fn view(&self) -> ActionModel {
        match self {
            Action::Open(mode) => ActionModel::Open(*mode),
            Action::Write(path) => ActionModel::Write(path.deep_view()),
            Action::Next => ActionModel::Next,
            Action::Finish(tally) => ActionModel::Finish(*tally),
            Action::Fail(error) => ActionModel::Fail(*error),
            Action::Ignore => ActionModel::Ignore,
        }
    }
}

/// One more, stopping at the largest value.
pub open spec fn bump(n: u64) -> u64 {
    if n < u64::MAX {
        (n + 1) as u64
    } else {
        n
    }
}

impl Tally {
    /// The tally after one more entry was written.
    pub open spec fn one_unpacked(self) -> Tally {
        Tally { unpacked: bump(self.unpacked), skipped: self.skipped }
    }

    /// The tally after one more entry was passed over.
    pub open spec fn one_skipped(self) -> Tally {
        Tally { unpacked: self.unpacked, skipped: bump(self.skipped) }
    }
}

impl Materializer {
    /// The machine at another stage.
    pub open spec fn at(self, stage: Stage) -> Materializer {
        Materializer { format: self.format, stage, tally: self.tally }
    }

    /// The machine with another tally, awaiting the next entry.
    pub open spec fn reading(self, tally: Tally) -> Materializer {
        Materializer { format: self.format, stage: Stage::Reading, tally }
    }

    /// The machine before any response: nothing written, nothing skipped.
    pub open spec fn initial(format: ArchiveFormat) -> Materializer {
        Materializer {
            format,
            stage: Stage::Requesting,
            tally: Tally { unpacked: 0, skipped: 0 },
        }
    }

    /// The transition relation: the machine after `event`, and what the
    /// driver is to do.
    ///
    /// While requesting, the response is judged by its status first and by
    /// the archive format second. While reading, an entry whose path has no
    /// component to strip, or that cannot be read, is skipped; any other is
    /// handed out with its path stripped of the root. A failed write is one
    /// more skipped entry. An event that does not fit the stage changes
    /// nothing.
    pub open spec fn next(self, event: EventModel) -> (Materializer, ActionModel) {
        match (self.stage, event) {
            (Stage::Requesting, EventModel::Response { status, content_length }) => {
                match status_verdict(status) {
                    Err(error) => (self.at(Stage::Finished), ActionModel::Fail(error)),
                    Ok(_) => if self.format == ArchiveFormat::TarGz {
                        (self.at(Stage::Reading), ActionModel::Open(progress_for(content_length)))
                    } else {
                        (
                            self.at(Stage::Finished),
                            ActionModel::Fail(MaterializeError::UnsupportedArchiveFormat),
                        )
                    },
                }
            },
            (Stage::Requesting, EventModel::TransportFailure) => (
                self.at(Stage::Finished),
                ActionModel::Fail(MaterializeError::TransportError),
            ),
            (Stage::Reading, EventModel::TransportFailure) => (
                self.at(Stage::Finished),
                ActionModel::Fail(MaterializeError::TransportError),
            ),
            (Stage::Reading, EventModel::Entry(path)) => match without_root(path) {
                Some(rest) => (self.at(Stage::Writing), ActionModel::Write(rest)),
                None => (self.reading(self.tally.one_skipped()), ActionModel::Next),
            },
            (Stage::Reading, EventModel::UnreadableEntry) => (
                self.reading(self.tally.one_skipped()),
                ActionModel::Next,
            ),
            (Stage::Reading, EventModel::End) => (
                self.at(Stage::Finished),
                ActionModel::Finish(self.tally),
            ),
            (Stage::Writing, EventModel::Written(ok)) => if ok {
                (self.reading(self.tally.one_unpacked()), ActionModel::Next)
            } else {
                (self.reading(self.tally.one_skipped()), ActionModel::Next)
            },
            _ => (self, ActionModel::Ignore),
        }
    }
}

/// One more, stopping at the largest value.
fn bumped(n: u64) -> (r: u64)
    ensures
        r == bump(n),
{
    if n < u64::MAX {
        n + 1
    } else {
        n
    }
}

impl Materializer {
    /// Starts the materialization of `repo`: the machine before any response,
    /// and the address that the driver is to request.
    pub fn begin(repo: &Repo) -> (r: (Materializer, String))
        ensures
            r.0 == Materializer::initial(format_of(repo@.host)),
            r.1@ == archive_url_of(repo@),
    {
        let machine = Materializer {
            format: archive_format(&repo.host),
            stage: Stage::Requesting,
            tally: Tally { unpacked: 0, skipped: 0 },
        };
        (machine, archive_url(repo))
    }

    /// Takes in what the driver reports and says what it is to do next.
    pub fn step(&mut self, event: Event) -> (action: Action)
        ensures
            (*final(self), action@) == old(self).next(event@),
    {
        match (self.stage, event) {
            (Stage::Requesting, Event::Response { status, content_length }) => {
                match check_status(status) {
                    Err(error) => {
                        self.stage = Stage::Finished;
                        Action::Fail(error)
                    },
                    Ok(_) => match self.format {
                        ArchiveFormat::TarGz => {
                            self.stage = Stage::Reading;
                            Action::Open(progress_mode(content_length))
                        },
                        ArchiveFormat::Zip => {
                            self.stage = Stage::Finished;
                            Action::Fail(MaterializeError::UnsupportedArchiveFormat)
                        },
                    },
                }
            },
            (Stage::Requesting, Event::TransportFailure) => {
                self.stage = Stage::Finished;
                Action::Fail(MaterializeError::TransportError)
            },
            (Stage::Reading, Event::TransportFailure) => {
                self.stage = Stage::Finished;
                Action::Fail(MaterializeError::TransportError)
            },
            (Stage::Reading, Event::Entry(path)) => match strip_root(&path) {
                Some(rest) => {
                    self.stage = Stage::Writing;
                    Action::Write(rest)
                },
                None => {
                    self.tally.skipped = bumped(self.tally.skipped);
                    Action::Next
                },
            },
            (Stage::Reading, Event::UnreadableEntry) => {
                self.tally.skipped = bumped(self.tally.skipped);
                Action::Next
            },
            (Stage::Reading, Event::End) => {
                self.stage = Stage::Finished;
                Action::Finish(self.tally)
            },
            (Stage::Writing, Event::Written(ok)) => {
                self.stage = Stage::Reading;
                if ok {
                    self.tally.unpacked = bumped(self.tally.unpacked);
                } else {
                    self.tally.skipped = bumped(self.tally.skipped);
                }
                Action::Next
            },
            _ => Action::Ignore,
        }
    }
}

/// A finished materialization stays finished: it ignores every event.
pub proof fn law_finished_is_final(machine: Materializer, event: EventModel)
    requires
        machine.stage == Stage::Finished,
    ensures
        machine.next(event) == (machine, ActionModel::Ignore),
{
}

/// A response with status 401 ends the materialization with
/// `RepositoryNotFound`, whatever the provider and whatever length the
/// response declares; a transport error is reported only for a transport
/// failure.
pub proof fn law_unauthorized_is_not_found(machine: Materializer, content_length: Option<u64>)
    requires
        machine.stage == Stage::Requesting,
    ensures
        machine.next(EventModel::Response { status: 401, content_length }) == (
            machine.at(Stage::Finished),
            ActionModel::Fail(MaterializeError::RepositoryNotFound),
        ),
        forall|status: u16|
            (#[trigger] machine.next(EventModel::Response { status, content_length })).1
                != ActionModel::Fail(MaterializeError::TransportError),
{
}

/// The driver is told whether the total size is known before any entry is
/// read: the archive is opened with a determinate display exactly when the
/// response declares its length, and then with that length.
pub proof fn law_progress_follows_declared_length(
    machine: Materializer,
    content_length: Option<u64>,
)
    requires
        machine.stage == Stage::Requesting,
        machine.format == ArchiveFormat::TarGz,
    ensures
        machine.next(EventModel::Response { status: 200, content_length }).1 == (
            match content_length {
                Some(total) => ActionModel::Open(ProgressMode::Determinate(total)),
                None => ActionModel::Open(ProgressMode::Indeterminate),
            }
        ),
{
}

/// A snapshot that is not a gzip-compressed tar stream is never opened: a
/// good response ends in `UnsupportedArchiveFormat`.
pub proof fn law_zip_is_not_opened(machine: Materializer, event: EventModel)
    requires
        machine.format == ArchiveFormat::Zip,
    ensures
        !(machine.next(event).1 is Open),
        machine.stage == Stage::Requesting ==> machine.next(
            EventModel::Response { status: 200, content_length: None },
        ).1 == ActionModel::Fail(MaterializeError::UnsupportedArchiveFormat),
{
}

/// Every path handed out for writing is the entry's path without its first
/// component, so nothing is written under the name of the archive's root.
pub proof fn law_written_path_lacks_root(machine: Materializer, path: Seq<Seq<char>>)
    requires
        machine.stage == Stage::Reading,
    ensures
        match machine.next(EventModel::Entry(path)).1 {
            ActionModel::Write(rest) => {
                &&& path.len() > 0
                &&& rest.len() == path.len() - 1
                &&& forall|i: int| 0 <= i < rest.len() ==> rest[i] == path[i + 1]
            },
            ActionModel::Next => path.len() == 0,
            _ => false,
        },
{
}

/// No trouble with a single entry ends the materialization: an entry that
/// cannot be read, has no path to strip or cannot be written is counted as
/// skipped, and the next entry is asked for.
pub proof fn law_entry_trouble_is_skipped(machine: Materializer)
    ensures
        machine.stage == Stage::Reading ==> {
            &&& machine.next(EventModel::UnreadableEntry) == (
                machine.reading(machine.tally.one_skipped()),
                ActionModel::Next,
            )
            &&& machine.next(EventModel::Entry(Seq::empty())) == (
                machine.reading(machine.tally.one_skipped()),
                ActionModel::Next,
            )
        },
        machine.stage == Stage::Writing ==> machine.next(EventModel::Written(false)) == (
            machine.reading(machine.tally.one_skipped()),
            ActionModel::Next,
        ),
{
}

/// The tally only grows, and only at the end of an entry: by one written or
/// one skipped entry, never both, until the counter is full.
pub proof fn law_tally_counts_each_entry_once(machine: Materializer, event: EventModel)
    ensures
        ({
            let after = machine.next(event).0.tally;
            let before = machine.tally;
            ||| after == before
            ||| after == before.one_unpacked()
            ||| after == before.one_skipped()
        }),
        machine.next(event).1 is Finish ==> machine.next(event).1 == ActionModel::Finish(
            machine.tally,
        ),
{
}

} // verus!
