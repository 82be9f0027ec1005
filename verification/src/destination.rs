//! The rules that a destination directory must meet before anything is
//! fetched, and the lexical resolution of a relative destination.

use vstd::prelude::*;
use vstd::string::*;

verus! {

/// Why a destination is refused.
#[derive(Debug, Clone, Copy, PartialEq, Eq)]
pub enum DestinationError {
    /// The destination exists and is not a directory.
    NotADirectory,
    /// The destination is a directory that holds something.
    DirectoryNotEmpty,
    /// The nearest existing ancestor of the destination is read-only.
    ReadOnlyDestination,
}

impl DestinationError {
    /// The message shown for this error.
    pub open spec fn message_text(self) -> Seq<char> {
        match self {
            DestinationError::NotADirectory => "Destination is not a directory."@,
            DestinationError::DirectoryNotEmpty => "Directory is not empty."@,
            DestinationError::ReadOnlyDestination => "Directory is read-only."@,
        }
    }

    /// The message shown for this error.
    pub fn message(&self) -> (r: String)
        ensures
            r@ == self.message_text(),
    {
        match self {
            DestinationError::NotADirectory => String::from_str("Destination is not a directory."),
            DestinationError::DirectoryNotEmpty => String::from_str("Directory is not empty."),
            DestinationError::ReadOnlyDestination => String::from_str("Directory is read-only."),
        }
    }
}

/// What stands at the destination path.
#[derive(Debug, Clone, Copy, PartialEq, Eq)]
pub enum Occupant {
    /// Nothing: the path does not exist.
    Nothing,
    /// Something that is not a directory.
    File,
    /// A directory with this many entries.
    Directory { entries: u64 },
}

/// What the occupant of the destination path allows: a file is refused, a
/// directory is refused unless it is empty, and a path that does not exist
/// yet is let through.
pub open spec fn occupancy_verdict(occupant: Occupant) -> Result<(), DestinationError> {
    match occupant {
        Occupant::Nothing => Ok(()),
        Occupant::File => Err(DestinationError::NotADirectory),
        Occupant::Directory { entries } => if entries == 0 {
            Ok(())
        } else {
            Err(DestinationError::DirectoryNotEmpty)
        },
    }
}

/// Judges what stands at the destination path.
pub fn check_occupant(occupant: Occupant) -> (r: Result<(), DestinationError>)
    ensures
        r == occupancy_verdict(occupant),
{
    match occupant {
        Occupant::Nothing => Ok(()),
        Occupant::File => Err(DestinationError::NotADirectory),
        Occupant::Directory { entries } => if entries == 0 {
            Ok(())
        } else {
            Err(DestinationError::DirectoryNotEmpty)
        },
    }
}

/// The verdict on a destination, from what stands at its path and from
/// whether its nearest existing ancestor is read-only. The occupant is judged
/// first; only a destination that passes is refused for a read-only ancestor.
pub open spec fn verdict(occupant: Occupant, read_only: bool) -> Result<(), DestinationError> {
    match occupancy_verdict(occupant) {
        Err(error) => Err(error),
        Ok(_) => if read_only {
            Err(DestinationError::ReadOnlyDestination)
        } else {
            Ok(())
        },
    }
}

/// Validates a destination from the two facts that decide: `Ok` exactly when
/// [`verdict`] accepts, otherwise the message of the error.
pub fn validate_dest(occupant: Occupant, read_only: bool) -> (r: Result<(), String>)
    ensures
        match verdict(occupant, read_only) {
            Ok(_) => r is Ok,
            Err(e) => r matches Err(m) && m@ == e.message_text(),
        },
{
    match check_occupant(occupant) {
        Err(error) => Err(error.message()),
        Ok(_) => if read_only {
            Err(DestinationError::ReadOnlyDestination.message())
        } else {
            Ok(())
        },
    }
}

/// One component of a relative path, read lexically.
#[derive(Debug, Clone, PartialEq, Eq)]
pub enum Component {
    /// The parent directory.
    Parent,
    /// A directory or file of this name.
    Normal(String),
    /// Anything else, such as the current directory: it leads nowhere.
    Other,
}

/// Mathematical model of a [`Component`].
pub enum ComponentModel {
    Parent,
    Normal(Seq<char>),
    Other,
}

impl View for Component {
    type V = ComponentModel;

    open spec fn view(&self) -> ComponentModel {
        match self {
            Component::Parent => ComponentModel::Parent,
            Component::Normal(name) => ComponentModel::Normal(name@),
            Component::Other => ComponentModel::Other,
        }
    }
}

impl DeepView for Component {
    type V = ComponentModel;

    open spec fn deep_view(&self) -> ComponentModel {
        self@
    }
}

/// An absolute path as the names of its components below the root.
pub type PathModel = Seq<Seq<char>>;

/// The path reached from `base` by one component: a parent component pops
/// one level, and stays at the root where there is none to pop; a normal
/// component pushes one level; any other changes nothing.
pub open spec fn apply(base: PathModel, component: ComponentModel) -> PathModel {
    match component {
        ComponentModel::Parent => if base.len() > 0 {
            base.drop_last()
        } else {
            base
        },
        ComponentModel::Normal(name) => base.push(name),
        ComponentModel::Other => base,
    }
}

/// The path reached from `base` by applying `components` in turn, without
/// regard to what exists on disk.
pub open spec fn resolved(base: PathModel, components: Seq<ComponentModel>) -> PathModel
    decreases components.len(),
{
    if components.len() == 0 {
        base
    } else {
        apply(resolved(base, components.drop_last()), components.last())
    }
}

/// Resolves a relative path against `base`, component by component and
/// purely lexically.
pub fn resolve_lexically(base: Vec<String>, components: &Vec<Component>) -> (path: Vec<String>)
    ensures
        path.deep_view() == resolved(base.deep_view(), components.deep_view()),
{
    let mut path = base;
    let mut i: usize = 0;
    while i < components.len()
        invariant
            i <= components@.len(),
            path.deep_view() == resolved(
                base.deep_view(),
                components.deep_view().subrange(0, i as int),
            ),
        decreases components@.len() - i,
    {
        let ghost before = path.deep_view();
        let ghost prefix = components.deep_view().subrange(0, i as int);
        let ghost longer = components.deep_view().subrange(0, i + 1);
        match &components[i] {
            Component::Parent => {
                if path.len() > 0 {
                    path.pop();
                }
            },
            Component::Normal(name) => {
                path.push(name.clone());
            },
            Component::Other => {},
        }
        proof {
            assert(longer.drop_last() =~= prefix);
            assert(longer.last() == components[i as int]@);
            assert(path.deep_view() =~= apply(before, components[i as int]@));
        }
        i += 1;
    }
    assert(components.deep_view().subrange(0, i as int) =~= components.deep_view());
    path
}

/// A destination as it was written, read lexically.
#[derive(Debug, Clone, PartialEq, Eq)]
pub enum Destination {
    /// An absolute path: the names of its components below the root.
    Absolute(Vec<String>),
    /// A relative path: its components, to be resolved against the working
    /// directory.
    Relative(Vec<Component>),
}

/// Mathematical model of a [`Destination`].
pub enum DestinationModel {
    Absolute(PathModel),
    Relative(Seq<ComponentModel>),
}

impl View for Destination {
    type V = DestinationModel;

    open spec fn view(&self) -> DestinationModel {
        match self {
            Destination::Absolute(path) => DestinationModel::Absolute(path.deep_view()),
            Destination::Relative(components) => DestinationModel::Relative(
                components.deep_view(),
            ),
        }
    }
}

/// Where the check of a destination stands.
#[derive(Debug, Clone, PartialEq, Eq)]
pub enum Phase {
    /// It was asked what stands at the destination.
    Inspecting,
    /// The working directory was asked for.
    Locating,
    /// It was asked whether this path exists.
    Ascending(Vec<String>),
    /// It was asked whether this path, the nearest existing ancestor, is
    /// read-only.
    Judging(Vec<String>),
    /// The destination is accepted.
    Accepted,
    /// The destination is refused.
    Refused(DestinationError),
}

/// Mathematical model of a [`Phase`].
pub enum PhaseModel {
    Inspecting,
    Locating,
    Ascending(PathModel),
    Judging(PathModel),
    Accepted,
    Refused(DestinationError),
}

impl View for Phase {
    type V = PhaseModel;

    open spec fn view(&self) -> PhaseModel {
        match self {
            Phase::Inspecting => PhaseModel::Inspecting,
            Phase::Locating => PhaseModel::Locating,
            Phase::Ascending(path) => PhaseModel::Ascending(path.deep_view()),
            Phase::Judging(path) => PhaseModel::Judging(path.deep_view()),
            Phase::Accepted => PhaseModel::Accepted,
            Phase::Refused(error) => PhaseModel::Refused(*error),
        }
    }
}

/// What the driver found out.
#[derive(Debug, Clone, PartialEq, Eq)]
pub enum Finding {
    /// What stands at the destination.
    Occupant(Occupant),
    /// The working directory, as the names of its components below the root.
    WorkingDirectory(Vec<String>),
    /// Whether the path asked about exists.
    Exists(bool),
    /// Whether the path asked about is read-only.
    ReadOnly(bool),
}

/// Mathematical model of a [`Finding`].
pub enum FindingModel {
    Occupant(Occupant),
    WorkingDirectory(PathModel),
    Exists(bool),
    ReadOnly(bool),
}

impl View for Finding {
    type V = FindingModel;

    open spec fn view(&self) -> FindingModel {
        match self {
            Finding::Occupant(occupant) => FindingModel::Occupant(*occupant),
            Finding::WorkingDirectory(path) => FindingModel::WorkingDirectory(path.deep_view()),
            Finding::Exists(yes) => FindingModel::Exists(*yes),
            Finding::ReadOnly(yes) => FindingModel::ReadOnly(*yes),
        }
    }
}

/// What the driver is to find out or to conclude.
#[derive(Debug, Clone, PartialEq, Eq)]
pub enum Query {
    /// Name the working directory.
    WorkingDirectory,
    /// Say whether this path exists.
    Exists(Vec<String>),
    /// Say whether this path is read-only.
    ReadOnly(Vec<String>),
    /// The destination is accepted.
    Accept,
    /// The destination is refused.
    Reject(DestinationError),
    /// Nothing: the finding did not fit the phase and was ignored.
    Ignore,
}

/// Mathematical model of a [`Query`].
pub enum QueryModel {
    WorkingDirectory,
    Exists(PathModel),
    ReadOnly(PathModel),
    Accept,
    Reject(DestinationError),
    Ignore,
}

impl View for Query {
    type V = QueryModel;

    open spec fn view(&self) -> QueryModel {
        match self {
            Query::WorkingDirectory => QueryModel::WorkingDirectory,
            Query::Exists(path) => QueryModel::Exists(path.deep_view()),
            Query::ReadOnly(path) => QueryModel::ReadOnly(path.deep_view()),
            Query::Accept => QueryModel::Accept,
            Query::Reject(error) => QueryModel::Reject(*error),
            Query::Ignore => QueryModel::Ignore,
        }
    }
}

/// The check of one destination: the decisions between the driver's looks at
/// the file system.
#[derive(Debug, Clone, PartialEq, Eq)]
pub struct Checker {
    pub destination: Destination,
    pub phase: Phase,
}

/// Mathematical model of a [`Checker`].
pub struct CheckerModel {
    pub destination: DestinationModel,
    pub phase: PhaseModel,
}

impl View for Checker {
    type V = CheckerModel;

    open spec fn view(&self) -> CheckerModel {
        CheckerModel { destination: self.destination@, phase: self.phase@ }
    }
}

impl CheckerModel {
    /// The check at another phase.
    pub open spec fn at(self, phase: PhaseModel) -> CheckerModel {
        CheckerModel { destination: self.destination, phase }
    }

    /// The check of `destination` before anything is known.
    pub open spec fn initial(destination: DestinationModel) -> CheckerModel {
        CheckerModel { destination, phase: PhaseModel::Inspecting }
    }

    /// The transition relation: the check after `finding`, and what the
    /// driver is to do.
    ///
    /// The occupant of the destination is judged first. A destination that
    /// passes is made absolute, a relative one against the working directory,
    /// and the walk upward starts there: a path that does not exist gives way
    /// to its parent, until one exists or the root is reached. Whether that
    /// ancestor is read-only settles the check. A finding that does not fit
    /// the phase changes nothing.
    pub open spec fn next(self, finding: FindingModel) -> (CheckerModel, QueryModel) {
        match (self.phase, finding) {
            (PhaseModel::Inspecting, FindingModel::Occupant(occupant)) => {
                match occupancy_verdict(occupant) {
                    Err(error) => (
                        self.at(PhaseModel::Refused(error)),
                        QueryModel::Reject(error),
                    ),
                    Ok(_) => match self.destination {
                        DestinationModel::Absolute(path) => (
                            self.at(PhaseModel::Ascending(path)),
                            QueryModel::Exists(path),
                        ),
                        DestinationModel::Relative(_) => (
                            self.at(PhaseModel::Locating),
                            QueryModel::WorkingDirectory,
                        ),
                    },
                }
            },
            (PhaseModel::Locating, FindingModel::WorkingDirectory(base)) => {
                match self.destination {
                    DestinationModel::Relative(components) => {
                        let path = resolved(base, components);
                        (self.at(PhaseModel::Ascending(path)), QueryModel::Exists(path))
                    },
                    DestinationModel::Absolute(path) => (
                        self.at(PhaseModel::Ascending(path)),
                        QueryModel::Exists(path),
                    ),
                }
            },
            (PhaseModel::Ascending(path), FindingModel::Exists(yes)) => {
                if yes || path.len() == 0 {
                    (self.at(PhaseModel::Judging(path)), QueryModel::ReadOnly(path))
                } else {
                    (
                        self.at(PhaseModel::Ascending(path.drop_last())),
                        QueryModel::Exists(path.drop_last()),
                    )
                }
            },
            (PhaseModel::Judging(_), FindingModel::ReadOnly(yes)) => {
                if yes {
                    (
                        self.at(PhaseModel::Refused(DestinationError::ReadOnlyDestination)),
                        QueryModel::Reject(DestinationError::ReadOnlyDestination),
                    )
                } else {
                    (self.at(PhaseModel::Accepted), QueryModel::Accept)
                }
            },
            _ => (self, QueryModel::Ignore),
        }
    }
}

/// A copy of a path.
fn copy_path(path: &Vec<String>) -> (copy: Vec<String>)
    ensures
        copy.deep_view() == path.deep_view(),
{
    let mut copy: Vec<String> = Vec::new();
    let mut i: usize = 0;
    while i < path.len()
        invariant
            i <= path@.len(),
            copy@.len() == i,
            forall|j: int| 0 <= j < i ==> copy@[j]@ == path@[j]@,
        decreases path@.len() - i,
    {
        copy.push(path[i].clone());
        i += 1;
    }
    assert(copy.deep_view() =~= path.deep_view());
    copy
}

/// The parent of a path that is not the root.
fn parent_of(path: &Vec<String>) -> (parent: Vec<String>)
    requires
        path@.len() > 0,
    ensures
        parent.deep_view() == path.deep_view().drop_last(),
{
    let mut parent = copy_path(path);
    parent.pop();
    assert(parent.deep_view() =~= path.deep_view().drop_last());
    parent
}

impl Checker {
    /// Starts the check of `destination`. The driver first reports what
    /// stands at the destination.
    pub fn begin(destination: Destination) -> (checker: Checker)
        ensures
            checker@ == CheckerModel::initial(destination@),
    {
        Checker { destination, phase: Phase::Inspecting }
    }

    /// The phase and the query that follow `finding`, or `None` where the
    /// finding does not fit the phase.
    fn decide(&self, finding: Finding) -> (r: Option<(Phase, Query)>)
        ensures
            match r {
                Some((phase, query)) => (self@.at(phase@), query@) == self@.next(finding@),
                None => (self@, QueryModel::Ignore) == self@.next(finding@),
            },
    {
        match (&self.phase, finding) {
            (Phase::Inspecting, Finding::Occupant(occupant)) => match check_occupant(occupant) {
                Err(error) => Some((Phase::Refused(error), Query::Reject(error))),
                Ok(_) => match &self.destination {
                    Destination::Absolute(path) => Some(
                        (Phase::Ascending(copy_path(path)), Query::Exists(copy_path(path))),
                    ),
                    Destination::Relative(_) => Some((Phase::Locating, Query::WorkingDirectory)),
                },
            },
            (Phase::Locating, Finding::WorkingDirectory(base)) => match &self.destination {
                Destination::Relative(components) => {
                    let path = resolve_lexically(base, components);
                    Some((Phase::Ascending(copy_path(&path)), Query::Exists(path)))
                },
                Destination::Absolute(path) => Some(
                    (Phase::Ascending(copy_path(path)), Query::Exists(copy_path(path))),
                ),
            },
            (Phase::Ascending(path), Finding::Exists(yes)) => {
                if yes || path.len() == 0 {
                    Some((Phase::Judging(copy_path(path)), Query::ReadOnly(copy_path(path))))
                } else {
                    Some((Phase::Ascending(parent_of(path)), Query::Exists(parent_of(path))))
                }
            },
            (Phase::Judging(_), Finding::ReadOnly(yes)) => {
                if yes {
                    Some(
                        (
                            Phase::Refused(DestinationError::ReadOnlyDestination),
                            Query::Reject(DestinationError::ReadOnlyDestination),
                        ),
                    )
                } else {
                    Some((Phase::Accepted, Query::Accept))
                }
            },
            _ => None,
        }
    }

    /// Takes in what the driver found out and says what it is to do next.
    pub fn step(&mut self, finding: Finding) -> (query: Query)
        ensures
            (final(self)@, query@) == old(self)@.next(finding@),
    {
        match self.decide(finding) {
            Some((phase, query)) => {
                self.phase = phase;
                query
            },
            None => Query::Ignore,
        }
    }
}

/// The nearest existing ancestor of `path` where `present` says what exists:
/// the path itself if it present, else that of its parent, the root at the
/// latest.
pub open spec fn nearest_existing(path: PathModel, present: spec_fn(PathModel) -> bool) -> PathModel
    decreases path.len(),
{
    if path.len() == 0 || present(path) {
        path
    } else {
        nearest_existing(path.drop_last(), present)
    }
}

/// The absolute path of a destination when `base` is the working directory.
pub open spec fn absolute(destination: DestinationModel, base: PathModel) -> PathModel {
    match destination {
        DestinationModel::Absolute(path) => path,
        DestinationModel::Relative(components) => resolved(base, components),
    }
}

/// The phase that stands for a verdict.
pub open spec fn settled(verdict: Result<(), DestinationError>) -> PhaseModel {
    match verdict {
        Ok(_) => PhaseModel::Accepted,
        Err(error) => PhaseModel::Refused(error),
    }
}

impl CheckerModel {
    /// How far the check is from the end of its walk upward.
    pub open spec fn climb(self) -> nat {
        match self.phase {
            PhaseModel::Ascending(path) => path.len() + 1,
            _ => 0,
        }
    }

    /// The check after its walk upward was driven to the end, each question
    /// answered by `present`.
    pub open spec fn ascended(self, present: spec_fn(PathModel) -> bool) -> CheckerModel
        decreases self.climb(),
    {
        match self.phase {
            PhaseModel::Ascending(path) => self.next(FindingModel::Exists(present(path))).0.ascended(
                present,
            ),
            _ => self,
        }
    }

    /// The phase in which the check ends when the driver answers every query
    /// from one state of the file system: `occupant` stands at the
    /// destination, `base` is the working directory, and `present` and
    /// `read_only` say what holds of each path.
    pub open spec fn run(
        self,
        occupant: Occupant,
        base: PathModel,
        present: spec_fn(PathModel) -> bool,
        read_only: spec_fn(PathModel) -> bool,
    ) -> PhaseModel {
        let (inspected, query) = self.next(FindingModel::Occupant(occupant));
        let located = if query is WorkingDirectory {
            inspected.next(FindingModel::WorkingDirectory(base)).0
        } else {
            inspected
        };
        let ascended = located.ascended(present);
        match ascended.phase {
            PhaseModel::Judging(path) => ascended.next(
                FindingModel::ReadOnly(read_only(path)),
            ).0.phase,
            phase => phase,
        }
    }
}

/// The walk upward ends at the nearest existing ancestor of the path it
/// started from, and asks for the permissions of that path.
pub proof fn law_walk_finds_nearest_existing(
    checker: CheckerModel,
    path: PathModel,
    present: spec_fn(PathModel) -> bool,
)
    requires
        checker.phase == PhaseModel::Ascending(path),
    ensures
        checker.ascended(present) == checker.at(
            PhaseModel::Judging(nearest_existing(path, present)),
        ),
    decreases path.len(),
{
    if path.len() == 0 || present(path) {
        let judged = checker.next(FindingModel::Exists(present(path))).0;
        assert(judged.ascended(present) == judged);
    } else {
        let higher = checker.at(PhaseModel::Ascending(path.drop_last()));
        law_walk_finds_nearest_existing(higher, path.drop_last(), present);
        assert(higher.at(PhaseModel::Judging(nearest_existing(path.drop_last(), present)))
            == checker.at(PhaseModel::Judging(nearest_existing(path, present))));
    }
}

/// A check that is driven from one state of the file system ends on the
/// verdict of the rules: the occupant of the destination is judged first, and
/// a destination that passes is accepted unless the nearest existing ancestor
/// of its absolute path is read-only.
pub proof fn law_check_ends_on_verdict(
    destination: DestinationModel,
    occupant: Occupant,
    base: PathModel,
    present: spec_fn(PathModel) -> bool,
    read_only: spec_fn(PathModel) -> bool,
)
    ensures
        CheckerModel::initial(destination).run(occupant, base, present, read_only) == settled(
            verdict(
                occupant,
                read_only(nearest_existing(absolute(destination, base), present)),
            ),
        ),
{
    let start = CheckerModel::initial(destination);
    if occupancy_verdict(occupant) is Ok {
        let path = absolute(destination, base);
        let walking = start.at(PhaseModel::Ascending(path));
        law_walk_finds_nearest_existing(walking, path, present);
    }
}

/// The rules on concrete kinds of destination: a directory that holds
/// something is refused and so is a file, whatever the permissions; an empty
/// directory and a path that does not exist yet are accepted exactly when the
/// nearest existing ancestor is writable.
pub proof fn law_destination_rules(entries: u64, read_only: bool)
    ensures
        entries > 0 ==> verdict(Occupant::Directory { entries }, read_only) == Err::<
            (),
            DestinationError,
        >(DestinationError::DirectoryNotEmpty),
        verdict(Occupant::File, read_only) == Err::<(), DestinationError>(
            DestinationError::NotADirectory,
        ),
        verdict(Occupant::Directory { entries: 0 }, read_only) == (if read_only {
            Err::<(), DestinationError>(DestinationError::ReadOnlyDestination)
        } else {
            Ok::<(), DestinationError>(())
        }),
        verdict(Occupant::Nothing, read_only) == (if read_only {
            Err::<(), DestinationError>(DestinationError::ReadOnlyDestination)
        } else {
            Ok::<(), DestinationError>(())
        }),
{
}

/// A settled check stays settled: it ignores every finding.
pub proof fn law_settled_is_final(checker: CheckerModel, finding: FindingModel)
    requires
        checker.phase is Accepted || checker.phase is Refused,
    ensures
        checker.next(finding) == (checker, QueryModel::Ignore),
{
}

/// Lexical resolution goes component by component: resolving a path and then
/// a further one is resolving the two in a row.
pub proof fn law_resolution_composes(
    base: PathModel,
    first: Seq<ComponentModel>,
    second: Seq<ComponentModel>,
)
    ensures
        resolved(base, first + second) == resolved(resolved(base, first), second),
    decreases second.len(),
{
    if second.len() == 0 {
        assert(first + second =~= first);
    } else {
        law_resolution_composes(base, first, second.drop_last());
        assert((first + second).drop_last() =~= first + second.drop_last());
        assert((first + second).last() == second.last());
    }
}

} // verus!
