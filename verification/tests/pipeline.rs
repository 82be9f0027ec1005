use degit::archive::{ArchiveFormat, MaterializeError, ProgressMode};
use degit::pipeline::{strip_root, Action, Event, Materializer, Stage, Tally};
use degit::reference::{parse, Host, Repo};

fn path(names: &[&str]) -> Vec<String> {
    names.iter().map(|n| n.to_string()).collect()
}

fn github() -> Repo {
    Repo { host: Host::Github, owner: "sveltejs".to_string(), project: "template".to_string() }
}

#[test]
fn strip_root_drops_first_component() {
    assert_eq!(strip_root(&path(&[])), None);
    assert_eq!(strip_root(&path(&["root"])), Some(path(&[])));
    assert_eq!(
        strip_root(&path(&["template-abc123", "src", "main.js"])),
        Some(path(&["src", "main.js"]))
    );
    assert_eq!(strip_root(&path(&["a", "a"])), Some(path(&["a"])));
}

#[test]
fn begin_gives_url_and_fresh_machine() {
    let (machine, url) = Materializer::begin(&github());
    assert_eq!(url, "https://github.com/sveltejs/template/archive/HEAD.tar.gz");
    assert_eq!(machine.stage, Stage::Requesting);
    assert_eq!(machine.format, ArchiveFormat::TarGz);
    assert_eq!(machine.tally, Tally { unpacked: 0, skipped: 0 });
}

#[test]
fn unauthorized_is_repository_not_found() {
    let (mut machine, _) = Materializer::begin(&github());
    let action = machine.step(Event::Response { status: 401, content_length: Some(10) });
    assert_eq!(action, Action::Fail(MaterializeError::RepositoryNotFound));
    assert_eq!(machine.stage, Stage::Finished);
}

#[test]
fn other_status_is_reported() {
    let (mut machine, _) = Materializer::begin(&github());
    let action = machine.step(Event::Response { status: 404, content_length: None });
    assert_eq!(action, Action::Fail(MaterializeError::UnexpectedStatus(404)));
    assert_eq!(machine.stage, Stage::Finished);
}

#[test]
fn transport_failure_is_fatal() {
    let (mut machine, _) = Materializer::begin(&github());
    assert_eq!(
        machine.step(Event::TransportFailure),
        Action::Fail(MaterializeError::TransportError)
    );
    assert_eq!(machine.stage, Stage::Finished);

    let (mut machine, _) = Materializer::begin(&github());
    machine.step(Event::Response { status: 200, content_length: None });
    assert_eq!(
        machine.step(Event::TransportFailure),
        Action::Fail(MaterializeError::TransportError)
    );
    assert_eq!(machine.stage, Stage::Finished);
}

#[test]
fn bitbucket_zip_is_unsupported() {
    let repo = parse("bitbucket:atlassian/aui").unwrap();
    let (mut machine, url) = Materializer::begin(&repo);
    assert_eq!(url, "https://bitbucket.org/atlassian/aui/get/HEAD.zip");
    assert_eq!(
        machine.step(Event::Response { status: 200, content_length: Some(7) }),
        Action::Fail(MaterializeError::UnsupportedArchiveFormat)
    );
    // The status is judged before the format.
    let (mut machine, _) = Materializer::begin(&repo);
    assert_eq!(
        machine.step(Event::Response { status: 401, content_length: None }),
        Action::Fail(MaterializeError::RepositoryNotFound)
    );
}

#[test]
fn progress_is_announced_on_open() {
    let (mut machine, _) = Materializer::begin(&github());
    assert_eq!(
        machine.step(Event::Response { status: 200, content_length: Some(4096) }),
        Action::Open(ProgressMode::Determinate(4096))
    );
    let (mut machine, _) = Materializer::begin(&github());
    assert_eq!(
        machine.step(Event::Response { status: 200, content_length: None }),
        Action::Open(ProgressMode::Indeterminate)
    );
    assert_eq!(machine.stage, Stage::Reading);
}

#[test]
fn entries_are_written_without_root() {
    let (mut machine, _) = Materializer::begin(&github());
    machine.step(Event::Response { status: 200, content_length: None });

    assert_eq!(
        machine.step(Event::Entry(path(&["template-abc", "README.md"]))),
        Action::Write(path(&["README.md"]))
    );
    assert_eq!(machine.stage, Stage::Writing);
    assert_eq!(machine.step(Event::Written(true)), Action::Next);

    // The root itself is written at the destination.
    assert_eq!(
        machine.step(Event::Entry(path(&["template-abc"]))),
        Action::Write(path(&[]))
    );
    assert_eq!(machine.step(Event::Written(true)), Action::Next);

    // A failed write is skipped, and so are an unreadable entry and an empty path.
    assert_eq!(
        machine.step(Event::Entry(path(&["template-abc", "src", "x"]))),
        Action::Write(path(&["src", "x"]))
    );
    assert_eq!(machine.step(Event::Written(false)), Action::Next);
    assert_eq!(machine.step(Event::UnreadableEntry), Action::Next);
    assert_eq!(machine.step(Event::Entry(path(&[]))), Action::Next);
    assert_eq!(machine.stage, Stage::Reading);

    assert_eq!(
        machine.step(Event::End),
        Action::Finish(Tally { unpacked: 2, skipped: 3 })
    );
    assert_eq!(machine.stage, Stage::Finished);
    assert_eq!(machine.step(Event::End), Action::Ignore);
    assert_eq!(machine.step(Event::Entry(path(&["a", "b"]))), Action::Ignore);
    assert_eq!(machine.tally, Tally { unpacked: 2, skipped: 3 });
}

#[test]
fn stray_events_are_ignored() {
    let (mut machine, _) = Materializer::begin(&github());
    assert_eq!(machine.step(Event::End), Action::Ignore);
    assert_eq!(machine.step(Event::Written(true)), Action::Ignore);
    assert_eq!(machine.step(Event::Entry(path(&["a"]))), Action::Ignore);
    assert_eq!(machine.stage, Stage::Requesting);
    machine.step(Event::Response { status: 200, content_length: None });
    assert_eq!(machine.step(Event::Written(true)), Action::Ignore);
    assert_eq!(
        machine.step(Event::Response { status: 200, content_length: None }),
        Action::Ignore
    );
    machine.step(Event::Entry(path(&["a", "b"])));
    assert_eq!(machine.step(Event::End), Action::Ignore);
    assert_eq!(machine.step(Event::TransportFailure), Action::Ignore);
    assert_eq!(machine.stage, Stage::Writing);
    assert_eq!(machine.tally, Tally { unpacked: 0, skipped: 0 });
}

#[test]
fn tally_stops_at_the_largest_value() {
    let mut machine = Materializer {
        format: ArchiveFormat::TarGz,
        stage: Stage::Writing,
        tally: Tally { unpacked: u64::MAX, skipped: u64::MAX - 1 },
    };
    assert_eq!(machine.step(Event::Written(true)), Action::Next);
    assert_eq!(machine.tally.unpacked, u64::MAX);
    assert_eq!(machine.step(Event::UnreadableEntry), Action::Next);
    assert_eq!(machine.tally.skipped, u64::MAX);
    assert_eq!(machine.step(Event::UnreadableEntry), Action::Next);
    assert_eq!(machine.tally.skipped, u64::MAX);
}
