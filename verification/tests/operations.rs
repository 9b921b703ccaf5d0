//! Links, permissions, junctions and the handling of replies, step by step.

use path_transfer::host::Action;
use path_transfer::host::FileEntry;
use path_transfer::host::Item;
use path_transfer::host::Kind;
use path_transfer::host::LinkKind;
use path_transfer::host::Loc;
use path_transfer::host::Platform;
use path_transfer::host::Reply;
use path_transfer::job::copy_path;
use path_transfer::job::create_hardlink;
use path_transfer::job::create_ntfs_junction;
use path_transfer::job::create_symlink;
use path_transfer::job::delete_path;
use path_transfer::job::junction_command;
use path_transfer::job::move_path;
use path_transfer::job::set_readonly;
use path_transfer::job::Job;
use path_transfer::outcome::ErrorKind;
use path_transfer::outcome::OpError;
use path_transfer::outcome::OpResult;
use path_transfer::outcome::Outcome;

fn at_root(path: &str) -> Loc {
    Loc { root: path.to_string(), rel: Vec::new() }
}

fn below(path: &str, names: &[&str]) -> Loc {
    Loc { root: path.to_string(), rel: names.iter().map(|n| n.to_string()).collect() }
}

fn done() -> Action {
    Action::Finish(Outcome::Done(OpResult { ok: true, msg: None }))
}

fn failed(kind: ErrorKind, message: &str) -> Action {
    Action::Finish(Outcome::Failed(OpError { kind, message: message.to_string() }))
}

fn entry(name: &str, is_dir: bool) -> Item {
    Item::Entry(FileEntry { name: name.to_string(), is_dir, path: format!("/x/{}", name) })
}

fn mklink(link: &str, target: &str) -> Action {
    Action::Run {
        program: "cmd".to_string(),
        args: vec![
            "/C".to_string(),
            "mklink".to_string(),
            "/J".to_string(),
            link.to_string(),
            target.to_string(),
        ],
    }
}

fn tree_copy_opening() -> Vec<(Reply, Action)> {
    vec![
        (Reply::Kind(Kind::Dir), Action::Probe(at_root("B"))),
        (Reply::Kind(Kind::Missing), Action::Probe(at_root("A"))),
        (Reply::Kind(Kind::Dir), Action::CreateDirAll(at_root("B"))),
    ]
}

/// Feeds the replies one by one and checks the action that follows each.
fn script(start: (Job, Action), first: Action, rounds: Vec<(Reply, Action)>) {
    let (mut job, action) = start;
    assert_eq!(action, first);
    for (reply, expected) in rounds {
        let next = job.step(reply);
        job = next.0;
        assert_eq!(next.1, expected);
    }
}

#[test]
fn hardlink_probes_source_then_links() {
    script(
        create_hardlink("a".to_string(), "b".to_string()),
        Action::Probe(at_root("a")),
        vec![
            (Reply::Kind(Kind::File), Action::HardLink { from: at_root("a"), to: at_root("b") }),
            (Reply::Done, done()),
        ],
    );
}

#[test]
fn hardlink_of_missing_source_fails() {
    script(
        create_hardlink("a".to_string(), "b".to_string()),
        Action::Probe(at_root("a")),
        vec![(Reply::Kind(Kind::Missing), failed(ErrorKind::NotFound, "Source does not exist: a"))],
    );
}

#[test]
fn hardlink_surfaces_host_failure() {
    script(
        create_hardlink("a".to_string(), "b".to_string()),
        Action::Probe(at_root("a")),
        vec![
            (Reply::Kind(Kind::Dir), Action::HardLink { from: at_root("a"), to: at_root("b") }),
            (
                Reply::Failed("Operation not permitted (os error 1)".to_string()),
                failed(ErrorKind::HostIoFailure, "Operation not permitted (os error 1)"),
            ),
        ],
    );
}

#[test]
fn readonly_probes_then_sets_flag() {
    script(
        set_readonly("f".to_string(), true),
        Action::Probe(at_root("f")),
        vec![
            (Reply::Kind(Kind::File), Action::SetReadonly { path: at_root("f"), readonly: true }),
            (Reply::Done, done()),
        ],
    );
    script(
        set_readonly("d".to_string(), false),
        Action::Probe(at_root("d")),
        vec![
            (Reply::Kind(Kind::Dir), Action::SetReadonly { path: at_root("d"), readonly: false }),
            (Reply::Done, done()),
        ],
    );
}

#[test]
fn readonly_of_missing_path_fails() {
    script(
        set_readonly("f".to_string(), true),
        Action::Probe(at_root("f")),
        vec![(Reply::Kind(Kind::Missing), failed(ErrorKind::NotFound, "Path not found: f"))],
    );
}

#[test]
fn symlink_on_unix_does_not_pick_a_kind() {
    script(
        create_symlink("t".to_string(), "l".to_string(), Platform::Unix),
        Action::Probe(at_root("t")),
        vec![
            (
                Reply::Kind(Kind::Dir),
                Action::Symlink { target: at_root("t"), link: at_root("l"), kind: LinkKind::Any },
            ),
            (Reply::Done, done()),
        ],
    );
}

#[test]
fn symlink_on_windows_picks_directory_kind_for_directory() {
    script(
        create_symlink("t".to_string(), "l".to_string(), Platform::Windows),
        Action::Probe(at_root("t")),
        vec![(
            Reply::Kind(Kind::Dir),
            Action::Symlink { target: at_root("t"), link: at_root("l"), kind: LinkKind::Dir },
        )],
    );
}

#[test]
fn symlink_on_windows_picks_file_kind_otherwise() {
    script(
        create_symlink("t".to_string(), "l".to_string(), Platform::Windows),
        Action::Probe(at_root("t")),
        vec![(
            Reply::Kind(Kind::File),
            Action::Symlink { target: at_root("t"), link: at_root("l"), kind: LinkKind::File },
        )],
    );
    script(
        create_symlink("t".to_string(), "l".to_string(), Platform::Windows),
        Action::Probe(at_root("t")),
        vec![(
            Reply::Kind(Kind::Other),
            Action::Symlink { target: at_root("t"), link: at_root("l"), kind: LinkKind::File },
        )],
    );
}

#[test]
fn symlink_to_missing_target_fails() {
    script(
        create_symlink("t".to_string(), "l".to_string(), Platform::Unix),
        Action::Probe(at_root("t")),
        vec![(Reply::Kind(Kind::Missing), failed(ErrorKind::NotFound, "Target does not exist: t"))],
    );
}

#[test]
fn junction_is_unsupported_off_windows() {
    let (job, action) =
        create_ntfs_junction("C:\\t".to_string(), "C:\\l".to_string(), Platform::Unix);
    assert!(job.is_finished());
    assert_eq!(
        action,
        failed(ErrorKind::PlatformUnsupported, "NTFS junctions are only supported on Windows")
    );
}

#[test]
fn junction_on_windows_creates_parents_then_links() {
    script(
        create_ntfs_junction("C:\\t".to_string(), "C:\\d\\l".to_string(), Platform::Windows),
        Action::CreateParentDirs(at_root("C:\\d\\l")),
        vec![
            (
                Reply::Done,
                mklink("C:\\d\\l", "C:\\t"),
            ),
            (
                Reply::Output { success: true, stdout: "ok".to_string(), stderr: String::new() },
                done(),
            ),
        ],
    );
}

#[test]
fn junction_reports_output_of_failed_command() {
    script(
        create_ntfs_junction("C:\\t".to_string(), "C:\\l".to_string(), Platform::Windows),
        Action::CreateParentDirs(at_root("C:\\l")),
        vec![
            (Reply::Done, mklink("C:\\l", "C:\\t")),
            (
                Reply::Output {
                    success: false,
                    stdout: "out".to_string(),
                    stderr: "denied".to_string(),
                },
                failed(ErrorKind::HostIoFailure, "mklink failed: stdout=out stderr=denied"),
            ),
        ],
    );
}

#[test]
fn junction_surfaces_failure_of_parent_creation_and_of_spawn() {
    script(
        create_ntfs_junction("t".to_string(), "l".to_string(), Platform::Windows),
        Action::CreateParentDirs(at_root("l")),
        vec![(
            Reply::Failed("Access is denied.".to_string()),
            failed(ErrorKind::HostIoFailure, "Access is denied."),
        )],
    );
    script(
        create_ntfs_junction("t".to_string(), "l".to_string(), Platform::Windows),
        Action::CreateParentDirs(at_root("l")),
        vec![
            (Reply::Done, mklink("l", "t")),
            (
                Reply::Failed("program not found".to_string()),
                failed(ErrorKind::HostIoFailure, "program not found"),
            ),
        ],
    );
}

#[test]
fn delete_picks_removal_by_kind() {
    script(
        delete_path("p".to_string()),
        Action::Probe(at_root("p")),
        vec![(Reply::Kind(Kind::Dir), Action::RemoveDirAll(at_root("p"))), (Reply::Done, done())],
    );
    script(
        delete_path("p".to_string()),
        Action::Probe(at_root("p")),
        vec![(Reply::Kind(Kind::Other), Action::RemoveFile(at_root("p"))), (Reply::Done, done())],
    );
}

#[test]
fn unexpected_reply_ends_the_job() {
    script(
        delete_path("p".to_string()),
        Action::Probe(at_root("p")),
        vec![(Reply::Done, failed(ErrorKind::HostIoFailure, "unexpected reply from host"))],
    );
    script(
        copy_path("a".to_string(), "b".to_string(), false),
        Action::Probe(at_root("a")),
        vec![(
            Reply::Text("?".to_string()),
            failed(ErrorKind::HostIoFailure, "unexpected reply from host"),
        )],
    );
}

#[test]
fn finished_job_answers_every_reply_with_a_failure() {
    let (job, _) = delete_path("p".to_string());
    let (job, action) = job.step(Reply::Kind(Kind::Missing));
    assert_eq!(action, failed(ErrorKind::NotFound, "Path not found: p"));
    assert!(job.is_finished());
    let (job, action) = job.step(Reply::Done);
    assert_eq!(action, failed(ErrorKind::HostIoFailure, "unexpected reply from host"));
    assert!(job.is_finished());
}

#[test]
fn tree_copy_stops_at_item_that_cannot_be_read() {
    script(
        copy_path("A".to_string(), "B".to_string(), false),
        Action::Probe(at_root("A")),
        vec![
            (Reply::Kind(Kind::Dir), Action::Probe(at_root("B"))),
            (Reply::Kind(Kind::Missing), Action::Probe(at_root("A"))),
            (Reply::Kind(Kind::Dir), Action::CreateDirAll(at_root("B"))),
            (Reply::Done, Action::ReadDir(at_root("A"))),
            (
                Reply::Listing(vec![
                    entry("one", false),
                    entry("two", true),
                    Item::Unreadable("Input/output error (os error 5)".to_string()),
                    entry("never", false),
                ]),
                Action::CopyFile { from: below("A", &["one"]), to: below("B", &["one"]) },
            ),
            (Reply::Done, Action::CreateDirAll(below("B", &["two"]))),
            (Reply::Done, Action::ReadDir(below("A", &["two"]))),
            (
                Reply::Listing(vec![entry("deep", false)]),
                Action::CopyFile {
                    from: below("A", &["two", "deep"]),
                    to: below("B", &["two", "deep"]),
                },
            ),
            (Reply::Done, failed(ErrorKind::HostIoFailure, "Input/output error (os error 5)")),
        ],
    );
}

#[test]
fn tree_copy_stops_at_item_of_unknown_kind() {
    script(
        copy_path("A".to_string(), "B".to_string(), false),
        Action::Probe(at_root("A")),
        vec![
            (Reply::Kind(Kind::Dir), Action::Probe(at_root("B"))),
            (Reply::Kind(Kind::Missing), Action::Probe(at_root("A"))),
            (Reply::Kind(Kind::Dir), Action::CreateDirAll(at_root("B"))),
            (Reply::Done, Action::ReadDir(at_root("A"))),
            (
                Reply::Listing(vec![Item::Untyped("stale handle".to_string()), entry("x", false)]),
                failed(ErrorKind::HostIoFailure, "stale handle"),
            ),
        ],
    );
}

#[test]
fn tree_copy_surfaces_failures_of_its_steps() {
    let mut mkdir_fails = tree_copy_opening();
    mkdir_fails.push((
        Reply::Failed("no mkdir".to_string()),
        failed(ErrorKind::HostIoFailure, "no mkdir"),
    ));
    script(
        copy_path("A".to_string(), "B".to_string(), false),
        Action::Probe(at_root("A")),
        mkdir_fails,
    );
    let mut list_fails = tree_copy_opening();
    list_fails.push((Reply::Done, Action::ReadDir(at_root("A"))));
    list_fails.push((
        Reply::Failed("no list".to_string()),
        failed(ErrorKind::HostIoFailure, "no list"),
    ));
    script(
        copy_path("A".to_string(), "B".to_string(), false),
        Action::Probe(at_root("A")),
        list_fails,
    );
    let mut file_fails = tree_copy_opening();
    file_fails.push((Reply::Done, Action::ReadDir(at_root("A"))));
    file_fails.push((
        Reply::Listing(vec![entry("f", false)]),
        Action::CopyFile { from: below("A", &["f"]), to: below("B", &["f"]) },
    ));
    file_fails.push((
        Reply::Failed("no copy".to_string()),
        failed(ErrorKind::HostIoFailure, "no copy"),
    ));
    script(
        copy_path("A".to_string(), "B".to_string(), false),
        Action::Probe(at_root("A")),
        file_fails,
    );
}

#[test]
fn move_overwrite_picks_removal_by_kind_of_destination() {
    script(
        move_path("a".to_string(), "b".to_string(), true),
        Action::Probe(at_root("a")),
        vec![
            (Reply::Kind(Kind::File), Action::Probe(at_root("b"))),
            (Reply::Kind(Kind::Dir), Action::RemoveDirAll(at_root("b"))),
            (Reply::Done, Action::Rename { from: at_root("a"), to: at_root("b") }),
            (Reply::Done, done()),
        ],
    );
    script(
        move_path("a".to_string(), "b".to_string(), true),
        Action::Probe(at_root("a")),
        vec![
            (Reply::Kind(Kind::File), Action::Probe(at_root("b"))),
            (Reply::Kind(Kind::Other), Action::RemoveFile(at_root("b"))),
        ],
    );
}

#[test]
fn move_fails_when_source_vanishes_after_failed_rename() {
    script(
        move_path("a".to_string(), "b".to_string(), false),
        Action::Probe(at_root("a")),
        vec![
            (Reply::Kind(Kind::File), Action::Probe(at_root("b"))),
            (Reply::Kind(Kind::Missing), Action::Rename { from: at_root("a"), to: at_root("b") }),
            (Reply::Failed("busy".to_string()), Action::Probe(at_root("a"))),
            (
                Reply::Kind(Kind::Missing),
                failed(
                    ErrorKind::UnsupportedSourceType,
                    "Rename failed and source is neither file nor dir: busy",
                ),
            ),
        ],
    );
}

#[test]
fn locations_are_built_from_root_and_names() {
    let root = "base".to_string();
    assert_eq!(Loc::top(&root), at_root("base"));
    let names = vec!["a".to_string(), "b".to_string()];
    assert_eq!(Loc::at(&root, &names), below("base", &["a", "b"]));
    assert_eq!(Loc::at(&root, &Vec::new()), at_root("base"));
}

#[test]
fn junction_command_names_link_before_target() {
    let (program, args) = junction_command(&"C:\\new link".to_string(), &"D:\\old".to_string());
    assert_eq!(program, "cmd");
    assert_eq!(args, vec!["/C", "mklink", "/J", "C:\\new link", "D:\\old"]);
}
