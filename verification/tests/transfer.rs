//! Copy, move and delete, driven against an in-memory disk.

use std::collections::BTreeMap;

use path_transfer::host::Action;
use path_transfer::host::FileEntry;
use path_transfer::host::Item;
use path_transfer::host::Kind;
use path_transfer::host::Loc;
use path_transfer::host::Reply;
use path_transfer::job::copy_path;
use path_transfer::job::delete_path;
use path_transfer::job::move_path;
use path_transfer::job::Job;
use path_transfer::outcome::ErrorKind;
use path_transfer::outcome::OpError;
use path_transfer::outcome::OpResult;
use path_transfer::outcome::Outcome;

#[derive(Clone, Debug, PartialEq)]
enum Node {
    File(Vec<u8>),
    Dir,
    Special,
}

/// A disk in memory. Paths are joined with `/`; directories list their
/// entries in the order of their names.
#[derive(Clone, Debug, PartialEq)]
struct Disk {
    nodes: BTreeMap<String, Node>,
    rename_error: Option<String>,
    copy_error: Option<String>,
    remove_error: Option<String>,
    log: Vec<String>,
}

fn path_of(loc: &Loc) -> String {
    let mut out = loc.root.clone();
    for name in &loc.rel {
        out.push('/');
        out.push_str(name);
    }
    out
}

impl Disk {
    fn new() -> Disk {
        Disk {
            nodes: BTreeMap::new(),
            rename_error: None,
            copy_error: None,
            remove_error: None,
            log: Vec::new(),
        }
    }

    fn file(mut self, path: &str, content: &str) -> Disk {
        self.nodes.insert(path.to_string(), Node::File(content.as_bytes().to_vec()));
        self
    }

    fn dir(mut self, path: &str) -> Disk {
        self.nodes.insert(path.to_string(), Node::Dir);
        self
    }

    fn special(mut self, path: &str) -> Disk {
        self.nodes.insert(path.to_string(), Node::Special);
        self
    }

    fn present(&self, path: &str) -> bool {
        self.nodes.contains_key(path)
    }

    fn read(&self, path: &str) -> Option<String> {
        match self.nodes.get(path) {
            Some(Node::File(bytes)) => Some(String::from_utf8(bytes.clone()).unwrap()),
            _ => None,
        }
    }

    fn below(&self, path: &str) -> Vec<String> {
        let prefix = format!("{}/", path);
        self.nodes.keys().filter(|k| k.starts_with(&prefix)).cloned().collect()
    }

    fn remove_tree(&mut self, path: &str) {
        for key in self.below(path) {
            self.nodes.remove(&key);
        }
        self.nodes.remove(path);
    }

    fn parent_is_dir(&self, path: &str, loc: &Loc) -> bool {
        if loc.rel.is_empty() {
            return true;
        }
        let cut = path.rfind('/').unwrap();
        self.nodes.get(&path[..cut]) == Some(&Node::Dir)
    }

    fn perform(&mut self, action: &Action) -> Reply {
        match action {
            Action::Probe(loc) => {
                let path = path_of(loc);
                self.log.push(format!("probe {}", path));
                Reply::Kind(match self.nodes.get(&path) {
                    None => Kind::Missing,
                    Some(Node::File(_)) => Kind::File,
                    Some(Node::Dir) => Kind::Dir,
                    Some(Node::Special) => Kind::Other,
                })
            }
            Action::RemoveDirAll(loc) => {
                let path = path_of(loc);
                self.log.push(format!("rmtree {}", path));
                if let Some(message) = &self.remove_error {
                    return Reply::Failed(message.clone());
                }
                match self.nodes.get(&path) {
                    Some(Node::Dir) => {
                        self.remove_tree(&path);
                        Reply::Done
                    }
                    _ => Reply::Failed(format!("not a directory: {}", path)),
                }
            }
            Action::RemoveFile(loc) => {
                let path = path_of(loc);
                self.log.push(format!("rm {}", path));
                if let Some(message) = &self.remove_error {
                    return Reply::Failed(message.clone());
                }
                match self.nodes.get(&path) {
                    Some(Node::File(_)) | Some(Node::Special) => {
                        self.nodes.remove(&path);
                        Reply::Done
                    }
                    _ => Reply::Failed(format!("not a file: {}", path)),
                }
            }
            Action::CopyFile { from, to } => {
                let source = path_of(from);
                let target = path_of(to);
                self.log.push(format!("copy {} {}", source, target));
                if let Some(message) = &self.copy_error {
                    return Reply::Failed(message.clone());
                }
                match self.nodes.get(&source).cloned() {
                    Some(Node::File(bytes)) if self.parent_is_dir(&target, to) => {
                        self.nodes.insert(target, Node::File(bytes));
                        Reply::Done
                    }
                    _ => Reply::Failed(format!("cannot copy {}", source)),
                }
            }
            Action::CreateDirAll(loc) => {
                let mut path = loc.root.clone();
                self.log.push(format!("mkdir {}", path_of(loc)));
                let mut names = loc.rel.iter();
                loop {
                    match self.nodes.get(&path) {
                        None => {
                            self.nodes.insert(path.clone(), Node::Dir);
                        }
                        Some(Node::Dir) => {}
                        Some(_) => return Reply::Failed(format!("not a directory: {}", path)),
                    }
                    match names.next() {
                        Some(name) => {
                            path.push('/');
                            path.push_str(name);
                        }
                        None => return Reply::Done,
                    }
                }
            }
            Action::ReadDir(dir) => {
                let path = path_of(dir);
                self.log.push(format!("list {}", path));
                if self.nodes.get(&path) != Some(&Node::Dir) {
                    return Reply::Failed(format!("not a directory: {}", path));
                }
                let prefix = format!("{}/", path);
                let mut items = Vec::new();
                for (key, node) in &self.nodes {
                    if let Some(name) = key.strip_prefix(&prefix) {
                        if !name.contains('/') {
                            items.push(Item::Entry(FileEntry {
                                name: name.to_string(),
                                is_dir: *node == Node::Dir,
                                path: key.clone(),
                            }));
                        }
                    }
                }
                Reply::Listing(items)
            }
            Action::Rename { from, to } => {
                let source = path_of(from);
                let target = path_of(to);
                self.log.push(format!("rename {} {}", source, target));
                if let Some(message) = &self.rename_error {
                    return Reply::Failed(message.clone());
                }
                if !self.present(&source) || self.present(&target) {
                    return Reply::Failed(format!("cannot rename {}", source));
                }
                let mut moved = vec![(target.clone(), self.nodes[&source].clone())];
                for key in self.below(&source) {
                    moved.push((format!("{}{}", target, &key[source.len()..]), self.nodes[&key].clone()));
                }
                self.remove_tree(&source);
                for (key, node) in moved {
                    self.nodes.insert(key, node);
                }
                Reply::Done
            }
            other => panic!("the disk cannot perform {:?}", other),
        }
    }
}

fn drive(start: (Job, Action), disk: &mut Disk) -> Outcome {
    let (mut job, mut action) = start;
    let mut rounds: usize = 0;
    loop {
        if let Action::Finish(outcome) = action {
            assert!(job.is_finished());
            return outcome;
        }
        assert!(!job.is_finished());
        rounds += 1;
        assert!(rounds < 10_000, "the job does not come to an end");
        let reply = disk.perform(&action);
        let next = job.step(reply);
        job = next.0;
        action = next.1;
    }
}

fn copy(disk: &mut Disk, src: &str, dst: &str, overwrite: bool) -> Outcome {
    drive(copy_path(src.to_string(), dst.to_string(), overwrite), disk)
}

fn move_(disk: &mut Disk, src: &str, dst: &str, overwrite: bool) -> Outcome {
    drive(move_path(src.to_string(), dst.to_string(), overwrite), disk)
}

fn delete(disk: &mut Disk, path: &str) -> Outcome {
    drive(delete_path(path.to_string()), disk)
}

fn done() -> Outcome {
    Outcome::Done(OpResult { ok: true, msg: None })
}

fn failed(kind: ErrorKind, message: &str) -> Outcome {
    Outcome::Failed(OpError { kind, message: message.to_string() })
}

fn tree() -> Disk {
    Disk::new()
        .dir("A")
        .file("A/x.txt", "hi")
        .dir("A/sub")
        .file("A/sub/y.txt", "bye")
        .dir("A/sub/deep")
        .file("A/sub/deep/z.bin", "zzz")
        .dir("A/empty")
}

#[test]
fn copy_single_file_yields_identical_content() {
    let mut disk = Disk::new().file("a.txt", "hello world");
    assert_eq!(copy(&mut disk, "a.txt", "b.txt", false), done());
    assert_eq!(disk.read("a.txt"), Some("hello world".to_string()));
    assert_eq!(disk.read("b.txt"), disk.read("a.txt"));
    assert_eq!(disk.nodes.len(), 2);
}

#[test]
fn copy_single_file_asks_in_order() {
    let mut disk = Disk::new().file("a.txt", "1");
    copy(&mut disk, "a.txt", "b.txt", false);
    assert_eq!(disk.log, vec!["probe a.txt", "probe b.txt", "probe a.txt", "copy a.txt b.txt"]);
}

#[test]
fn copy_refuses_existing_destination_without_overwrite() {
    let mut disk = Disk::new().file("a.txt", "new").file("b.txt", "old");
    let before = disk.nodes.clone();
    assert_eq!(
        copy(&mut disk, "a.txt", "b.txt", false),
        failed(
            ErrorKind::AlreadyExists,
            "Destination exists: b.txt (set overwrite=true to replace)"
        )
    );
    assert_eq!(disk.read("b.txt"), Some("old".to_string()));
    assert_eq!(disk.nodes, before);
    assert_eq!(disk.log, vec!["probe a.txt", "probe b.txt"]);
}

#[test]
fn copy_refuses_existing_directory_without_overwrite() {
    let mut disk = tree().dir("B").file("B/keep", "k");
    let before = disk.nodes.clone();
    assert_eq!(
        copy(&mut disk, "A", "B", false),
        failed(ErrorKind::AlreadyExists, "Destination exists: B (set overwrite=true to replace)")
    );
    assert_eq!(disk.nodes, before);
}

#[test]
fn copy_overwrites_existing_file() {
    let mut disk = Disk::new().file("a.txt", "new").file("b.txt", "old");
    assert_eq!(copy(&mut disk, "a.txt", "b.txt", true), done());
    assert_eq!(disk.read("b.txt"), Some("new".to_string()));
    assert_eq!(disk.read("a.txt"), Some("new".to_string()));
    assert_eq!(
        disk.log,
        vec!["probe a.txt", "probe b.txt", "rm b.txt", "probe a.txt", "copy a.txt b.txt"]
    );
}

#[test]
fn copy_overwrites_existing_directory() {
    let mut disk = Disk::new().file("a.txt", "new").dir("B").file("B/old", "o").dir("B/d");
    assert_eq!(copy(&mut disk, "a.txt", "B", true), done());
    assert_eq!(disk.read("B"), Some("new".to_string()));
    assert!(!disk.present("B/old"));
    assert!(!disk.present("B/d"));
    assert_eq!(disk.nodes.len(), 2);
}

#[test]
fn copy_tree_overwrites_existing_file() {
    let mut disk = tree().file("B", "plain");
    assert_eq!(copy(&mut disk, "A", "B", true), done());
    assert_eq!(disk.nodes.get("B"), Some(&Node::Dir));
    assert_eq!(disk.read("B/sub/y.txt"), Some("bye".to_string()));
}

#[test]
fn copy_reproduces_nested_tree() {
    let mut disk = tree();
    let before = disk.nodes.clone();
    assert_eq!(copy(&mut disk, "A", "B", false), done());
    for (path, node) in &before {
        assert_eq!(disk.nodes.get(path), Some(node));
        let twin = format!("B{}", &path[1..]);
        assert_eq!(disk.nodes.get(&twin), Some(node));
    }
    assert_eq!(disk.nodes.len(), 2 * before.len());
}

#[test]
fn copy_tree_works_depth_first_in_host_order() {
    let mut disk = tree();
    copy(&mut disk, "A", "B", false);
    assert_eq!(
        disk.log,
        vec![
            "probe A",
            "probe B",
            "probe A",
            "mkdir B",
            "list A",
            "mkdir B/empty",
            "list A/empty",
            "mkdir B/sub",
            "list A/sub",
            "mkdir B/sub/deep",
            "list A/sub/deep",
            "copy A/sub/deep/z.bin B/sub/deep/z.bin",
            "copy A/sub/y.txt B/sub/y.txt",
            "copy A/x.txt B/x.txt",
        ]
    );
}

#[test]
fn copy_of_empty_directory_creates_directory() {
    let mut disk = Disk::new().dir("A");
    assert_eq!(copy(&mut disk, "A", "B", false), done());
    assert_eq!(disk.nodes.get("B"), Some(&Node::Dir));
    assert_eq!(disk.nodes.len(), 2);
}

#[test]
fn move_on_same_volume_renames_without_note() {
    let mut disk = tree();
    let before = disk.nodes.clone();
    assert_eq!(move_(&mut disk, "A", "B", false), done());
    assert!(!disk.present("A"));
    assert!(disk.below("A").is_empty());
    for (path, node) in &before {
        assert_eq!(disk.nodes.get(&format!("B{}", &path[1..])), Some(node));
    }
    assert_eq!(disk.nodes.len(), before.len());
    assert_eq!(disk.log, vec!["probe A", "probe B", "rename A B"]);
}

#[test]
fn move_of_file_on_same_volume() {
    let mut disk = Disk::new().file("a", "1").file("b", "2");
    assert_eq!(move_(&mut disk, "a", "b", true), done());
    assert_eq!(disk.read("b"), Some("1".to_string()));
    assert!(!disk.present("a"));
}

#[test]
fn move_across_volumes_copies_and_notes() {
    let mut disk = tree();
    disk.rename_error = Some("Invalid cross-device link (os error 18)".to_string());
    let before = disk.nodes.clone();
    let outcome = move_(&mut disk, "A", "B", false);
    assert_eq!(
        outcome,
        Outcome::Done(OpResult {
            ok: true,
            msg: Some(
                "Moved dir via copy (rename failed): Invalid cross-device link (os error 18)"
                    .to_string()
            ),
        })
    );
    assert!(!disk.present("A"));
    assert!(disk.below("A").is_empty());
    for (path, node) in &before {
        assert_eq!(disk.nodes.get(&format!("B{}", &path[1..])), Some(node));
    }
    assert_eq!(disk.nodes.len(), before.len());
    assert_eq!(disk.log.last().map(|s| s.as_str()), Some("rmtree A"));
}

#[test]
fn move_of_file_across_volumes_copies_and_notes() {
    let mut disk = Disk::new().file("a", "payload");
    disk.rename_error = Some("EXDEV".to_string());
    assert_eq!(
        move_(&mut disk, "a", "b", false),
        Outcome::Done(OpResult {
            ok: true,
            msg: Some("Moved via copy (rename failed): EXDEV".to_string()),
        })
    );
    assert_eq!(disk.read("b"), Some("payload".to_string()));
    assert!(!disk.present("a"));
    assert_eq!(
        disk.log,
        vec!["probe a", "probe b", "rename a b", "probe a", "copy a b", "rm a"]
    );
}

#[test]
fn move_refuses_existing_destination_without_overwrite() {
    let mut disk = Disk::new().file("a", "1").file("b", "2");
    let before = disk.nodes.clone();
    assert_eq!(
        move_(&mut disk, "a", "b", false),
        failed(ErrorKind::AlreadyExists, "Destination exists: b")
    );
    assert_eq!(disk.nodes, before);
}

#[test]
fn copy_of_missing_source_fails_not_found() {
    let mut disk = Disk::new().file("b", "2");
    let before = disk.nodes.clone();
    assert_eq!(
        copy(&mut disk, "nowhere", "b", true),
        failed(ErrorKind::NotFound, "Source does not exist: nowhere")
    );
    assert_eq!(disk.nodes, before);
    assert_eq!(disk.log, vec!["probe nowhere"]);
}

#[test]
fn move_of_missing_source_fails_not_found() {
    let mut disk = Disk::new().file("b", "2");
    let before = disk.nodes.clone();
    assert_eq!(
        move_(&mut disk, "nowhere", "b", true),
        failed(ErrorKind::NotFound, "Source does not exist: nowhere")
    );
    assert_eq!(disk.nodes, before);
    assert_eq!(disk.log, vec!["probe nowhere"]);
}

#[test]
fn delete_directory_removes_descendants() {
    let mut disk = tree().file("other", "o");
    let before = disk.nodes.clone();
    assert_eq!(delete(&mut disk, "A"), done());
    for path in before.keys() {
        if path != "other" {
            assert!(!disk.present(path));
        }
    }
    assert_eq!(disk.read("other"), Some("o".to_string()));
    assert_eq!(disk.log, vec!["probe A", "rmtree A"]);
}

#[test]
fn delete_file_removes_it() {
    let mut disk = Disk::new().file("f", "1");
    assert_eq!(delete(&mut disk, "f"), done());
    assert!(disk.nodes.is_empty());
    assert_eq!(disk.log, vec!["probe f", "rm f"]);
}

#[test]
fn delete_of_missing_path_fails_not_found() {
    let mut disk = Disk::new();
    assert_eq!(delete(&mut disk, "gone"), failed(ErrorKind::NotFound, "Path not found: gone"));
    assert_eq!(disk.log, vec!["probe gone"]);
}

#[test]
fn delete_surfaces_host_failure() {
    let mut disk = Disk::new().file("f", "1");
    disk.remove_error = Some("Permission denied (os error 13)".to_string());
    assert_eq!(
        delete(&mut disk, "f"),
        failed(ErrorKind::HostIoFailure, "Permission denied (os error 13)")
    );
    assert!(disk.present("f"));
}

#[test]
fn scenario_copy_directory_a_to_b() {
    let mut disk =
        Disk::new().dir("A").file("A/x.txt", "hi").dir("A/sub").file("A/sub/y.txt", "bye");
    let before = disk.nodes.clone();
    assert_eq!(copy(&mut disk, "A", "B", false), done());
    assert_eq!(disk.read("B/x.txt"), Some("hi".to_string()));
    assert_eq!(disk.read("B/sub/y.txt"), Some("bye".to_string()));
    for (path, node) in &before {
        assert_eq!(disk.nodes.get(path), Some(node));
    }
    assert_eq!(disk.below("A").len(), 3);
}

#[test]
fn scenario_move_a_over_existing_file_b() {
    let mut disk = Disk::new()
        .dir("A")
        .file("A/x.txt", "hi")
        .dir("A/sub")
        .file("A/sub/y.txt", "bye")
        .file("B", "in the way");
    assert_eq!(move_(&mut disk, "A", "B", true), done());
    assert_eq!(disk.log, vec!["probe A", "probe B", "rm B", "rename A B"]);
    assert_eq!(disk.nodes.get("B"), Some(&Node::Dir));
    assert_eq!(disk.read("B/x.txt"), Some("hi".to_string()));
    assert_eq!(disk.read("B/sub/y.txt"), Some("bye".to_string()));
    assert!(!disk.present("A"));
    assert!(disk.below("A").is_empty());
}

#[test]
fn copy_of_special_source_is_unsupported() {
    let mut disk = Disk::new().special("dev");
    assert_eq!(
        copy(&mut disk, "dev", "b", false),
        failed(ErrorKind::UnsupportedSourceType, "Source is neither file nor directory")
    );
    assert!(!disk.present("b"));
}

#[test]
fn copy_onto_itself_with_overwrite_loses_the_source() {
    let mut disk = Disk::new().file("a", "1");
    assert_eq!(
        copy(&mut disk, "a", "a", true),
        failed(ErrorKind::UnsupportedSourceType, "Source is neither file nor directory")
    );
    assert_eq!(disk.log, vec!["probe a", "probe a", "rm a", "probe a"]);
    assert!(!disk.present("a"));
}

#[test]
fn move_of_special_source_across_volumes_is_unsupported() {
    let mut disk = Disk::new().special("dev");
    disk.rename_error = Some("EXDEV".to_string());
    assert_eq!(
        move_(&mut disk, "dev", "b", false),
        failed(
            ErrorKind::UnsupportedSourceType,
            "Rename failed and source is neither file nor dir: EXDEV"
        )
    );
    assert!(disk.present("dev"));
}

#[test]
fn move_fallback_keeps_source_when_copy_fails() {
    let mut disk = Disk::new().file("a", "1");
    disk.rename_error = Some("EXDEV".to_string());
    disk.copy_error = Some("No space left on device (os error 28)".to_string());
    assert_eq!(
        move_(&mut disk, "a", "b", false),
        failed(ErrorKind::HostIoFailure, "No space left on device (os error 28)")
    );
    assert_eq!(disk.read("a"), Some("1".to_string()));
    assert!(!disk.log.iter().any(|l| l.starts_with("rm")));
}

#[test]
fn move_fallback_leaves_duplicate_when_delete_fails() {
    let mut disk = tree();
    disk.rename_error = Some("EXDEV".to_string());
    disk.remove_error = Some("Device or resource busy (os error 16)".to_string());
    let before = disk.nodes.clone();
    assert_eq!(
        move_(&mut disk, "A", "B", false),
        failed(ErrorKind::HostIoFailure, "Device or resource busy (os error 16)")
    );
    for (path, node) in &before {
        assert_eq!(disk.nodes.get(path), Some(node));
        assert_eq!(disk.nodes.get(&format!("B{}", &path[1..])), Some(node));
    }
}

#[test]
fn copy_surfaces_failure_of_clearing_destination() {
    let mut disk = Disk::new().file("a", "1").file("b", "2");
    disk.remove_error = Some("Read-only file system (os error 30)".to_string());
    assert_eq!(
        copy(&mut disk, "a", "b", true),
        failed(ErrorKind::HostIoFailure, "Read-only file system (os error 30)")
    );
    assert_eq!(disk.read("b"), Some("2".to_string()));
    assert_eq!(disk.log, vec!["probe a", "probe b", "rm b"]);
}
