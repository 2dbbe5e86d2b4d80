use std::collections::BTreeMap;

use fyles_core::direct_fs_controller::out_dir::{
    OutDirAsk, OutDirEvent, OutDirProgress, Requested,
};
use fyles_core::direct_fs_controller::tasks::{
    DirectFsController, FsAsk, FsError, FsEvent, FsReply, FsStep, FsTask, Place,
};
use fyles_core::direct_fs_controller::{
    notification_texts, numbered, plan_rename, validate_partial_basename, DeescalatePathError,
    DirectFsControllerError, FileRenameError, FileWriteError, FilerequestDirError, Probe,
    NUMBER_OF_VARIATIONS_TO_TRY,
};
use fyles_core::domain_models::{Filerequest, FilerequestAccess, FylesId};
use fyles_core::filerequest_drive_handler::{FilerequestDriveHandler, GetFileError};
use fyles_core::io_controller::FileNamespace;
use fyles_core::notification::Notification;

#[derive(Clone, Debug, PartialEq)]
enum Entry {
    File,
    Dir,
    ReadOnlyDir,
    Link(String),
}

/// A file system in memory.
#[derive(Default)]
struct Disk {
    entries: BTreeMap<String, Entry>,
    broken: bool,
}

fn parent_of(path: &str) -> String {
    match path.rsplit_once('/') {
        Some((parent, _)) if !parent.is_empty() => parent.to_string(),
        _ => "/".to_string(),
    }
}

impl Disk {
    /// The path with every link on the way followed.
    fn resolve(&self, path: &str) -> String {
        let mut real = String::new();
        for name in path.split('/').filter(|name| !name.is_empty()) {
            real = format!("{real}/{name}");
            if let Some(Entry::Link(target)) = self.entries.get(&real) {
                real = self.resolve(target);
            }
        }
        if real.is_empty() {
            "/".to_string()
        } else {
            real
        }
    }

    fn holds(&self, path: &str) -> bool {
        let real = self.resolve(path);
        real == "/" || self.entries.contains_key(&real)
    }

    fn is_writable(&self, dir: &str) -> bool {
        dir == "/" || self.entries.get(dir) == Some(&Entry::Dir)
    }

    fn create_dirs(&mut self, path: &str) -> Result<(), String> {
        if self.broken {
            return Err("disk is broken".to_string());
        }
        let real = self.resolve(path);
        match self.entries.get(&real) {
            Some(Entry::File) => return Err("not a directory".to_string()),
            Some(_) => return Ok(()),
            None if real == "/" => return Ok(()),
            None => {}
        }
        let parent = parent_of(&real);
        self.create_dirs(&parent)?;
        if !self.is_writable(&self.resolve(&parent)) {
            return Err("permission denied".to_string());
        }
        self.entries.insert(real, Entry::Dir);
        Ok(())
    }

    fn create_file(&mut self, path: &str, must_be_new: bool) -> Result<(), String> {
        let real = self.resolve(path);
        match self.entries.get(&real) {
            Some(Entry::File) if !must_be_new => return Ok(()),
            Some(_) => return Err("exists".to_string()),
            None => {}
        }
        if !self.is_writable(&parent_of(&real)) {
            return Err("permission denied".to_string());
        }
        self.entries.insert(real, Entry::File);
        Ok(())
    }

    fn probe(&self, path: &str) -> Probe {
        match self.entries.get(&self.resolve(path)) {
            None => Probe::Missing,
            Some(Entry::Dir) => Probe::Usable,
            Some(_) => Probe::Unusable,
        }
    }

    fn files_in(&self, dir: &str) -> Vec<String> {
        let prefix = format!("{dir}/");
        self.entries
            .iter()
            .filter(|(path, entry)| {
                path.starts_with(&prefix)
                    && !path[prefix.len()..].contains('/')
                    && **entry == Entry::File
            })
            .map(|(path, _)| path[prefix.len()..].to_string())
            .collect()
    }
}

fn requested(path: &str) -> Requested {
    let name = path.rsplit('/').next().filter(|name| !name.is_empty());
    Requested {
        path: path.to_string(),
        parent: parent_of(path),
        name: name.map(str::to_string),
        separator: '/',
    }
}

/// A controller for the directory, and the path that it has settled on.
fn open(
    disk: &mut Disk,
    path: &str,
) -> Result<(DirectFsController, String), DirectFsControllerError> {
    let requested = requested(path);
    let mut progress = DirectFsController::new(&requested);
    loop {
        match progress {
            OutDirProgress::Ready(controller) => {
                let drop_dir = controller.file_drop_dir();
                return Ok((controller, parent_of(&drop_dir)));
            }
            OutDirProgress::Failed(error) => return Err(error),
            OutDirProgress::Ask(ask, path, stage) => {
                let event = match ask {
                    OutDirAsk::Probe => OutDirEvent::Probed(disk.probe(&path)),
                    OutDirAsk::CreateDirs => match disk.create_dirs(&path) {
                        Ok(()) => OutDirEvent::Done,
                        Err(error) => OutDirEvent::Failed(error),
                    },
                    OutDirAsk::Canonicalize => OutDirEvent::Resolved(disk.resolve(&path)),
                };
                progress = DirectFsController::found(&requested, stage, path, event);
            }
        }
    }
}

struct Host {
    disk: Disk,
    controller: DirectFsController,
    root: String,
}

impl Host {
    fn at(disk: Disk, path: &str) -> Self {
        let mut disk = disk;
        let (controller, root) = open(&mut disk, path).expect("handler creation");
        Host {
            disk,
            controller,
            root,
        }
    }

    fn names_below(&self, path: &str) -> Option<Vec<String>> {
        let rest = path.strip_prefix(&self.root)?;
        if rest.is_empty() {
            return Some(Vec::new());
        }
        let rest = rest.strip_prefix('/')?;
        Some(rest.split('/').map(str::to_string).collect())
    }

    fn path(&self, place: &Place) -> String {
        self.controller.path_of(place)
    }

    fn answer(&mut self, ask: FsAsk<Place>) -> FsEvent {
        let done = |outcome: Result<(), String>| match outcome {
            Ok(()) => FsEvent::Done,
            Err(error) => FsEvent::Failed(error),
        };
        let opened = |outcome: Result<(), String>| match outcome {
            Ok(()) => FsEvent::Opened,
            Err(error) => FsEvent::Failed(error),
        };
        match ask {
            FsAsk::CreateDirs(place) => {
                let path = self.path(&place);
                done(self.disk.create_dirs(&path))
            }
            FsAsk::Exists(place) => FsEvent::Exists(self.disk.holds(&self.path(&place))),
            FsAsk::Canonicalize(place) => {
                let actual = self.disk.resolve(&self.path(&place));
                let names = self.names_below(&actual);
                FsEvent::Resolved { actual, names }
            }
            FsAsk::CreateNew(place) => {
                let path = self.path(&place);
                opened(self.disk.create_file(&path, true))
            }
            FsAsk::Append(place) | FsAsk::Overwrite(place) => {
                let path = self.path(&place);
                opened(self.disk.create_file(&path, false))
            }
            FsAsk::Remove(place) => {
                let path = self.disk.resolve(&self.path(&place));
                match self.disk.entries.remove(&path) {
                    Some(Entry::File) => FsEvent::Done,
                    _ => FsEvent::Failed("no such file".to_string()),
                }
            }
            FsAsk::Rename { from, to } => {
                let from = self.disk.resolve(&self.path(&from));
                let to = self.disk.resolve(&self.path(&to));
                match self.disk.entries.remove(&from) {
                    Some(entry) => {
                        self.disk.entries.insert(to, entry);
                        FsEvent::Done
                    }
                    None => FsEvent::Failed("no such file".to_string()),
                }
            }
            FsAsk::List(place) => FsEvent::Listed(self.disk.files_in(&self.path(&place))),
        }
    }

    fn run(&mut self, task: FsTask) -> FsReply {
        let mut step = self.controller.start(task);
        loop {
            match step {
                FsStep::Reply(reply) => return reply,
                FsStep::Ask(ask, stage) => {
                    let event = self.answer(ask);
                    step = self.controller.resume(stage, event);
                }
            }
        }
    }

    /// What a file request gets when it wants to write a file.
    fn get_file_for_writing(
        &mut self,
        handler: &FilerequestDriveHandler,
        filename: &str,
    ) -> Result<String, GetFileError> {
        let uri = handler.get_file_for_writing(filename)?;
        match self.run(FsTask::CreateFileForWriting(uri)) {
            FsReply::Opened(Ok(path)) => Ok(path),
            FsReply::Opened(Err(error)) => {
                Err(FilerequestDriveHandler::host_failure(error.to_text()))
            }
            other => panic!("{:?}", other),
        }
    }
}

fn deep_root_path() -> String {
    let mut path = "/tmp/test".to_string();
    for i in 0..12 {
        path = format!("{path}/level_{i}");
    }
    path
}

fn make_filerequest(name: &str) -> Filerequest {
    Filerequest {
        id: FylesId::new(),
        title: name.to_string(),
        description: "".to_string(),
        access: FilerequestAccess::Public,
        is_active: true,
    }
}

fn setup(name: &str) -> (Host, FilerequestDriveHandler) {
    let mut disk = Disk::default();
    disk.create_dirs(&deep_root_path()).unwrap();
    let host = Host::at(disk, &deep_root_path());
    let handler = FilerequestDriveHandler::with_separator(&make_filerequest(name), '/');
    (host, handler)
}

/// The name of the directory that a handler keeps its files in.
fn dir_of(handler: &FilerequestDriveHandler) -> String {
    match handler.get_file_for_writing("x") {
        Ok(FileNamespace::Namespace { namespace, .. }) => namespace,
        other => panic!("{:?}", other),
    }
}

fn assert_inside(host: &Host, path: &str) {
    let actual = host.disk.resolve(path);
    assert!(
        actual.starts_with(&format!("{}/", host.root)),
        "Path {} escaped root {}",
        actual,
        host.root
    );
}

#[test]
fn outdir_deescalates_non_writable_directory() {
    // Prepare a non-writable directory
    let mut disk = Disk::default();
    let base = deep_root_path();
    disk.create_dirs(&base).unwrap();
    let target = format!("{base}/requested_dir");
    disk.entries.insert(target.clone(), Entry::ReadOnlyDir);

    // Construct handler pointing at the non-writable directory
    let mut host = Host::at(disk, &target);
    // Should have deescalated (added _0)
    assert_ne!(
        host.controller.file_drop_dir(),
        target,
        "Expected deescalation to a different directory"
    );
    let name = host.root.rsplit('/').next().unwrap();
    assert!(
        name.starts_with("requested_dir_"),
        "Expected suffix added, got {}",
        name
    );
    assert_eq!(name, "requested_dir_0");

    // Confirm new directory is writable by creating a test file
    let test_file = format!("{}/write_probe", host.root);
    host.disk.create_file(&test_file, true).expect("write probe");
    assert!(host.disk.holds(&test_file));
}

#[test]
fn outdir_deescalates_multiple_non_writable_directories() {
    let mut disk = Disk::default();
    let base = deep_root_path();
    disk.create_dirs(&base).unwrap();
    let original = format!("{base}/zap");
    let first = format!("{base}/zap_0");
    for dir in [&original, &first] {
        disk.entries.insert(dir.clone(), Entry::ReadOnlyDir);
    }

    let mut host = Host::at(disk, &original);

    // Should have skipped zap and zap_0 -> landing on zap_1 (or higher if already present)
    let fname = host.root.rsplit('/').next().unwrap().to_string();
    assert!(
        fname.starts_with("zap_"),
        "Expected deescalated directory starting with zap_, got {}",
        fname
    );
    assert_ne!(
        fname, "zap",
        "Should not be original non-writable directory name"
    );
    assert_ne!(
        fname, "zap_0",
        "Should not be first non-writable variant name"
    );

    // Writable check
    let probe = format!("{}/probe_file", host.root);
    host.disk.create_file(&probe, true).expect("write probe");
    assert!(host.disk.holds(&probe));
}

// This test ensures that empty filerequest names (or such that become empty after sanitization) are
// - not leading to security violations
// - still result in files being created inside a safe directory
// It does this by falling back to the filerequest's unique ID when the sanitized name is empty
#[test]
fn filerequest_name_collapses_safely_when_sanitized() {
    let (mut host, frh) = setup(":::::://///\\\\\\*****???");
    let p = host.get_file_for_writing(&frh, "still.txt").unwrap();
    assert_inside(&host, &parent_of(&p));
}

#[test]
fn rename_files_with_identical_names() {
    let (mut host, frh) = setup("multi");
    let mut dir: Option<String> = None;
    let iterations = 12;
    let mut created: usize = 0;
    for _ in 0..iterations {
        let p = host.get_file_for_writing(&frh, "file.txt").unwrap();
        if dir.is_none() {
            dir = Some(parent_of(&p));
        }
        created += 1;
    }
    let dir = dir.unwrap();
    let count = host.disk.files_in(&dir).len();
    assert!(
        count == created,
        "Directory should have exactly {created} files, found {count}"
    );
    assert_inside(&host, &dir);
}

#[test]
fn symlink_escape_detected() {
    let (mut host, frh) = setup("symlink-attack");

    // First create a normal file to ensure the directory exists.
    let first_path = host
        .get_file_for_writing(&frh, "first.txt")
        .expect("initial file");
    let fr_dir = parent_of(&first_path);

    // Clean up: remove created file and directory so we can replace it with a symlink.
    host.disk.entries.remove(&first_path).expect("remove first file");
    host.disk.entries.remove(&fr_dir).expect("remove original fr dir");

    // Point the symlink to the parent of the allowed root.
    let target = parent_of(&host.root);
    host.disk.entries.insert(fr_dir, Entry::Link(target.clone()));

    // Attempt to create another file; should now fail with security violation.
    let res = host.get_file_for_writing(&frh, "second.txt");
    assert!(
        matches!(res, Err(GetFileError::FilerequestDir(_))),
        "Expected directory Escape error, got {res:?}"
    );
    let uri = frh.get_file_for_writing("second.txt").unwrap();
    match host.run(FsTask::CreateFileForWriting(uri)) {
        FsReply::Opened(Err(FsError::Write(FileWriteError::FilerequestDirError(
            FilerequestDirError::Escape { actual, root },
        )))) => {
            assert_eq!(actual, target);
            assert_eq!(root, format!("{}/Received", host.root));
        }
        other => panic!("{:?}", other),
    }
    assert!(host.disk.files_in(&target).is_empty());
}

#[test]
fn traversal_in_filerequest_name_does_not_escape() {
    let (mut host, frh) = setup("../../../../etc/passwd");
    let path = host
        .get_file_for_writing(&frh, "legit.txt")
        .expect("file create");
    assert_inside(&host, &parent_of(&path));
}

#[test]
fn different_filerequests_with_same_sanitized_names_dont_collide() {
    let mut disk = Disk::default();
    disk.create_dirs(&deep_root_path()).unwrap();
    let mut host = Host::at(disk, &deep_root_path());

    // Create two different filerequests with names that sanitize to the same result
    let fr1 = make_filerequest("Test/Request"); // Will sanitize to "TestRequest"
    let fr2 = make_filerequest("Test\\Request"); // Will also sanitize to "TestRequest"
    let frh1 = FilerequestDriveHandler::with_separator(&fr1, '/');
    let frh2 = FilerequestDriveHandler::with_separator(&fr2, '/');

    // Create files in both filerequests
    let path1 = host.get_file_for_writing(&frh1, "file1.txt").unwrap();
    let path2 = host.get_file_for_writing(&frh2, "file2.txt").unwrap();

    // Extract the parent directories
    let dir1 = parent_of(&path1);
    let dir2 = parent_of(&path2);
    assert_ne!(
        dir1, dir2,
        "SECURITY ISSUE: Different filerequests are using the same directory: {}",
        dir1
    );
}

#[test]
fn long_titles_do_not_push_the_id_out_of_the_name() {
    let mut disk = Disk::default();
    disk.create_dirs(&deep_root_path()).unwrap();
    let mut host = Host::at(disk, &deep_root_path());
    let title = "\u{e4}".repeat(400);
    let handlers: Vec<FilerequestDriveHandler> = (0..2)
        .map(|_| FilerequestDriveHandler::with_separator(&make_filerequest(&title), '/'))
        .collect();
    let paths: Vec<String> = handlers
        .iter()
        .map(|handler| host.get_file_for_writing(handler, "a.txt").unwrap())
        .collect();
    assert_ne!(parent_of(&paths[0]), parent_of(&paths[1]));
}

#[test]
fn requests_with_any_ids_have_directories_of_their_own() {
    let mut disk = Disk::default();
    disk.create_dirs(&deep_root_path()).unwrap();
    let mut host = Host::at(disk, &deep_root_path());
    let requests = [("a", "b-c"), ("a-b", "c"), ("a", "b c"), ("a b", "c"), ("A", "b c"), ("", "???")];
    let mut parents: Vec<String> = Vec::new();
    for (id, title) in requests {
        let mut request = make_filerequest(title);
        request.id = FylesId::from(id);
        let handler = FilerequestDriveHandler::with_separator(&request, '/');
        let path = host.get_file_for_writing(&handler, "a.txt").unwrap();
        assert_inside(&host, &path);
        parents.push(parent_of(&path));
    }
    assert!(parents[0].ends_with("/a b-c"));
    assert!(parents[5].ends_with("/__ untitled"));
    for i in 0..parents.len() {
        for j in 0..i {
            assert_ne!(parents[i], parents[j]);
        }
    }
}

#[test]
fn empty_filename_rejected() {
    let (mut host, frh) = setup("normal");
    let res = host.get_file_for_writing(&frh, "");
    assert!(
        matches!(res, Err(GetFileError::SanitizedEmpty { .. })),
        "Expected SanitizedEmpty, got {res:?}"
    );
}

#[test]
fn reserved_filename_rejected() {
    let (mut host, frh) = setup("normal");
    for bad in [".", "..", ".hidden", "..tricky"] {
        let res = host.get_file_for_writing(&frh, bad);
        assert!(
            matches!(res, Err(GetFileError::FileNameStartsWithDot)),
            "Expected FileNameStartsWithDot for '{bad}', got {res:?}"
        );
    }
}

#[test]
fn directories_that_do_not_exist_are_made() {
    let host = Host::at(Disk::default(), "/somewhere/new");
    assert_eq!(host.root, "/somewhere/new");
    assert!(host.disk.holds("/somewhere/new"));
    assert_eq!(host.controller.file_drop_dir(), "/somewhere/new/Received");
}

#[test]
fn directories_that_cannot_be_made_are_told() {
    let mut disk = Disk {
        broken: true,
        ..Disk::default()
    };
    let error = open(&mut disk, "/somewhere").unwrap_err();
    assert_eq!(
        error.to_text(),
        "Failed to create output directory /somewhere: disk is broken"
    );
}

#[test]
fn search_for_a_directory_ends() {
    let mut disk = Disk::default();
    disk.create_dirs("/base").unwrap();
    disk.entries.insert("/base/full".to_string(), Entry::ReadOnlyDir);
    for i in 0..=NUMBER_OF_VARIATIONS_TO_TRY {
        disk.entries
            .insert(format!("/base/full_{i}"), Entry::ReadOnlyDir);
    }
    let error = open(&mut disk, "/base/full").unwrap_err();
    assert!(matches!(
        &error,
        DirectFsControllerError::DeescalatePathError(
            DeescalatePathError::NoAccessibleVariantFound(path, 100)
        ) if path == "/base/full"
    ));
    assert_eq!(
        error.to_text(),
        "Failed to find accessible directory variant for /base/full after 100 attempts"
    );
}

#[test]
fn root_without_a_name_has_no_siblings() {
    let mut disk = Disk::default();
    disk.entries.insert("/".to_string(), Entry::ReadOnlyDir);
    let error = open(&mut disk, "/").unwrap_err();
    assert_eq!(error.to_text(), "Invalid base path /");
}

#[test]
fn writes_under_one_name_keep_apart() {
    let (mut host, frh) = setup("../multi");
    let mut paths: Vec<String> = Vec::new();
    for _ in 0..=NUMBER_OF_VARIATIONS_TO_TRY {
        let path = host.get_file_for_writing(&frh, "file.txt").unwrap();
        assert!(!paths.contains(&path));
        paths.push(path);
    }
    let dir = format!("{}/Received/{}", host.root, dir_of(&frh));
    assert_eq!(paths[0], format!("{dir}/file.txt"));
    assert_eq!(paths[1], format!("{dir}/file_0.txt"));
    assert_eq!(paths[100], format!("{dir}/file_99.txt"));
    assert_eq!(host.disk.files_in(&dir).len(), paths.len());
    assert_inside(&host, &dir);
}

#[test]
fn search_for_a_file_name_ends() {
    let (mut host, frh) = setup("multi");
    for _ in 0..=NUMBER_OF_VARIATIONS_TO_TRY {
        host.get_file_for_writing(&frh, "file.txt").unwrap();
    }
    let error = host.get_file_for_writing(&frh, "file.txt").unwrap_err();
    assert_eq!(
        error.to_text(),
        format!(
            "Error in filerequest directory handling: Failed to find unique filename for \
             {}/Received/{}/file.txt",
            host.root,
            dir_of(&frh)
        )
    );
}

#[test]
fn file_names_are_numbered_before_their_extension() {
    assert_eq!(numbered("photo.jpg", 0), "photo_0.jpg");
    assert_eq!(numbered("archive.tar.gz", 7), "archive.tar_7.gz");
    assert_eq!(numbered("README", 12), "README_12");
    assert_ne!(numbered("photo.jpg", 1), numbered("photo.jpg", 11));
}

#[test]
fn directories_are_renamed_unless_there_is_one() {
    let (mut host, _) = setup("normal");
    let directory = |name: &str| FileNamespace::directory(name.to_string());
    for name in ["old", "taken"] {
        let made = host.run(FsTask::CreateFilerequestResource(directory(name)));
        assert!(matches!(made, FsReply::Done(Ok(()))));
    }
    match host.run(FsTask::RenameResource {
        from: directory("old"),
        to: directory("taken"),
    }) {
        FsReply::Done(Err(FsError::Rename(FileRenameError::TargetAlreadyExists(path)))) => {
            assert_eq!(path, format!("{}/Received/taken", host.root))
        }
        other => panic!("{:?}", other),
    }
    let renamed = host.run(FsTask::RenameResource {
        from: directory("old"),
        to: directory("new/"),
    });
    assert!(matches!(renamed, FsReply::Done(Ok(()))));
    assert!(host.disk.holds(&format!("{}/Received/new", host.root)));
    assert!(!host.disk.holds(&format!("{}/Received/old", host.root)));
}

#[test]
fn files_are_renamed_beside_others() {
    let (mut host, frh) = setup("normal");
    host.get_file_for_writing(&frh, "a.txt").unwrap();
    host.get_file_for_writing(&frh, "b.txt").unwrap();
    let plan = frh.rename_file("a.txt", "b.txt").unwrap();
    let renamed = host.run(FsTask::RenameResource {
        from: plan.from,
        to: plan.to,
    });
    assert!(matches!(renamed, FsReply::Done(Ok(()))));
    let mut files = host.disk.files_in(&format!("{}/Received/{}", host.root, dir_of(&frh)));
    files.sort();
    assert_eq!(files, vec!["b.txt", "b_0.txt"]);
}

#[test]
fn renames_that_ask_too_much_are_refused() {
    let file = |dir: &str, name: &str| FileNamespace::file_in(dir.to_string(), name.to_string());
    let too_much = plan_rename(file("a", "x"), file("b", "x"), false);
    assert!(matches!(too_much, Err(FileRenameError::RenamingTooMuch)));
    let asymmetric = plan_rename(
        file("a", "x"),
        FileNamespace::directory("a".to_string()),
        false,
    );
    assert!(matches!(asymmetric, Err(FileRenameError::AsymmetricPaths)));
    let plan = plan_rename(file("a", "x"), file("a", "y:z"), false).unwrap();
    assert_eq!(plan.from, vec!["a", "x"]);
    assert_eq!(plan.to, vec!["a", "yz"]);
    assert!(plan.is_file);
}

#[test]
fn partial_files_get_their_place() {
    let (mut host, frh) = setup("normal");
    assert!(matches!(
        host.run(FsTask::ListPartialFiles),
        FsReply::Listed(Ok(names)) if names.is_empty()
    ));
    let plan = frh.finalize_partial_file("transfer.part", "a.txt").unwrap();
    match host.run(FsTask::GetPartialFileForWriting("transfer.part".to_string())) {
        FsReply::Opened(Ok(path)) => {
            assert_eq!(path, format!("{}/Partial/transfer.part", host.root))
        }
        other => panic!("{:?}", other),
    }
    assert!(matches!(
        host.run(FsTask::ListPartialFiles),
        FsReply::Listed(Ok(names)) if names == vec!["transfer.part"]
    ));
    host.get_file_for_writing(&frh, "a.txt").unwrap();
    let done = host.run(FsTask::FinalizePartialFile {
        partial_filename: plan.partial_filename,
        target: plan.target,
    });
    assert!(matches!(done, FsReply::Done(Ok(()))));
    let mut files = host.disk.files_in(&format!("{}/Received/{}", host.root, dir_of(&frh)));
    files.sort();
    assert_eq!(files, vec!["a.txt", "a_0.txt"]);
    assert!(host.disk.files_in(&format!("{}/Partial", host.root)).is_empty());
}

#[test]
fn partial_files_are_removed() {
    let (mut host, _) = setup("normal");
    let remove = || FsTask::RemovePartialFile("transfer.part".to_string());
    assert!(matches!(host.run(remove()), FsReply::Done(Ok(()))));
    host.run(FsTask::GetPartialFileForWriting("transfer.part".to_string()));
    assert!(matches!(host.run(remove()), FsReply::Done(Ok(()))));
    assert!(host.disk.files_in(&format!("{}/Partial", host.root)).is_empty());
}

#[test]
fn partial_names_are_bare() {
    assert!(validate_partial_basename("transfer.part", false).is_ok());
    for bad in ["", ".", "..", "a/b", "/a", "a/"] {
        assert_eq!(
            validate_partial_basename(bad, false).unwrap_err(),
            format!("Refusing partial filename that is not a bare basename: '{bad}'")
        );
    }
    assert!(validate_partial_basename("a\\b", false).is_ok());
    assert!(validate_partial_basename("a\\b", true).is_err());
    assert!(validate_partial_basename("c:x", true).is_err());
    let (mut host, _) = setup("normal");
    assert!(matches!(
        host.run(FsTask::GetPartialFileForWriting("../x".to_string())),
        FsReply::Opened(Err(FsError::Other(_)))
    ));
}

#[test]
fn exact_files_are_appended_to() {
    let (mut host, frh) = setup("normal");
    for _ in 0..2 {
        let uri = frh.get_exact_file_for_writing("a.txt").unwrap();
        match host.run(FsTask::GetExactFileForWriting(uri)) {
            FsReply::Opened(Ok(path)) => {
                assert_eq!(path, format!("{}/Received/{}/a.txt", host.root, dir_of(&frh)))
            }
            other => panic!("{:?}", other),
        }
    }
    let uri = frh.remove_file("a.txt").unwrap();
    assert!(matches!(
        host.run(FsTask::RemoveFile(uri)),
        FsReply::Done(Ok(()))
    ));
    let uri = frh.remove_file("a.txt").unwrap();
    match host.run(FsTask::RemoveFile(uri)) {
        FsReply::Done(Err(error)) => assert_eq!(error.to_text(), "Could not remove file"),
        other => panic!("{:?}", other),
    }
}

#[test]
fn backups_are_named_after_the_day() {
    let (mut host, _) = setup("normal");
    match host.run(FsTask::OpenBackupFile {
        date: "2024-05-06".to_string(),
    }) {
        FsReply::Opened(Ok(path)) => {
            assert_eq!(path, format!("{}/Backup/2024-05-06_fyles.bak", host.root))
        }
        other => panic!("{:?}", other),
    }
}

#[test]
fn unwritable_places_are_told() {
    let (mut host, frh) = setup("normal");
    host.disk.broken = true;
    let error = host.get_file_for_writing(&frh, "a.txt").unwrap_err();
    assert_eq!(
        error.to_text(),
        "Error in filerequest directory handling: Failed to create parent directories: \
         disk is broken"
    );
}

#[test]
fn directories_follow_the_titles_of_requests() {
    let request = make_filerequest("Photos");
    let mut handler = FilerequestDriveHandler::with_separator(&request, '/');
    assert_eq!(dir_of(&handler), format!("{} Photos", request.id.0));
    let (from, to) = handler.rename_filerquest(&"Pictures?".to_string()).unwrap();
    let (mut host, _) = setup("normal");
    host.run(FsTask::CreateFilerequestResource(FileNamespace::directory(
        FilerequestDriveHandler::name_for(&request.id, &request.title, '/'),
    )));
    let renamed = host.run(FsTask::RenameResource { from, to });
    assert!(matches!(renamed, FsReply::Done(Ok(()))));
    handler.renamed(&"Pictures?".to_string());
    let path = host.get_file_for_writing(&handler, "a.txt").unwrap();
    assert_eq!(
        path,
        format!("{}/Received/{} Pictures/a.txt", host.root, request.id.0)
    );
    assert!(handler.rename_filerquest(&"???".to_string()).is_err());
}

#[test]
fn notifications_name_the_sender_if_known() {
    let received = |contact_name: Option<&str>| Notification::FileReceived {
        contact_name: contact_name.map(str::to_string),
        filerequest_name: "Photos".to_string(),
        file_name: "a.jpg".to_string(),
        file_size: 1_500_000,
    };
    let known = notification_texts(received(Some("John")), '.');
    assert_eq!(known.title_id, "file-received-title");
    assert_eq!(known.body_id, "file-received-mess-with-contact");
    assert!(known
        .args
        .contains(&("senderName".to_string(), "John".to_string())));
    assert!(known
        .args
        .contains(&("fileSizeValue".to_string(), "1.5".to_string())));
    let unknown = notification_texts(received(None), '.');
    assert_eq!(unknown.body_id, "received-file-via-filerequest");
    assert_eq!(unknown.args.len(), 4);
}
