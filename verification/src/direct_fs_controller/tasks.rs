//! What the host does with files, one question to the file system at a time.
use vstd::prelude::*;

use crate::direct_fs_controller::{
    backup_file_name, numbered, parse_sanitized, plan_rename, rename_target,
    validate_partial_basename, FileRenameError, FileWriteError, FilerequestDirError, RenameTarget,
    NUMBER_OF_VARIATIONS_TO_TRY,
};
use crate::filerequest_drive_handler::GetFileError;
use crate::io_controller::FileNamespace;
use crate::text::str_eq;

verus! {

// Places

/// The directory for received files.
pub const RECEIVED: &'static str = "Received";

/// The directory for backups.
pub const BACKUP: &'static str = "Backup";

/// The directory for files that are not complete yet.
pub const PARTIAL: &'static str = "Partial";

/// A place in the directory of the host: the names that lead to it, and whether a separator is
/// written behind them.
#[derive(Debug)]
pub struct Place {
    pub names: Vec<String>,
    pub trailing: bool,
}

pub ghost struct PlaceView {
    pub names: Seq<Seq<char>>,
    pub trailing: bool,
}

impl View for Place {
    type V = PlaceView;

    open spec fn view(&self) -> PlaceView {
        PlaceView { names: crate::domain_models::views(self.names@), trailing: self.trailing }
    }
}

/// A path with one more name on it. A name that starts at the top replaces the path.
pub open spec fn pushed(path: Seq<char>, name: Seq<char>, separator: char) -> Seq<char> {
    if name.len() > 0 && name[0] == separator {
        name
    } else if path.len() == 0 || path.last() == separator {
        path + name
    } else {
        path.push(separator) + name
    }
}

/// A path with more names on it.
pub open spec fn joined(path: Seq<char>, names: Seq<Seq<char>>, separator: char) -> Seq<char>
    decreases names.len(),
{
    if names.len() == 0 {
        path
    } else {
        pushed(joined(path, names.drop_last(), separator), names.last(), separator)
    }
}

pub open spec fn is_named(name: Seq<char>) -> bool {
    name.len() > 0
}

/// Those of the names that are not empty.
pub open spec fn named(names: Seq<Seq<char>>) -> Seq<Seq<char>> {
    names.filter(|name: Seq<char>| is_named(name))
}

proof fn lemma_first_named(names: Seq<Seq<char>>)
    requires
        names.len() > 0,
        is_named(names[0]),
    ensures
        named(names).len() > 0,
        named(names)[0] == names[0],
    decreases names.len(),
{
    reveal(Seq::filter);
    if names.len() > 1 {
        lemma_first_named(names.drop_last());
    } else {
        assert(names.drop_last() =~= Seq::empty());
    }
}

impl PlaceView {
    /// The place that the names lead to. Empty names lead nowhere.
    pub open spec fn below(directory: Seq<char>, names: Seq<Seq<char>>) -> PlaceView {
        PlaceView {
            names: seq![directory] + named(names),
            trailing: names.len() > 0 && !is_named(names.last()),
        }
    }

    pub open spec fn directory(name: Seq<char>) -> PlaceView {
        PlaceView { names: seq![name], trailing: false }
    }

    pub open spec fn parent(self) -> PlaceView {
        PlaceView { names: self.names.drop_last(), trailing: false }
    }

    pub open spec fn file_name(self) -> Seq<char> {
        self.names.last()
    }

    pub open spec fn with_file_name(self, name: Seq<char>) -> PlaceView {
        PlaceView { names: self.names.drop_last().push(name), trailing: false }
    }

    /// The path of the place, as it is shown.
    pub open spec fn shown(self, root: Seq<char>, separator: char) -> Seq<char> {
        let path = joined(root, self.names, separator);
        if self.trailing {
            pushed(path, Seq::empty(), separator)
        } else {
            path
        }
    }

    /// Whether the names lead into the directory for received files.
    pub open spec fn is_received(names: Option<Seq<Seq<char>>>) -> bool {
        names matches Some(names) && names.len() > 0 && names[0] == RECEIVED@
    }
}

pub(crate) fn push_name(path: String, name: &str, separator: char) -> (r: String)
    ensures
        r@ == pushed(path@, name@, separator),
{
    let name_length: usize = name.unicode_len();
    if name_length > 0 && name.get_char(0) == separator {
        return name.to_owned();
    }
    let length: usize = path.as_str().unicode_len();
    if length == 0 || path.as_str().get_char(length - 1) == separator {
        path.concat(name)
    } else {
        let mut path = path;
        path.push(separator);
        path.concat(name)
    }
}

impl Clone for Place {
    fn clone(&self) -> (r: Self)
        ensures
            r@ == self@,
    {
        Place { names: clone_names(&self.names), trailing: self.trailing }
    }
}

fn clone_names(names: &Vec<String>) -> (r: Vec<String>)
    ensures
        r@.len() == names@.len(),
        crate::domain_models::views(r@) == crate::domain_models::views(names@),
{
    let mut copy: Vec<String> = Vec::new();
    for i in 0..names.len()
        invariant
            copy@.len() == i,
            forall|j: int| 0 <= j < i ==> (#[trigger] copy@[j])@ == names@[j]@,
    {
        copy.push(names[i].clone());
    }
    assert(crate::domain_models::views(copy@) =~= crate::domain_models::views(names@));
    copy
}

impl Place {
    fn directory(name: &str) -> (r: Self)
        ensures
            r@ == PlaceView::directory(name@),
    {
        let names: Vec<String> = vec![name.to_owned()];
        assert(crate::domain_models::views(names@) =~= seq![name@]);
        Place { names, trailing: false }
    }

    fn below(directory: &str, names: Vec<String>) -> (r: Self)
        ensures
            r@ == PlaceView::below(directory@, crate::domain_models::views(names@)),
            r@.names.len() > 0,
    {
        let ghost all = crate::domain_models::views(names@);
        let mut kept: Vec<String> = vec![directory.to_owned()];
        let mut trailing = false;
        assert(all.take(0) =~= Seq::empty());
        assert(named(all.take(0)) =~= Seq::empty()) by {
            reveal(Seq::filter);
        }
        assert(crate::domain_models::views(kept@) =~= seq![directory@] + named(all.take(0)));
        for i in 0..names.len()
            invariant
                all == crate::domain_models::views(names@),
                crate::domain_models::views(kept@) == seq![directory@] + named(all.take(i as int)),
                trailing == (i > 0 && !is_named(all[i - 1])),
        {
            let ghost before = kept@;
            let name = &names[i];
            proof {
                assert(all.take(i + 1).drop_last() =~= all.take(i as int));
                assert(all.take(i + 1).last() == name@);
                reveal(Seq::filter);
            }
            if name.as_str().is_empty() {
                trailing = true;
            } else {
                trailing = false;
                kept.push(name.clone());
                assert(crate::domain_models::views(kept@) =~= crate::domain_models::views(
                    before,
                ).push(name@));
                assert(crate::domain_models::views(kept@) =~= seq![directory@] + named(
                    all.take(i + 1),
                ));
            }
        }
        assert(all.take(all.len() as int) =~= all);
        Place { names: kept, trailing }
    }

    fn parent(&self) -> (r: Self)
        requires
            self@.names.len() > 0,
        ensures
            r@ == self@.parent(),
    {
        let mut names = clone_names(&self.names);
        let ghost before = crate::domain_models::views(names@);
        names.pop();
        assert(crate::domain_models::views(names@) =~= before.drop_last());
        Place { names, trailing: false }
    }

    fn file_name(&self) -> (r: &String)
        requires
            self@.names.len() > 0,
        ensures
            r@ == self@.file_name(),
    {
        &self.names[self.names.len() - 1]
    }

    fn with_file_name(&self, name: String) -> (r: Self)
        requires
            self@.names.len() > 0,
        ensures
            r@ == self@.with_file_name(name@),
    {
        let mut parent = self.parent();
        let ghost before = crate::domain_models::views(parent.names@);
        parent.names.push(name);
        assert(crate::domain_models::views(parent.names@) =~= before.push(name@));
        parent
    }
}

// Errors

pub ghost enum FilerequestDirErrorView {
    Create { path: Seq<char>, source: Seq<char> },
    Canonicalize { path: Seq<char>, source: Seq<char> },
    Escape { actual: Seq<char>, root: Seq<char> },
}

impl View for FilerequestDirError {
    type V = FilerequestDirErrorView;

    open spec fn view(&self) -> FilerequestDirErrorView {
        match *self {
            FilerequestDirError::Create { path, source } => FilerequestDirErrorView::Create {
                path: path@,
                source: source@,
            },
            FilerequestDirError::Canonicalize {
                path,
                source,
            } => FilerequestDirErrorView::Canonicalize {
                path: path@,
                source: source@,
            },
            FilerequestDirError::Escape { actual, root } => FilerequestDirErrorView::Escape {
                actual: actual@,
                root: root@,
            },
        }
    }
}

pub ghost enum FileWriteErrorView {
    InvalidPath(Seq<char>),
    NotWritingToRoot,
    CreateParentDirs(Seq<char>),
    CanonicalizePathFailed(Seq<char>),
    PathOutsideParent,
    FilerequestDirError(FilerequestDirErrorView),
    GetFileError(crate::filerequest_drive_handler::GetFileErrorView),
}

impl View for FileWriteError {
    type V = FileWriteErrorView;

    open spec fn view(&self) -> FileWriteErrorView {
        match *self {
            FileWriteError::InvalidPath(source) => FileWriteErrorView::InvalidPath(source@),
            FileWriteError::NotWritingToRoot => FileWriteErrorView::NotWritingToRoot,
            FileWriteError::CreateParentDirs(source) => FileWriteErrorView::CreateParentDirs(
                source@,
            ),
            FileWriteError::CanonicalizePathFailed(
                source,
            ) => FileWriteErrorView::CanonicalizePathFailed(
                source@,
            ),
            FileWriteError::PathOutsideParent => FileWriteErrorView::PathOutsideParent,
            FileWriteError::FilerequestDirError(source) => FileWriteErrorView::FilerequestDirError(
                source@,
            ),
            FileWriteError::GetFileError(source) => FileWriteErrorView::GetFileError(source@),
        }
    }
}

pub ghost enum FileRenameErrorView {
    Io(Seq<char>),
    AsymmetricPaths,
    RenamingTooMuch,
    TargetAlreadyExists(Seq<char>),
    UniqueVariantNotFound(usize),
}

impl View for FileRenameError {
    type V = FileRenameErrorView;

    open spec fn view(&self) -> FileRenameErrorView {
        match *self {
            FileRenameError::Io(source) => FileRenameErrorView::Io(source@),
            FileRenameError::AsymmetricPaths => FileRenameErrorView::AsymmetricPaths,
            FileRenameError::RenamingTooMuch => FileRenameErrorView::RenamingTooMuch,
            FileRenameError::TargetAlreadyExists(
                source,
            ) => FileRenameErrorView::TargetAlreadyExists(
                source@,
            ),
            FileRenameError::UniqueVariantNotFound(
                count,
            ) => FileRenameErrorView::UniqueVariantNotFound(count),
        }
    }
}

/// Why the host did not do what it was asked for.
#[derive(Debug)]
pub enum FsError {
    Write(FileWriteError),
    Rename(FileRenameError),
    Directory(FilerequestDirError),
    Other(String),
}

pub ghost enum FsErrorView {
    Write(FileWriteErrorView),
    Rename(FileRenameErrorView),
    Directory(FilerequestDirErrorView),
    Other(Seq<char>),
}

impl View for FsError {
    type V = FsErrorView;

    open spec fn view(&self) -> FsErrorView {
        match *self {
            FsError::Write(error) => FsErrorView::Write(error@),
            FsError::Rename(error) => FsErrorView::Rename(error@),
            FsError::Directory(error) => FsErrorView::Directory(error@),
            FsError::Other(text) => FsErrorView::Other(text@),
        }
    }
}

impl FsError {
    pub open spec fn text(self) -> Seq<char> {
        match self {
            FsError::Write(error) => error.text(),
            FsError::Rename(error) => error.text(),
            FsError::Directory(error) => error.text(),
            FsError::Other(text) => text@,
        }
    }

    pub fn to_text(&self) -> (r: String)
        ensures
            r@ == self.text(),
    {
        match self {
            FsError::Write(error) => error.to_text(),
            FsError::Rename(error) => error.to_text(),
            FsError::Directory(error) => error.to_text(),
            FsError::Other(text) => text.clone(),
        }
    }
}

// Questions and answers

/// What the host is asked to do.
#[derive(Debug)]
pub enum FsTask {
    /// Make a directory.
    CreateFilerequestResource(FileNamespace),
    RenameResource { from: FileNamespace, to: FileNamespace },
    /// Open a new file, under another name where there is one of that name.
    CreateFileForWriting(FileNamespace),
    /// Open a file to append to.
    GetExactFileForWriting(FileNamespace),
    RemoveFile(FileNamespace),
    /// Open the file for the backup of a day.
    OpenBackupFile { date: String },
    /// Open a file to append to that is not complete yet.
    GetPartialFileForWriting(String),
    RemovePartialFile(String),
    /// Give a file its place that is complete now.
    FinalizePartialFile { partial_filename: String, target: FileNamespace },
    ListPartialFiles,
}

impl FsTask {
    /// The path below the place for received files that the task is about, if it is about one.
    pub open spec fn target(self) -> Option<FileNamespace> {
        match self {
            FsTask::CreateFilerequestResource(name) => Some(name),
            FsTask::CreateFileForWriting(uri) => Some(uri),
            FsTask::GetExactFileForWriting(uri) => Some(uri),
            FsTask::RemoveFile(uri) => Some(uri),
            FsTask::FinalizePartialFile { target, .. } => Some(target),
            _ => None,
        }
    }
}

/// What the file system is asked.
#[derive(Debug)]
#[allow(inconsistent_fields)]
pub enum FsAsk<P> {
    /// Make the directory and those above it.
    CreateDirs(P),
    Exists(P),
    /// Where the place really is.
    Canonicalize(P),
    /// Open a file for writing that must not exist yet.
    CreateNew(P),
    /// Open a file to append to; it is made where there is none.
    Append(P),
    /// Open a file for writing; what it held is gone.
    Overwrite(P),
    Remove(P),
    Rename { from: P, to: P },
    List(P),
}

/// What the file system answers.
#[derive(Debug)]
pub enum FsEvent {
    Failed(String),
    Done,
    Exists(bool),
    /// The real path, and the names on it below the directory of the host where it lies there.
    Resolved { actual: String, names: Option<Vec<String>> },
    Opened,
    Listed(Vec<String>),
}

/// What follows once there is a directory.
#[derive(Debug)]
#[allow(inconsistent_fields)]
pub enum AfterDir<P, S> {
    UniqueFile(P),
    ExactFile(P),
    Resource,
    Finalize { from: P, file_name: S },
}

/// What a name is needed for.
#[derive(Debug)]
#[allow(inconsistent_fields)]
pub enum Purpose<P> {
    Create,
    Rename { from: P },
    Finalize { from: P },
}

/// What is waited for.
#[derive(Debug)]
#[allow(inconsistent_fields)]
pub enum FsStage<P, S> {
    /// The directory for the file was made.
    ParentMade { place: P, unique: bool },
    DirLooked { dir: P, then: AfterDir<P, S> },
    DirMade { dir: P, then: AfterDir<P, S> },
    DirResolved { dir: P, then: AfterDir<P, S> },
    ResourceMade,
    BaseLooked { place: P },
    NameLooked { place: P },
    /// Whether there is a file under the variant of the name.
    VariantLooked { place: P, number: usize, purpose: Purpose<P> },
    TargetLooked { to: P, is_file: bool, purpose: Purpose<P> },
    FileOpened { place: P },
    Renamed,
    Finalized,
    Removed,
    /// The directory for a file was made that needs no other care.
    PlainDirMade { place: P, append: bool },
    PlainOpened { place: P },
    PartialLooked { place: P },
    PartialRemoved,
    PartialsLooked,
    PartialsListed,
}

/// What the host answers: that it is done, the path of the file that was opened, or names.
#[derive(Debug)]
pub enum FsReply {
    Done(Result<(), FsError>),
    Opened(Result<String, FsError>),
    Listed(Result<Vec<String>, FsError>),
}

pub ghost enum FsReplyView {
    Done(Result<(), FsErrorView>),
    Opened(Result<Seq<char>, FsErrorView>),
    Listed(Result<Seq<Seq<char>>, FsErrorView>),
}

impl View for FsReply {
    type V = FsReplyView;

    open spec fn view(&self) -> FsReplyView {
        match *self {
            FsReply::Done(Ok(_)) => FsReplyView::Done(Ok(())),
            FsReply::Done(Err(error)) => FsReplyView::Done(Err(error@)),
            FsReply::Opened(Ok(path)) => FsReplyView::Opened(Ok(path@)),
            FsReply::Opened(Err(error)) => FsReplyView::Opened(Err(error@)),
            FsReply::Listed(Ok(names)) => FsReplyView::Listed(
                Ok(crate::domain_models::views(names@)),
            ),
            FsReply::Listed(Err(error)) => FsReplyView::Listed(Err(error@)),
        }
    }
}

impl View for FsAsk<Place> {
    type V = FsAsk<PlaceView>;

    open spec fn view(&self) -> FsAsk<PlaceView> {
        match *self {
            FsAsk::CreateDirs(place) => FsAsk::CreateDirs(place@),
            FsAsk::Exists(place) => FsAsk::Exists(place@),
            FsAsk::Canonicalize(place) => FsAsk::Canonicalize(place@),
            FsAsk::CreateNew(place) => FsAsk::CreateNew(place@),
            FsAsk::Append(place) => FsAsk::Append(place@),
            FsAsk::Overwrite(place) => FsAsk::Overwrite(place@),
            FsAsk::Remove(place) => FsAsk::Remove(place@),
            FsAsk::Rename { from, to } => FsAsk::Rename { from: from@, to: to@ },
            FsAsk::List(place) => FsAsk::List(place@),
        }
    }
}

impl View for AfterDir<Place, String> {
    type V = AfterDir<PlaceView, Seq<char>>;

    open spec fn view(&self) -> AfterDir<PlaceView, Seq<char>> {
        match *self {
            AfterDir::UniqueFile(place) => AfterDir::UniqueFile(place@),
            AfterDir::ExactFile(place) => AfterDir::ExactFile(place@),
            AfterDir::Resource => AfterDir::Resource,
            AfterDir::Finalize { from, file_name } => AfterDir::Finalize {
                from: from@,
                file_name: file_name@,
            },
        }
    }
}

impl View for Purpose<Place> {
    type V = Purpose<PlaceView>;

    open spec fn view(&self) -> Purpose<PlaceView> {
        match *self {
            Purpose::Create => Purpose::Create,
            Purpose::Rename { from } => Purpose::Rename { from: from@ },
            Purpose::Finalize { from } => Purpose::Finalize { from: from@ },
        }
    }
}

impl View for FsStage<Place, String> {
    type V = FsStage<PlaceView, Seq<char>>;

    open spec fn view(&self) -> FsStage<PlaceView, Seq<char>> {
        match *self {
            FsStage::ParentMade { place, unique } => FsStage::ParentMade { place: place@, unique },
            FsStage::DirLooked { dir, then } => FsStage::DirLooked { dir: dir@, then: then@ },
            FsStage::DirMade { dir, then } => FsStage::DirMade { dir: dir@, then: then@ },
            FsStage::DirResolved { dir, then } => FsStage::DirResolved { dir: dir@, then: then@ },
            FsStage::ResourceMade => FsStage::ResourceMade,
            FsStage::BaseLooked { place } => FsStage::BaseLooked { place: place@ },
            FsStage::NameLooked { place } => FsStage::NameLooked { place: place@ },
            FsStage::VariantLooked { place, number, purpose } => FsStage::VariantLooked {
                place: place@,
                number,
                purpose: purpose@,
            },
            FsStage::TargetLooked { to, is_file, purpose } => FsStage::TargetLooked {
                to: to@,
                is_file,
                purpose: purpose@,
            },
            FsStage::FileOpened { place } => FsStage::FileOpened { place: place@ },
            FsStage::Renamed => FsStage::Renamed,
            FsStage::Finalized => FsStage::Finalized,
            FsStage::Removed => FsStage::Removed,
            FsStage::PlainDirMade { place, append } => FsStage::PlainDirMade {
                place: place@,
                append,
            },
            FsStage::PlainOpened { place } => FsStage::PlainOpened { place: place@ },
            FsStage::PartialLooked { place } => FsStage::PartialLooked { place: place@ },
            FsStage::PartialRemoved => FsStage::PartialRemoved,
            FsStage::PartialsLooked => FsStage::PartialsLooked,
            FsStage::PartialsListed => FsStage::PartialsListed,
        }
    }
}

/// What is done next for a task.
#[derive(Debug)]
pub enum FsStep {
    Reply(FsReply),
    Ask(FsAsk<Place>, FsStage<Place, String>),
}

pub ghost enum FsStepView {
    Reply(FsReplyView),
    Ask(FsAsk<PlaceView>, FsStage<PlaceView, Seq<char>>),
}

impl View for FsStep {
    type V = FsStepView;

    open spec fn view(&self) -> FsStepView {
        match *self {
            FsStep::Reply(reply) => FsStepView::Reply(reply@),
            FsStep::Ask(ask, stage) => FsStepView::Ask(ask@, stage@),
        }
    }
}

impl FsEvent {
    /// Whether the question can be answered like this.
    pub open spec fn answers(self, ask: FsAsk<PlaceView>) -> bool {
        match ask {
            FsAsk::CreateDirs(_) => self is Failed || self is Done,
            FsAsk::Exists(_) => self is Exists,
            FsAsk::Canonicalize(_) => self is Failed || self is Resolved,
            FsAsk::CreateNew(_) => self is Failed || self is Opened,
            FsAsk::Append(_) => self is Failed || self is Opened,
            FsAsk::Overwrite(_) => self is Failed || self is Opened,
            FsAsk::Remove(_) => self is Failed || self is Done,
            FsAsk::Rename { .. } => self is Failed || self is Done,
            FsAsk::List(_) => self is Failed || self is Listed,
        }
    }
}

impl FsStage<PlaceView, Seq<char>> {
    /// Whether this is waited for.
    pub open spec fn takes(self, event: FsEvent) -> bool {
        match self {
            FsStage::ParentMade { .. } => event is Failed || event is Done,
            FsStage::DirLooked { .. } => event is Exists,
            FsStage::DirMade { .. } => event is Failed || event is Done,
            FsStage::DirResolved { .. } => event is Failed || event is Resolved,
            FsStage::ResourceMade => event is Failed || event is Done,
            FsStage::BaseLooked { .. } => event is Exists,
            FsStage::NameLooked { .. } => event is Exists,
            FsStage::VariantLooked { .. } => event is Exists,
            FsStage::TargetLooked { .. } => event is Exists,
            FsStage::FileOpened { .. } => event is Failed || event is Opened,
            FsStage::Renamed => event is Failed || event is Done,
            FsStage::Finalized => event is Failed || event is Done,
            FsStage::Removed => event is Failed || event is Done,
            FsStage::PlainDirMade { .. } => event is Failed || event is Done,
            FsStage::PlainOpened { .. } => event is Failed || event is Opened,
            FsStage::PartialLooked { .. } => event is Exists,
            FsStage::PartialRemoved => event is Failed || event is Done,
            FsStage::PartialsLooked => event is Exists,
            FsStage::PartialsListed => event is Failed || event is Listed,
        }
    }

    /// Whether the places that are named have a name.
    pub open spec fn is_valid(self) -> bool {
        match self {
            FsStage::ParentMade { place, .. } => place.names.len() > 0,
            FsStage::DirLooked { then, .. } => then.is_valid(),
            FsStage::DirMade { then, .. } => then.is_valid(),
            FsStage::DirResolved { then, .. } => then.is_valid(),
            FsStage::BaseLooked { place } => place.names.len() > 0,
            FsStage::NameLooked { place } => place.names.len() > 0,
            FsStage::VariantLooked { place, number, .. } => place.names.len() > 0 && number
                < NUMBER_OF_VARIATIONS_TO_TRY,
            FsStage::TargetLooked { to, .. } => to.names.len() > 0,
            _ => true,
        }
    }
}

impl AfterDir<PlaceView, Seq<char>> {
    pub open spec fn is_valid(self) -> bool {
        match self {
            AfterDir::UniqueFile(place) => place.names.len() > 0,
            _ => true,
        }
    }
}

impl FsStepView {
    /// What is asked can be answered, and every answer is one that is waited for.
    pub open spec fn is_consistent(self) -> bool {
        match self {
            FsStepView::Reply(_) => true,
            FsStepView::Ask(ask, stage) => {
                &&& stage.is_valid()
                &&& forall|event: FsEvent| #[trigger] event.answers(ask) ==> stage.takes(event)
            },
        }
    }
}

// What is done

/// Keeps files in a directory of the host.
#[derive(Debug)]
pub struct DirectFsController {
    root: String,
    separator: char,
}

impl AfterDir<PlaceView, Seq<char>> {
    /// How it ends where there is no directory.
    pub open spec fn fails(self, error: FilerequestDirErrorView) -> FsStepView {
        match self {
            AfterDir::UniqueFile(_) => FsStepView::Reply(
                FsReplyView::Opened(
                    Err(FsErrorView::Write(FileWriteErrorView::FilerequestDirError(error))),
                ),
            ),
            AfterDir::ExactFile(_) => FsStepView::Reply(
                FsReplyView::Opened(
                    Err(FsErrorView::Write(FileWriteErrorView::FilerequestDirError(error))),
                ),
            ),
            AfterDir::Resource => FsStepView::Reply(
                FsReplyView::Done(Err(FsErrorView::Directory(error))),
            ),
            AfterDir::Finalize { .. } => FsStepView::Reply(
                FsReplyView::Done(Err(FsErrorView::Directory(error))),
            ),
        }
    }
}

pub open spec fn done() -> FsStepView {
    FsStepView::Reply(FsReplyView::Done(Ok(())))
}

pub open spec fn fails_with(text: Seq<char>) -> FsStepView {
    FsStepView::Reply(FsReplyView::Done(Err(FsErrorView::Other(text))))
}

pub open spec fn is_not_opened(error: FsErrorView) -> FsStepView {
    FsStepView::Reply(FsReplyView::Opened(Err(error)))
}

/// The directory is looked for, before what needs it is done.
pub open spec fn ensures_dir(dir: PlaceView, then: AfterDir<PlaceView, Seq<char>>) -> FsStepView {
    FsStepView::Ask(FsAsk::Exists(dir), FsStage::DirLooked { dir, then })
}

impl DirectFsController {
    pub closed spec fn root(&self) -> Seq<char> {
        self.root@
    }

    pub closed spec fn separator(&self) -> char {
        self.separator
    }

    pub open spec fn windows(&self) -> bool {
        crate::filerequest_drive_handler::is_windows(self.separator())
    }

    pub open spec fn shown(&self, place: PlaceView) -> Seq<char> {
        place.shown(self.root(), self.separator())
    }

    /// The place of a received file or directory, every name on the way made safe.
    pub open spec fn received(&self, namespace: FileNamespace) -> PlaceView {
        PlaceView::below(
            RECEIVED@,
            crate::direct_fs_controller::sanitized_names(namespace@.names, self.windows()),
        )
    }

    /// Whether a path whose first name begins with a mark leads into a directory whose name bears
    /// it, as far as it fits.
    pub open spec fn keeps_mark(&self, namespace: FileNamespace, mark: Seq<char>) -> bool {
        crate::filerequest_drive_handler::begins_with_mark(namespace@.names[0], mark) ==> {
            &&& self.received(namespace).names.len() > 1
            &&& crate::filerequest_drive_handler::bears_mark(
                self.received(namespace).names[1],
                crate::filerequest_drive_handler::fitting(mark),
            )
        }
    }

    pub open spec fn partial(&self, filename: Seq<char>) -> PlaceView {
        PlaceView { names: seq![PARTIAL@, filename], trailing: false }
    }

    /// How a task begins.
    pub open spec fn begun(&self, task: FsTask) -> FsStepView {
        match task {
            FsTask::CreateFilerequestResource(name) => ensures_dir(
                self.received(name),
                AfterDir::Resource,
            ),
            FsTask::CreateFileForWriting(uri) => {
                let place = self.received(uri);
                FsStepView::Ask(
                    FsAsk::CreateDirs(place.parent()),
                    FsStage::ParentMade { place, unique: true },
                )
            },
            FsTask::GetExactFileForWriting(uri) => {
                let place = self.received(uri);
                FsStepView::Ask(
                    FsAsk::CreateDirs(place.parent()),
                    FsStage::ParentMade { place, unique: false },
                )
            },
            FsTask::RemoveFile(uri) => FsStepView::Ask(
                FsAsk::Remove(self.received(uri)),
                FsStage::Removed,
            ),
            FsTask::RenameResource { from, to } =>
                match crate::direct_fs_controller::planned_rename(from, to, self.windows()) {
                Ok(plan) => {
                    let target = PlaceView::below(RECEIVED@, plan.to);
                    FsStepView::Ask(
                        FsAsk::Exists(target),
                        FsStage::TargetLooked {
                            to: target,
                            is_file: plan.is_file,
                            purpose: Purpose::Rename {
                                from: PlaceView::below(RECEIVED@, plan.from),
                            },
                        },
                    )
                },
                Err(error) => FsStepView::Reply(
                    FsReplyView::Done(Err(FsErrorView::Rename(error@))),
                ),
            },
            FsTask::OpenBackupFile { date } => FsStepView::Ask(
                FsAsk::CreateDirs(PlaceView::directory(BACKUP@)),
                FsStage::PlainDirMade {
                    place: PlaceView {
                        names: seq![BACKUP@, date@ + "_fyles.bak"@],
                        trailing: false,
                    },
                    append: false,
                },
            ),
            FsTask::GetPartialFileForWriting(filename) => if self.is_bare(filename@) {
                FsStepView::Ask(
                    FsAsk::CreateDirs(PlaceView::directory(PARTIAL@)),
                    FsStage::PlainDirMade { place: self.partial(filename@), append: true },
                )
            } else {
                is_not_opened(FsErrorView::Other(self.not_bare(filename@)))
            },
            FsTask::RemovePartialFile(filename) => if self.is_bare(filename@) {
                FsStepView::Ask(
                    FsAsk::Exists(self.partial(filename@)),
                    FsStage::PartialLooked { place: self.partial(filename@) },
                )
            } else {
                fails_with(self.not_bare(filename@))
            },
            FsTask::FinalizePartialFile { partial_filename, target } => {
                let names = named(
                    crate::direct_fs_controller::sanitized_names(target@.names, self.windows()),
                );
                if !self.is_bare(partial_filename@) {
                    fails_with(self.not_bare(partial_filename@))
                } else if names.len() == 0 {
                    fails_with("Invalid path: no filename"@)
                } else {
                    ensures_dir(
                        PlaceView {
                            names: seq![RECEIVED@] + names.drop_last(),
                            trailing: names.len() == 1,
                        },
                        AfterDir::Finalize {
                            from: self.partial(partial_filename@),
                            file_name: names.last(),
                        },
                    )
                }
            },
            FsTask::ListPartialFiles => FsStepView::Ask(
                FsAsk::Exists(PlaceView::directory(PARTIAL@)),
                FsStage::PartialsLooked,
            ),
        }
    }

    pub open spec fn is_bare(&self, filename: Seq<char>) -> bool {
        crate::direct_fs_controller::is_bare_basename(filename, self.windows())
    }

    pub open spec fn not_bare(&self, filename: Seq<char>) -> Seq<char> {
        "Refusing partial filename that is not a bare basename: '"@ + filename + "'"@
    }

    /// The first variant of a name from the given number on is looked for; there are not many.
    pub open spec fn tries_variant(
        &self,
        place: PlaceView,
        number: usize,
        purpose: Purpose<PlaceView>,
    ) -> FsStepView {
        if number < NUMBER_OF_VARIATIONS_TO_TRY {
            FsStepView::Ask(
                FsAsk::Exists(variant(place, number)),
                FsStage::VariantLooked { place, number, purpose },
            )
        } else {
            match purpose {
                Purpose::Create => is_not_opened(
                    FsErrorView::Write(
                        FileWriteErrorView::GetFileError(
                            crate::filerequest_drive_handler::GetFileErrorView::UniqueFileNameVariantNotFound {
                                base: self.shown(place),
                            },
                        ),
                    ),
                ),
                Purpose::Rename { .. } => FsStepView::Reply(
                    FsReplyView::Done(
                        Err(
                            FsErrorView::Rename(
                                FileRenameErrorView::UniqueVariantNotFound(
                                    NUMBER_OF_VARIATIONS_TO_TRY,
                                ),
                            ),
                        ),
                    ),
                ),
                Purpose::Finalize { .. } => fails_with(
                    "Could not find unique filename after 100 tries"@,
                ),
            }
        }
    }

    /// What follows once there is a directory that lies where it should.
    pub open spec fn proceeds(
        &self,
        then: AfterDir<PlaceView, Seq<char>>,
        names: Seq<Seq<char>>,
    ) -> FsStepView {
        match then {
            AfterDir::UniqueFile(place) => FsStepView::Ask(
                FsAsk::Exists(place.parent()),
                FsStage::BaseLooked { place },
            ),
            AfterDir::ExactFile(place) => FsStepView::Ask(
                FsAsk::Append(place),
                FsStage::FileOpened { place },
            ),
            AfterDir::Resource => FsStepView::Ask(
                FsAsk::CreateDirs(PlaceView { names, trailing: false }),
                FsStage::ResourceMade,
            ),
            AfterDir::Finalize { from, file_name } => {
                let to = PlaceView { names: names.push(file_name), trailing: false };
                FsStepView::Ask(
                    FsAsk::Exists(to),
                    FsStage::TargetLooked {
                        to,
                        is_file: true,
                        purpose: Purpose::Finalize { from },
                    },
                )
            },
        }
    }

    /// What follows an answer of the file system.
    pub open spec fn followed(
        &self,
        stage: FsStage<PlaceView, Seq<char>>,
        event: FsEvent,
    ) -> FsStepView {
        match (stage, event) {
            (FsStage::ParentMade { .. }, FsEvent::Failed(source)) => is_not_opened(
                FsErrorView::Write(FileWriteErrorView::CreateParentDirs(source@)),
            ),
            (FsStage::ParentMade { place, unique }, FsEvent::Done) => ensures_dir(
                place.parent(),
                if unique {
                    AfterDir::UniqueFile(place)
                } else {
                    AfterDir::ExactFile(place)
                },
            ),
            (FsStage::DirLooked { dir, then }, FsEvent::Exists(exists)) => if exists {
                FsStepView::Ask(FsAsk::Canonicalize(dir), FsStage::DirResolved { dir, then })
            } else {
                FsStepView::Ask(FsAsk::CreateDirs(dir), FsStage::DirMade { dir, then })
            },
            (FsStage::DirMade { dir, then }, FsEvent::Failed(source)) => then.fails(
                FilerequestDirErrorView::Create { path: self.shown(dir), source: source@ },
            ),
            (FsStage::DirMade { dir, then }, FsEvent::Done) => FsStepView::Ask(
                FsAsk::Canonicalize(dir),
                FsStage::DirResolved { dir, then },
            ),
            (FsStage::DirResolved { dir, then }, FsEvent::Failed(source)) => then.fails(
                FilerequestDirErrorView::Canonicalize { path: self.shown(dir), source: source@ },
            ),
            (FsStage::DirResolved { then, .. }, FsEvent::Resolved { actual, names }) => {
                let names = opt_names(names);
                if PlaceView::is_received(names) {
                    self.proceeds(then, names->Some_0)
                } else {
                    then.fails(
                        FilerequestDirErrorView::Escape {
                            actual: actual@,
                            root: self.shown(PlaceView::directory(RECEIVED@)),
                        },
                    )
                }
            },
            (FsStage::ResourceMade, FsEvent::Failed(source)) => fails_with(source@),
            (FsStage::ResourceMade, FsEvent::Done) => done(),
            (FsStage::BaseLooked { place }, FsEvent::Exists(exists)) => if exists {
                let plain = place.with_file_name(place.file_name());
                FsStepView::Ask(FsAsk::Exists(plain), FsStage::NameLooked { place: plain })
            } else {
                is_not_opened(
                    FsErrorView::Write(
                        FileWriteErrorView::GetFileError(
                            crate::filerequest_drive_handler::GetFileErrorView::BaseDirMissing {
                                base: self.shown(place.parent()),
                            },
                        ),
                    ),
                )
            },
            (FsStage::NameLooked { place }, FsEvent::Exists(exists)) => if exists {
                self.tries_variant(place, 0, Purpose::Create)
            } else {
                chosen(place, Purpose::Create)
            },
            (
                FsStage::VariantLooked { place, number, purpose },
                FsEvent::Exists(exists),
            ) => if exists {
                self.tries_variant(place, (number + 1) as usize, purpose)
            } else {
                chosen(variant(place, number), purpose)
            },
            (FsStage::TargetLooked { to, is_file, purpose }, FsEvent::Exists(exists)) =>
                if !exists {
                chosen(to, purpose)
            } else if is_file {
                self.tries_variant(to, 0, purpose)
            } else {
                FsStepView::Reply(
                    FsReplyView::Done(
                        Err(
                            FsErrorView::Rename(
                                FileRenameErrorView::TargetAlreadyExists(self.shown(to)),
                            ),
                        ),
                    ),
                )
            },
            (FsStage::FileOpened { place }, FsEvent::Failed(source)) => is_not_opened(
                FsErrorView::Write(
                    FileWriteErrorView::GetFileError(
                        crate::filerequest_drive_handler::GetFileErrorView::Io {
                            path: self.shown(place),
                            source: source@,
                        },
                    ),
                ),
            ),
            (FsStage::FileOpened { place }, FsEvent::Opened) => FsStepView::Reply(
                FsReplyView::Opened(Ok(self.shown(place))),
            ),
            (FsStage::Renamed, FsEvent::Failed(source)) => FsStepView::Reply(
                FsReplyView::Done(Err(FsErrorView::Rename(FileRenameErrorView::Io(source@)))),
            ),
            (FsStage::Renamed, FsEvent::Done) => done(),
            (FsStage::Finalized, FsEvent::Failed(source)) => fails_with(source@),
            (FsStage::Finalized, FsEvent::Done) => done(),
            (FsStage::Removed, FsEvent::Failed(_)) => fails_with("Could not remove file"@),
            (FsStage::Removed, FsEvent::Done) => done(),
            (FsStage::PlainDirMade { .. }, FsEvent::Failed(source)) => is_not_opened(
                FsErrorView::Other(source@),
            ),
            (FsStage::PlainDirMade { place, append }, FsEvent::Done) => FsStepView::Ask(
                if append {
                    FsAsk::Append(place)
                } else {
                    FsAsk::Overwrite(place)
                },
                FsStage::PlainOpened { place },
            ),
            (FsStage::PlainOpened { .. }, FsEvent::Failed(source)) => is_not_opened(
                FsErrorView::Other(source@),
            ),
            (FsStage::PlainOpened { place }, FsEvent::Opened) => FsStepView::Reply(
                FsReplyView::Opened(Ok(self.shown(place))),
            ),
            (FsStage::PartialLooked { place }, FsEvent::Exists(exists)) => if exists {
                FsStepView::Ask(FsAsk::Remove(place), FsStage::PartialRemoved)
            } else {
                done()
            },
            (FsStage::PartialRemoved, FsEvent::Failed(source)) => fails_with(source@),
            (FsStage::PartialRemoved, FsEvent::Done) => done(),
            (FsStage::PartialsLooked, FsEvent::Exists(exists)) => if exists {
                FsStepView::Ask(
                    FsAsk::List(PlaceView::directory(PARTIAL@)),
                    FsStage::PartialsListed,
                )
            } else {
                FsStepView::Reply(FsReplyView::Listed(Ok(Seq::empty())))
            },
            (FsStage::PartialsListed, FsEvent::Failed(source)) => FsStepView::Reply(
                FsReplyView::Listed(Err(FsErrorView::Other(source@))),
            ),
            (FsStage::PartialsListed, FsEvent::Listed(names)) => FsStepView::Reply(
                FsReplyView::Listed(Ok(crate::domain_models::views(names@))),
            ),
            _ => arbitrary(),
        }
    }
}

pub open spec fn opt_names(names: Option<Vec<String>>) -> Option<Seq<Seq<char>>> {
    match names {
        Some(names) => Some(crate::domain_models::views(names@)),
        None => None,
    }
}

/// The place with a number in its file name.
pub open spec fn variant(place: PlaceView, number: usize) -> PlaceView {
    place.with_file_name(
        crate::direct_fs_controller::file_variant(place.file_name(), number as nat),
    )
}

/// What is done with a place that nothing is at.
pub open spec fn chosen(place: PlaceView, purpose: Purpose<PlaceView>) -> FsStepView {
    match purpose {
        Purpose::Create => FsStepView::Ask(
            FsAsk::CreateNew(place),
            FsStage::FileOpened { place },
        ),
        Purpose::Rename { from } => FsStepView::Ask(
            FsAsk::Rename { from, to: place },
            FsStage::Renamed,
        ),
        Purpose::Finalize { from } => FsStepView::Ask(
            FsAsk::Rename { from, to: place },
            FsStage::Finalized,
        ),
    }
}

fn choose_place(place: Place, purpose: Purpose<Place>) -> (r: FsStep)
    ensures
        r@ == chosen(place@, purpose@),
        r@.is_consistent(),
{
    match purpose {
        Purpose::Create => {
            let opened = place.clone();
            FsStep::Ask(FsAsk::CreateNew(place), FsStage::FileOpened { place: opened })
        },
        Purpose::Rename { from } => FsStep::Ask(
            FsAsk::Rename { from, to: place },
            FsStage::Renamed,
        ),
        Purpose::Finalize { from } => FsStep::Ask(
            FsAsk::Rename { from, to: place },
            FsStage::Finalized,
        ),
    }
}

fn variant_of(place: &Place, number: usize) -> (r: Place)
    requires
        place@.names.len() > 0,
        number < NUMBER_OF_VARIATIONS_TO_TRY,
    ensures
        r@ == variant(place@, number),
{
    place.with_file_name(numbered(place.file_name().as_str(), number))
}

fn ensure_dir(dir: Place, then: AfterDir<Place, String>) -> (r: FsStep)
    requires
        then@.is_valid(),
    ensures
        r@ == ensures_dir(dir@, then@),
        r@.is_consistent(),
{
    let looked = dir.clone();
    FsStep::Ask(FsAsk::Exists(dir), FsStage::DirLooked { dir: looked, then })
}

fn no_dir(then: AfterDir<Place, String>, error: FilerequestDirError) -> (r: FsStep)
    ensures
        r@ == then@.fails(error@),
        r@.is_consistent(),
{
    match then {
        AfterDir::UniqueFile(_) => not_opened(
            FsError::Write(FileWriteError::FilerequestDirError(error)),
        ),
        AfterDir::ExactFile(_) => not_opened(
            FsError::Write(FileWriteError::FilerequestDirError(error)),
        ),
        AfterDir::Resource => FsStep::Reply(FsReply::Done(Err(FsError::Directory(error)))),
        AfterDir::Finalize { .. } => FsStep::Reply(FsReply::Done(Err(FsError::Directory(error)))),
    }
}

fn not_opened(error: FsError) -> (r: FsStep)
    ensures
        r@ == is_not_opened(error@),
        r@.is_consistent(),
{
    FsStep::Reply(FsReply::Opened(Err(error)))
}

fn failed(text: String) -> (r: FsStep)
    ensures
        r@ == fails_with(text@),
        r@.is_consistent(),
{
    FsStep::Reply(FsReply::Done(Err(FsError::Other(text))))
}

fn all_done() -> (r: FsStep)
    ensures
        r@ == done(),
        r@.is_consistent(),
{
    FsStep::Reply(FsReply::Done(Ok(())))
}

impl DirectFsController {
    /// For the directory at the given path, which is real and absolute.
    pub fn at(root: String, separator: char) -> (r: Self)
        ensures
            r.root() == root@,
            r.separator() == separator,
    {
        DirectFsController { root, separator }
    }

    /// The path of a place.
    pub fn path_of(&self, place: &Place) -> (r: String)
        ensures
            r@ == self.shown(place@),
    {
        let ghost names = place@.names;
        let mut path = self.root.clone();
        assert(names.take(0) =~= Seq::empty());
        for i in 0..place.names.len()
            invariant
                names == place@.names,
                path@ == joined(self.root(), names.take(i as int), self.separator()),
        {
            assert(names.take(i + 1).drop_last() =~= names.take(i as int));
            path = push_name(path, place.names[i].as_str(), self.separator);
        }
        assert(names.take(names.len() as int) =~= names);
        if place.trailing {
            proof {
                reveal_strlit("");
                assert(""@ =~= Seq::empty());
            }
            push_name(path, "", self.separator)
        } else {
            path
        }
    }

    /// Where received files are kept.
    pub fn file_drop_dir(&self) -> (r: String)
        ensures
            r@ == self.shown(PlaceView::directory(RECEIVED@)),
    {
        self.path_of(&Place::directory(RECEIVED))
    }

    fn received_place(&self, namespace: FileNamespace) -> (r: Place)
        ensures
            r@ == self.received(namespace),
            r@.names.len() > 0,
            r@.is_inside(self.windows()),
            forall|mark: Seq<char>| #[trigger] self.keeps_mark(namespace, mark),
    {
        let names = parse_sanitized(namespace, self.separator == '\\');
        proof {
            let all = crate::domain_models::views(names@);
            assert forall|mark: Seq<char>| #[trigger] self.keeps_mark(namespace, mark) by {
                if crate::filerequest_drive_handler::begins_with_mark(namespace@.names[0], mark) {
                    assert(names@.len() == all.len());
                    assert(all.len() == namespace@.names.len());
                    assert(
                        crate::filerequest_drive_handler::bears_mark(
                            names@[0]@,
                            crate::filerequest_drive_handler::fitting(mark),
                        )
                    );
                    assert(is_named(all[0]));
                    lemma_first_named(all);
                }
            }
            crate::direct_fs_controller::laws::lemma_directories_are_bare(self.windows());
            assert forall|i: int|
                0 <= i < all.len() && is_named(
                    #[trigger] all[i],
                ) implies crate::direct_fs_controller::is_bare_basename(all[i], self.windows()) by {
                assert(crate::direct_fs_controller::is_harmless_name(names@[i]@));
                crate::direct_fs_controller::laws::lemma_plain_names_are_bare(
                    all[i],
                    self.windows(),
                );
            }
            crate::direct_fs_controller::laws::lemma_below_is_inside(
                RECEIVED@,
                all,
                self.windows(),
            );
        }
        Place::below(RECEIVED, names)
    }

    fn partial_place(&self, filename: String) -> (r: Place)
        ensures
            r@ == self.partial(filename@),
    {
        let names: Vec<String> = vec![PARTIAL.to_owned(), filename];
        assert(crate::domain_models::views(names@) =~= seq![PARTIAL@, filename@]);
        Place { names, trailing: false }
    }

    fn try_variant(&self, place: Place, number: usize, purpose: Purpose<Place>) -> (r: FsStep)
        requires
            place@.names.len() > 0,
        ensures
            r@ == self.tries_variant(place@, number, purpose@),
            r@.is_consistent(),
    {
        if number < NUMBER_OF_VARIATIONS_TO_TRY {
            let candidate = variant_of(&place, number);
            return FsStep::Ask(
                FsAsk::Exists(candidate),
                FsStage::VariantLooked { place, number, purpose },
            );
        }
        match purpose {
            Purpose::Create => not_opened(
                FsError::Write(
                    FileWriteError::GetFileError(
                        GetFileError::UniqueFileNameVariantNotFound { base: self.path_of(&place) },
                    ),
                ),
            ),
            Purpose::Rename { .. } => FsStep::Reply(
                FsReply::Done(
                    Err(
                        FsError::Rename(
                            FileRenameError::UniqueVariantNotFound(NUMBER_OF_VARIATIONS_TO_TRY),
                        ),
                    ),
                ),
            ),
            Purpose::Finalize { .. } => failed(
                "Could not find unique filename after 100 tries".to_owned(),
            ),
        }
    }

    fn proceed(&self, then: AfterDir<Place, String>, names: Vec<String>) -> (r: FsStep)
        requires
            then@.is_valid(),
        ensures
            r@ == self.proceeds(then@, crate::domain_models::views(names@)),
            r@.is_consistent(),
    {
        match then {
            AfterDir::UniqueFile(place) => {
                let base = place.parent();
                FsStep::Ask(FsAsk::Exists(base), FsStage::BaseLooked { place })
            },
            AfterDir::ExactFile(place) => {
                let opened = place.clone();
                FsStep::Ask(FsAsk::Append(place), FsStage::FileOpened { place: opened })
            },
            AfterDir::Resource => FsStep::Ask(
                FsAsk::CreateDirs(Place { names, trailing: false }),
                FsStage::ResourceMade,
            ),
            AfterDir::Finalize { from, file_name } => {
                let ghost before = crate::domain_models::views(names@);
                let mut names = names;
                names.push(file_name);
                assert(crate::domain_models::views(names@) =~= before.push(file_name@));
                let to = Place { names, trailing: false };
                let looked = to.clone();
                FsStep::Ask(
                    FsAsk::Exists(looked),
                    FsStage::TargetLooked {
                        to,
                        is_file: true,
                        purpose: Purpose::Finalize { from },
                    },
                )
            },
        }
    }

    fn file_task(&self, uri: FileNamespace, unique: bool) -> (r: FsStep)
        ensures
            r@ == FsStepView::Ask(
                FsAsk::CreateDirs(self.received(uri).parent()),
                FsStage::ParentMade { place: self.received(uri), unique },
            ),
            r@.is_consistent(),
            r@.is_inside(self.windows()),
            forall|mark: Seq<char>| #[trigger] self.keeps_mark(uri, mark),
    {
        let place = self.received_place(uri);
        FsStep::Ask(FsAsk::CreateDirs(place.parent()), FsStage::ParentMade { place, unique })
    }

    fn finalize(&self, partial_filename: String, target: FileNamespace) -> (r: FsStep)
        ensures
            r@ == self.begun(FsTask::FinalizePartialFile { partial_filename, target }),
            r@.is_consistent(),
            r@.is_inside(self.windows()),
            r@ is Ask ==> forall|mark: Seq<char>| #[trigger] self.keeps_mark(target, mark),
    {
        if let Err(message) = validate_partial_basename(
            partial_filename.as_str(),
            self.separator == '\\',
        ) {
            return failed(message);
        }
        let place = self.received_place(target);
        let ghost names = named(
            crate::direct_fs_controller::sanitized_names(target@.names, self.windows()),
        );
        proof {
            crate::direct_fs_controller::laws::lemma_directories_are_bare(self.windows());
        }
        assert(place@.names =~= seq![RECEIVED@] + names);
        if place.names.len() == 1 {
            assert(names.len() == 0);
            return failed("Invalid path: no filename".to_owned());
        }
        let file_name = place.file_name().clone();
        let trailing = place.names.len() == 2;
        let dir = Place { names: place.parent().names, trailing };
        assert(dir@.names =~= seq![RECEIVED@] + names.drop_last());
        ensure_dir(
            dir,
            AfterDir::Finalize { from: self.partial_place(partial_filename), file_name },
        )
    }

    proof fn lemma_plans_stay_inside(
        &self,
        from: FileNamespace,
        to: FileNamespace,
        plan: crate::direct_fs_controller::RenamePlanView,
    )
        requires
            crate::direct_fs_controller::planned_rename(from, to, self.windows()) == Ok::<
                crate::direct_fs_controller::RenamePlanView,
                FileRenameError,
            >(plan),
            crate::direct_fs_controller::is_harmless_name(plan.from.last()),
            crate::direct_fs_controller::is_harmless_name(plan.to.last()),
        ensures
            (FsTask::RenameResource { from, to }).is_tame(self.windows()) ==> PlaceView::below(
                RECEIVED@,
                plan.from,
            ).is_inside(self.windows()) && PlaceView::below(RECEIVED@, plan.to).is_inside(
                self.windows(),
            ),
    {
        let windows = self.windows();
        if (FsTask::RenameResource { from, to }).is_tame(windows) {
            crate::direct_fs_controller::law_rename_changes_the_last_name_only(from, to, windows);
            crate::direct_fs_controller::laws::lemma_directories_are_bare(windows);
            assert forall|i: int|
                0 <= i < plan.from.len() && is_named(
                    #[trigger] plan.from[i],
                ) implies crate::direct_fs_controller::is_bare_basename(plan.from[i], windows) by {
                if i < plan.from.len() - 1 {
                    assert(plan.from[i] == plan.from.drop_last()[i]);
                    assert(from@.names.drop_last()[i] == from@.names[i]);
                } else {
                    crate::direct_fs_controller::laws::lemma_plain_names_are_bare(
                        plan.from[i],
                        windows,
                    );
                }
            }
            assert forall|i: int|
                0 <= i < plan.to.len() && is_named(
                    #[trigger] plan.to[i],
                ) implies crate::direct_fs_controller::is_bare_basename(plan.to[i], windows) by {
                if i < plan.to.len() - 1 {
                    assert(plan.to[i] == plan.to.drop_last()[i]);
                    assert(from@.names.drop_last()[i] == from@.names[i]);
                } else {
                    crate::direct_fs_controller::laws::lemma_plain_names_are_bare(
                        plan.to[i],
                        windows,
                    );
                }
            }
            crate::direct_fs_controller::laws::lemma_below_is_inside(RECEIVED@, plan.from, windows);
            crate::direct_fs_controller::laws::lemma_below_is_inside(RECEIVED@, plan.to, windows);
        }
    }

    /// Begins a task. Only places in the directory of the host are touched.
    pub fn start(&self, task: FsTask) -> (r: FsStep)
        ensures
            r@ == self.begun(task),
            r@.is_consistent(),
            task.is_tame(self.windows()) ==> r@.is_inside(self.windows()),
            r@ is Ask && task.target() is Some ==> forall|mark: Seq<char>| #[trigger]
                self.keeps_mark(task.target()->Some_0, mark),
    {
        proof {
            crate::direct_fs_controller::laws::lemma_directories_are_bare(self.windows());
        }
        match task {
            FsTask::CreateFilerequestResource(name) => ensure_dir(
                self.received_place(name),
                AfterDir::Resource,
            ),
            FsTask::CreateFileForWriting(uri) => self.file_task(uri, true),
            FsTask::GetExactFileForWriting(uri) => self.file_task(uri, false),
            FsTask::RemoveFile(uri) => FsStep::Ask(
                FsAsk::Remove(self.received_place(uri)),
                FsStage::Removed,
            ),
            FsTask::RenameResource { from, to } => match plan_rename(
                from,
                to,
                self.separator == '\\',
            ) {
                Ok(plan) => {
                    proof {
                        self.lemma_plans_stay_inside(from, to, plan@);
                    }
                    let from = Place::below(RECEIVED, plan.from);
                    let to = Place::below(RECEIVED, plan.to);
                    let looked = to.clone();
                    FsStep::Ask(
                        FsAsk::Exists(looked),
                        FsStage::TargetLooked {
                            to,
                            is_file: plan.is_file,
                            purpose: Purpose::Rename { from },
                        },
                    )
                },
                Err(error) => FsStep::Reply(FsReply::Done(Err(FsError::Rename(error)))),
            },
            FsTask::OpenBackupFile { date } => {
                let names: Vec<String> = vec![BACKUP.to_owned(), backup_file_name(date.as_str())];
                assert(crate::domain_models::views(names@) =~= seq![
                    BACKUP@,
                    date@ + "_fyles.bak"@,
                ]);
                FsStep::Ask(
                    FsAsk::CreateDirs(Place::directory(BACKUP)),
                    FsStage::PlainDirMade {
                        place: Place { names, trailing: false },
                        append: false,
                    },
                )
            },
            FsTask::GetPartialFileForWriting(filename) => match validate_partial_basename(
                filename.as_str(),
                self.separator == '\\',
            ) {
                Ok(()) => FsStep::Ask(
                    FsAsk::CreateDirs(Place::directory(PARTIAL)),
                    FsStage::PlainDirMade { place: self.partial_place(filename), append: true },
                ),
                Err(message) => not_opened(FsError::Other(message)),
            },
            FsTask::RemovePartialFile(filename) => match validate_partial_basename(
                filename.as_str(),
                self.separator == '\\',
            ) {
                Ok(()) => {
                    let place = self.partial_place(filename);
                    FsStep::Ask(FsAsk::Exists(place.clone()), FsStage::PartialLooked { place })
                },
                Err(message) => failed(message),
            },
            FsTask::FinalizePartialFile { partial_filename, target } => self.finalize(
                partial_filename,
                target,
            ),
            FsTask::ListPartialFiles => FsStep::Ask(
                FsAsk::Exists(Place::directory(PARTIAL)),
                FsStage::PartialsLooked,
            ),
        }
    }

    /// Goes on with a task once the file system has answered.
    pub fn resume(&self, stage: FsStage<Place, String>, event: FsEvent) -> (r: FsStep)
        requires
            stage@.is_valid(),
            stage@.takes(event),
        ensures
            r@ == self.followed(stage@, event),
            r@.is_consistent(),
    {
        match (stage, event) {
            (FsStage::ParentMade { .. }, FsEvent::Failed(source)) => not_opened(
                FsError::Write(FileWriteError::CreateParentDirs(source)),
            ),
            (FsStage::ParentMade { place, unique }, FsEvent::Done) => {
                let dir = place.parent();
                if unique {
                    ensure_dir(dir, AfterDir::UniqueFile(place))
                } else {
                    ensure_dir(dir, AfterDir::ExactFile(place))
                }
            },
            (FsStage::DirLooked { dir, then }, FsEvent::Exists(exists)) => {
                let asked = dir.clone();
                if exists {
                    FsStep::Ask(FsAsk::Canonicalize(asked), FsStage::DirResolved { dir, then })
                } else {
                    FsStep::Ask(FsAsk::CreateDirs(asked), FsStage::DirMade { dir, then })
                }
            },
            (FsStage::DirMade { dir, then }, FsEvent::Failed(source)) => no_dir(
                then,
                FilerequestDirError::Create { path: self.path_of(&dir), source },
            ),
            (FsStage::DirMade { dir, then }, FsEvent::Done) => {
                let asked = dir.clone();
                FsStep::Ask(FsAsk::Canonicalize(asked), FsStage::DirResolved { dir, then })
            },
            (FsStage::DirResolved { dir, then }, FsEvent::Failed(source)) => no_dir(
                then,
                FilerequestDirError::Canonicalize { path: self.path_of(&dir), source },
            ),
            (FsStage::DirResolved { dir: _, then }, FsEvent::Resolved { actual, names }) => {
                if let Some(names) = names {
                    if names.len() > 0 && str_eq(names[0].as_str(), RECEIVED) {
                        return self.proceed(then, names);
                    }
                }
                no_dir(then, FilerequestDirError::Escape { actual, root: self.file_drop_dir() })
            },
            (FsStage::ResourceMade, FsEvent::Failed(source)) => failed(source),
            (FsStage::ResourceMade, FsEvent::Done) => all_done(),
            (FsStage::BaseLooked { place }, FsEvent::Exists(exists)) => if exists {
                let plain = place.with_file_name(place.file_name().clone());
                FsStep::Ask(FsAsk::Exists(plain.clone()), FsStage::NameLooked { place: plain })
            } else {
                not_opened(
                    FsError::Write(
                        FileWriteError::GetFileError(
                            GetFileError::BaseDirMissing { base: self.path_of(&place.parent()) },
                        ),
                    ),
                )
            },
            (FsStage::NameLooked { place }, FsEvent::Exists(exists)) => if exists {
                self.try_variant(place, 0, Purpose::Create)
            } else {
                choose_place(place, Purpose::Create)
            },
            (
                FsStage::VariantLooked { place, number, purpose },
                FsEvent::Exists(exists),
            ) => if exists {
                self.try_variant(place, number + 1, purpose)
            } else {
                choose_place(variant_of(&place, number), purpose)
            },
            (FsStage::TargetLooked { to, is_file, purpose }, FsEvent::Exists(exists)) =>
                match rename_target(is_file, exists) {
                RenameTarget::Free => choose_place(to, purpose),
                RenameTarget::FindVariant => self.try_variant(to, 0, purpose),
                RenameTarget::Refused => FsStep::Reply(
                    FsReply::Done(
                        Err(
                            FsError::Rename(
                                FileRenameError::TargetAlreadyExists(self.path_of(&to)),
                            ),
                        ),
                    ),
                ),
            },
            (FsStage::FileOpened { place }, FsEvent::Failed(source)) => not_opened(
                FsError::Write(
                    FileWriteError::GetFileError(
                        GetFileError::Io { path: self.path_of(&place), source },
                    ),
                ),
            ),
            (FsStage::FileOpened { place }, FsEvent::Opened) => FsStep::Reply(
                FsReply::Opened(Ok(self.path_of(&place))),
            ),
            (FsStage::Renamed, FsEvent::Failed(source)) => FsStep::Reply(
                FsReply::Done(Err(FsError::Rename(FileRenameError::Io(source)))),
            ),
            (FsStage::Renamed, FsEvent::Done) => all_done(),
            (FsStage::Finalized, FsEvent::Failed(source)) => failed(source),
            (FsStage::Finalized, FsEvent::Done) => all_done(),
            (FsStage::Removed, FsEvent::Failed(_)) => failed("Could not remove file".to_owned()),
            (FsStage::Removed, FsEvent::Done) => all_done(),
            (FsStage::PlainDirMade { .. }, FsEvent::Failed(source)) => not_opened(
                FsError::Other(source),
            ),
            (FsStage::PlainDirMade { place, append }, FsEvent::Done) => {
                let opened = place.clone();
                if append {
                    FsStep::Ask(FsAsk::Append(place), FsStage::PlainOpened { place: opened })
                } else {
                    FsStep::Ask(FsAsk::Overwrite(place), FsStage::PlainOpened { place: opened })
                }
            },
            (FsStage::PlainOpened { .. }, FsEvent::Failed(source)) => not_opened(
                FsError::Other(source),
            ),
            (FsStage::PlainOpened { place }, FsEvent::Opened) => FsStep::Reply(
                FsReply::Opened(Ok(self.path_of(&place))),
            ),
            (FsStage::PartialLooked { place }, FsEvent::Exists(exists)) => if exists {
                FsStep::Ask(FsAsk::Remove(place), FsStage::PartialRemoved)
            } else {
                all_done()
            },
            (FsStage::PartialRemoved, FsEvent::Failed(source)) => failed(source),
            (FsStage::PartialRemoved, FsEvent::Done) => all_done(),
            (FsStage::PartialsLooked, FsEvent::Exists(exists)) => if exists {
                FsStep::Ask(FsAsk::List(Place::directory(PARTIAL)), FsStage::PartialsListed)
            } else {
                let names: Vec<String> = Vec::new();
                assert(crate::domain_models::views(names@) =~= Seq::empty());
                FsStep::Reply(FsReply::Listed(Ok(names)))
            },
            (FsStage::PartialsListed, FsEvent::Failed(source)) => FsStep::Reply(
                FsReply::Listed(Err(FsError::Other(source))),
            ),
            (FsStage::PartialsListed, FsEvent::Listed(names)) => FsStep::Reply(
                FsReply::Listed(Ok(names)),
            ),
            (_, _) => all_done(),
        }
    }
}

} // verus!
