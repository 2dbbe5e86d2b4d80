//! How files are named and placed in a directory of the host.
use vstd::prelude::*;

pub mod laws;
pub mod out_dir;
pub mod task_laws;
pub mod tasks;
pub mod write_laws;

use crate::filerequest_drive_handler::{sanitize, GetFileError};
use crate::i18n::format_file_size_with;
use crate::io_controller::FileNamespace;
use crate::notification::Notification;
use crate::text::{find_char, rfind_char, str_eq, u64_to_string};

verus! {

// Errors. Underlying errors and paths are kept as their texts.

/// Why a file cannot be read.
#[derive(Debug)]
pub enum FileReadError {
    Io(String),
}

impl FileReadError {
    pub open spec fn text(self) -> Seq<char> {
        match self {
            FileReadError::Io(error) => "IO error: "@ + error@,
        }
    }

    pub fn to_text(&self) -> (r: String)
        ensures
            r@ == self.text(),
    {
        match self {
            FileReadError::Io(error) => "IO error: ".to_owned().concat(error.as_str()),
        }
    }
}

/// Why a directory cannot be had.
#[derive(Debug)]
pub enum FilerequestDirError {
    Create { path: String, source: String },
    Canonicalize { path: String, source: String },
    Escape { actual: String, root: String },
}

impl FilerequestDirError {
    pub open spec fn text(self) -> Seq<char> {
        match self {
            FilerequestDirError::Create {
                path,
                source,
            } => "Failed to create filerequest directory "@ + path@ + ": "@ + source@,
            FilerequestDirError::Canonicalize {
                path,
                source,
            } => "Failed to canonicalize filerequest directory "@ + path@ + ": "@ + source@,
            FilerequestDirError::Escape {
                actual,
                root,
            } => "Security violation: directory "@ + actual@ + " resolved outside root "@ + root@,
        }
    }

    pub fn to_text(&self) -> (r: String)
        ensures
            r@ == self.text(),
    {
        match self {
            FilerequestDirError::Create {
                path,
                source,
            } => "Failed to create filerequest directory ".to_owned().concat(
                path.as_str(),
            ).concat(": ").concat(
                source.as_str(),
            ),
            FilerequestDirError::Canonicalize {
                path,
                source,
            } => "Failed to canonicalize filerequest directory ".to_owned().concat(
                path.as_str(),
            ).concat(": ").concat(
                source.as_str(),
            ),
            FilerequestDirError::Escape {
                actual,
                root,
            } => "Security violation: directory ".to_owned().concat(
                actual.as_str(),
            ).concat(" resolved outside root ").concat(root.as_str()),
        }
    }
}

/// Why a file cannot be written.
#[derive(Debug)]
pub enum FileWriteError {
    InvalidPath(String),
    NotWritingToRoot,
    CreateParentDirs(String),
    CanonicalizePathFailed(String),
    PathOutsideParent,
    FilerequestDirError(FilerequestDirError),
    GetFileError(GetFileError),
}

impl FileWriteError {
    pub open spec fn text(self) -> Seq<char> {
        match self {
            FileWriteError::InvalidPath(path) => "Invalid path: "@ + path@,
            FileWriteError::NotWritingToRoot => "Not writing to root directory"@,
            FileWriteError::CreateParentDirs(
                error,
            ) => "Failed to create parent directories: "@ + error@,
            FileWriteError::CanonicalizePathFailed(
                error,
            ) => "Could not canonicalize path: "@ + error@,
            FileWriteError::PathOutsideParent => "Target path resolved outside of parent path"@,
            FileWriteError::FilerequestDirError(error) => error.text(),
            FileWriteError::GetFileError(error) => error@.text(),
        }
    }

    pub fn to_text(&self) -> (r: String)
        ensures
            r@ == self.text(),
    {
        match self {
            FileWriteError::InvalidPath(path) => "Invalid path: ".to_owned().concat(path.as_str()),
            FileWriteError::NotWritingToRoot => "Not writing to root directory".to_owned(),
            FileWriteError::CreateParentDirs(
                error,
            ) => "Failed to create parent directories: ".to_owned().concat(
                error.as_str(),
            ),
            FileWriteError::CanonicalizePathFailed(
                error,
            ) => "Could not canonicalize path: ".to_owned().concat(
                error.as_str(),
            ),
            FileWriteError::PathOutsideParent =>
                "Target path resolved outside of parent path".to_owned(),
            FileWriteError::FilerequestDirError(error) => error.to_text(),
            FileWriteError::GetFileError(error) => error.to_text(),
        }
    }
}

/// Why something cannot be renamed.
#[derive(Debug)]
pub enum FileRenameError {
    Io(String),
    AsymmetricPaths,
    RenamingTooMuch,
    TargetAlreadyExists(String),
    UniqueVariantNotFound(usize),
}

impl FileRenameError {
    pub open spec fn text(self) -> Seq<char> {
        match self {
            FileRenameError::Io(error) => "IO error: "@ + error@,
            FileRenameError::AsymmetricPaths => "Path asymmetry"@,
            FileRenameError::RenamingTooMuch => "Renaming too much"@,
            FileRenameError::TargetAlreadyExists(path) => "Target already exists: "@ + path@,
            FileRenameError::UniqueVariantNotFound(
                attempts,
            ) => "Could not find unique rename target after "@ + crate::text::decimal(
                attempts as nat,
            ) + " attempts"@,
        }
    }

    pub fn to_text(&self) -> (r: String)
        ensures
            r@ == self.text(),
    {
        match self {
            FileRenameError::Io(error) => "IO error: ".to_owned().concat(error.as_str()),
            FileRenameError::AsymmetricPaths => "Path asymmetry".to_owned(),
            FileRenameError::RenamingTooMuch => "Renaming too much".to_owned(),
            FileRenameError::TargetAlreadyExists(
                path,
            ) => "Target already exists: ".to_owned().concat(
                path.as_str(),
            ),
            FileRenameError::UniqueVariantNotFound(
                attempts,
            ) => "Could not find unique rename target after ".to_owned().concat(
                u64_to_string(*attempts as u64).as_str(),
            ).concat(" attempts"),
        }
    }
}

/// Why no directory can be used in place of another.
#[derive(Debug)]
pub enum DeescalatePathError {
    InvalidBasePath(String),
    CreateDirectory { path: String, source: String },
    NoAccessibleVariantFound(String, usize),
}

impl DeescalatePathError {
    pub open spec fn text(self) -> Seq<char> {
        match self {
            DeescalatePathError::InvalidBasePath(path) => "Invalid base path "@ + path@,
            DeescalatePathError::CreateDirectory {
                path,
                source,
            } => "Failed to create directory "@ + path@ + ": "@ + source@,
            DeescalatePathError::NoAccessibleVariantFound(
                path,
                attempts,
            ) => "Failed to find accessible directory variant for "@ + path@ + " after "@ + crate::text::decimal(
                attempts as nat,
            ) + " attempts"@,
        }
    }

    pub fn to_text(&self) -> (r: String)
        ensures
            r@ == self.text(),
    {
        match self {
            DeescalatePathError::InvalidBasePath(path) => "Invalid base path ".to_owned().concat(
                path.as_str(),
            ),
            DeescalatePathError::CreateDirectory {
                path,
                source,
            } => "Failed to create directory ".to_owned().concat(path.as_str()).concat(": ").concat(
                source.as_str(),
            ),
            DeescalatePathError::NoAccessibleVariantFound(
                path,
                attempts,
            ) => "Failed to find accessible directory variant for ".to_owned().concat(
                path.as_str(),
            ).concat(" after ").concat(
                u64_to_string(*attempts as u64).as_str(),
            ).concat(" attempts"),
        }
    }
}

/// Why there is no directory for files.
#[derive(Debug)]
pub enum DirectFsControllerError {
    CreateDirectory { path: String, source: String },
    CanonicalizePath { path: String, source: String },
    DeescalatePathError(DeescalatePathError),
}

impl DirectFsControllerError {
    pub open spec fn text(self) -> Seq<char> {
        match self {
            DirectFsControllerError::CreateDirectory {
                path,
                source,
            } => "Failed to create output directory "@ + path@ + ": "@ + source@,
            DirectFsControllerError::CanonicalizePath {
                path,
                source,
            } => "Failed to canonicalize output directory "@ + path@ + ": "@ + source@,
            DirectFsControllerError::DeescalatePathError(error) => error.text(),
        }
    }

    pub fn to_text(&self) -> (r: String)
        ensures
            r@ == self.text(),
    {
        match self {
            DirectFsControllerError::CreateDirectory {
                path,
                source,
            } => "Failed to create output directory ".to_owned().concat(
                path.as_str(),
            ).concat(": ").concat(
                source.as_str(),
            ),
            DirectFsControllerError::CanonicalizePath {
                path,
                source,
            } => "Failed to canonicalize output directory ".to_owned().concat(
                path.as_str(),
            ).concat(": ").concat(
                source.as_str(),
            ),
            DirectFsControllerError::DeescalatePathError(error) => error.to_text(),
        }
    }
}

/// Why a path cannot be used.
#[derive(Debug)]
pub enum FileNamespaceError {
    AbsolutePath(String),
}

impl FileNamespaceError {
    pub open spec fn text(self) -> Seq<char> {
        match self {
            FileNamespaceError::AbsolutePath(path) => "Path is absolute: "@ + path@,
        }
    }

    pub fn to_text(&self) -> (r: String)
        ensures
            r@ == self.text(),
    {
        match self {
            FileNamespaceError::AbsolutePath(path) => "Path is absolute: ".to_owned().concat(
                path.as_str(),
            ),
        }
    }
}

// Paths

/// The names on a path, each made safe.
pub open spec fn sanitized_names(names: Seq<Seq<char>>, windows: bool) -> Seq<Seq<char>> {
    names.map_values(
        |name: Seq<char>| crate::filerequest_drive_handler::sanitized(name, windows),
    )
}

/// Whether nothing in a name can lead to another directory. An empty name leads nowhere.
pub open spec fn is_harmless_name(name: Seq<char>) -> bool {
    name.len() == 0 || crate::filerequest_drive_handler::is_plain_name(name)
}

/// The names on the path, from the outside in, each made safe.
pub fn parse_sanitized(namespace: FileNamespace, windows: bool) -> (r: Vec<String>)
    ensures
        crate::domain_models::views(r@) == sanitized_names(namespace@.names, windows),
        forall|i: int| 0 <= i < r@.len() ==> is_harmless_name((#[trigger] r@[i])@),
        forall|i: int, mark: Seq<char>|
            #![trigger crate::filerequest_drive_handler::begins_with_mark(namespace@.names[i], mark)]
            0 <= i < r@.len() && crate::filerequest_drive_handler::begins_with_mark(
                namespace@.names[i],
                mark,
            ) ==> crate::filerequest_drive_handler::bears_mark(
                r@[i]@,
                crate::filerequest_drive_handler::fitting(mark),
            ),
{
    let ghost all = namespace@.names;
    let mut names: Vec<String> = Vec::new();
    let mut current = namespace;
    loop
        invariant
            all == namespace@.names,
            all.len() == names@.len() + current.names().len(),
            all.skip(names@.len() as int) == current.names(),
            forall|i: int|
                0 <= i < names@.len() ==> (#[trigger] names@[i])@
                    == crate::filerequest_drive_handler::sanitized(all[i], windows),
            forall|i: int| 0 <= i < names@.len() ==> is_harmless_name((#[trigger] names@[i])@),
            forall|i: int, mark: Seq<char>|
                #![trigger crate::filerequest_drive_handler::begins_with_mark(all[i], mark)]
                0 <= i < names@.len() && crate::filerequest_drive_handler::begins_with_mark(
                    all[i],
                    mark,
                ) ==> crate::filerequest_drive_handler::bears_mark(
                    names@[i]@,
                    crate::filerequest_drive_handler::fitting(mark),
                ),
        decreases current,
    {
        let ghost before = current;
        let ghost count = names@.len() as int;
        match current {
            FileNamespace::Namespace { namespace: name, child } => {
                assert(all.skip(count)[0] == name@) by {
                    assert(before.names()[0] == name@);
                }
                names.push(sanitize(name.as_str(), windows));
                match child {
                    Some(inner) => {
                        assert(all.skip(count + 1) =~= inner.names()) by {
                            assert(before.names().skip(1) =~= inner.names());
                            assert(all.skip(count + 1) =~= all.skip(count).skip(1));
                        }
                        current = *inner;
                    },
                    None => {
                        assert(
                            crate::domain_models::views(names@) =~= sanitized_names(all, windows)
                        );
                        return names;
                    },
                }
            },
            FileNamespace::Filename(name) => {
                assert(all.skip(count)[0] == name@) by {
                    assert(before.names()[0] == name@);
                }
                names.push(sanitize(name.as_str(), windows));
                assert(crate::domain_models::views(names@) =~= sanitized_names(all, windows));
                return names;
            },
        }
    }
}

/// The names on two paths that differ in the last one only.
#[derive(Debug)]
pub struct RenamePlan {
    pub from: Vec<String>,
    pub to: Vec<String>,
    /// Whether a file is renamed, not a directory.
    pub is_file: bool,
}

pub ghost struct RenamePlanView {
    pub from: Seq<Seq<char>>,
    pub to: Seq<Seq<char>>,
    pub is_file: bool,
}

impl View for RenamePlan {
    type V = RenamePlanView;

    open spec fn view(&self) -> RenamePlanView {
        RenamePlanView {
            from: crate::domain_models::views(self.from@),
            to: crate::domain_models::views(self.to@),
            is_file: self.is_file,
        }
    }
}

impl RenamePlanView {
    /// The same below another directory.
    pub open spec fn below(self, directory: Seq<char>) -> RenamePlanView {
        RenamePlanView {
            from: seq![directory] + self.from,
            to: seq![directory] + self.to,
            ..self
        }
    }
}

/// What renaming one path to another comes down to. Only the last name may change, and it is made
/// safe; a directory does not become a file, nor a file a directory.
pub open spec fn planned_rename(from: FileNamespace, to: FileNamespace, windows: bool) -> Result<
    RenamePlanView,
    FileRenameError,
>
    decreases from,
{
    match (from, to) {
        (
            FileNamespace::Namespace { namespace: name_from, child: child_from },
            FileNamespace::Namespace { namespace: name_to, child: child_to },
        ) => match (child_from, child_to) {
            (None, None) => Ok(
                RenamePlanView {
                    from: seq![crate::filerequest_drive_handler::sanitized(name_from@, windows)],
                    to: seq![crate::filerequest_drive_handler::sanitized(name_to@, windows)],
                    is_file: false,
                },
            ),
            (Some(child_from), Some(child_to)) => if name_from@ != name_to@ {
                Err(FileRenameError::RenamingTooMuch)
            } else {
                match planned_rename(*child_from, *child_to, windows) {
                    Ok(plan) => Ok(plan.below(name_from@)),
                    Err(error) => Err(error),
                }
            },
            _ => Err(FileRenameError::AsymmetricPaths),
        },
        (FileNamespace::Filename(name_from), FileNamespace::Filename(name_to)) => Ok(
            RenamePlanView {
                from: seq![crate::filerequest_drive_handler::sanitized(name_from@, windows)],
                to: seq![crate::filerequest_drive_handler::sanitized(name_to@, windows)],
                is_file: true,
            },
        ),
        _ => Err(FileRenameError::AsymmetricPaths),
    }
}

/// What renaming one path to another comes down to.
pub fn plan_rename(from: FileNamespace, to: FileNamespace, windows: bool) -> (r: Result<
    RenamePlan,
    FileRenameError,
>)
    ensures
        match r {
            Ok(plan) => planned_rename(from, to, windows) == Ok::<RenamePlanView, FileRenameError>(
                plan@,
            ),
            Err(error) => planned_rename(from, to, windows) == Err::<
                RenamePlanView,
                FileRenameError,
            >(error),
        },
        r matches Ok(plan) ==> is_harmless_name(plan@.from.last()) && is_harmless_name(
            plan@.to.last(),
        ),
    decreases from,
{
    match (from, to) {
        (
            FileNamespace::Namespace { namespace: name_from, child: child_from },
            FileNamespace::Namespace { namespace: name_to, child: child_to },
        ) => match (child_from, child_to) {
            (None, None) => {
                let plan = single_rename(name_from.as_str(), name_to.as_str(), windows, false);
                Ok(plan)
            },
            (Some(child_from), Some(child_to)) => {
                if !str_eq(name_from.as_str(), name_to.as_str()) {
                    return Err(FileRenameError::RenamingTooMuch);
                }
                match plan_rename(*child_from, *child_to, windows) {
                    Ok(inner) => {
                        let ghost below = inner@.below(name_from@);
                        let mut from_names = inner.from;
                        let mut to_names = inner.to;
                        from_names.insert(0, name_from.clone());
                        to_names.insert(0, name_to);
                        let plan = RenamePlan {
                            from: from_names,
                            to: to_names,
                            is_file: inner.is_file,
                        };
                        assert(plan@.from =~= below.from);
                        assert(plan@.to =~= below.to);
                        Ok(plan)
                    },
                    Err(error) => Err(error),
                }
            },
            _ => Err(FileRenameError::AsymmetricPaths),
        },
        (FileNamespace::Filename(name_from), FileNamespace::Filename(name_to)) => {
            let plan = single_rename(name_from.as_str(), name_to.as_str(), windows, true);
            Ok(plan)
        },
        _ => Err(FileRenameError::AsymmetricPaths),
    }
}

fn single_rename(from: &str, to: &str, windows: bool, is_file: bool) -> (r: RenamePlan)
    ensures
        r@ == (RenamePlanView {
            from: seq![crate::filerequest_drive_handler::sanitized(from@, windows)],
            to: seq![crate::filerequest_drive_handler::sanitized(to@, windows)],
            is_file,
        }),
        is_harmless_name(r@.from.last()),
        is_harmless_name(r@.to.last()),
{
    let plan = RenamePlan {
        from: vec![sanitize(from, windows)],
        to: vec![sanitize(to, windows)],
        is_file,
    };
    assert(plan@.from =~= seq![crate::filerequest_drive_handler::sanitized(from@, windows)]);
    assert(plan@.to =~= seq![crate::filerequest_drive_handler::sanitized(to@, windows)]);
    plan
}

/// A rename leaves everything but the last name as it is, on paths of the same length.
pub proof fn law_rename_changes_the_last_name_only(
    from: FileNamespace,
    to: FileNamespace,
    windows: bool,
)
    ensures
        planned_rename(from, to, windows) matches Ok(plan) ==> {
            &&& plan.from.len() == plan.to.len()
            &&& plan.from.len() > 0
            &&& plan.from.drop_last() == plan.to.drop_last()
            &&& plan.from.drop_last() == from@.names.drop_last()
            &&& plan.from.len() == from@.names.len()
            &&& plan.is_file == from@.is_file
            &&& plan.is_file == to@.is_file
        },
    decreases from,
{
    if let (
        FileNamespace::Namespace { namespace: name_from, child: Some(child_from) },
        FileNamespace::Namespace { namespace: name_to, child: Some(child_to) },
    ) = (from, to) {
        law_rename_changes_the_last_name_only(*child_from, *child_to, windows);
        if let Ok(inner) = planned_rename(*child_from, *child_to, windows) {
            let plan = inner.below(name_from@);
            assert(plan.from.drop_last() =~= seq![name_from@] + inner.from.drop_last());
            assert(from@.names =~= seq![name_from@] + child_from.names());
            assert(from@.names.drop_last() =~= seq![name_from@] + child_from.names().drop_last());
            assert(plan.to.drop_last() =~= seq![name_from@] + inner.to.drop_last());
        }
    } else if let Ok(plan) = planned_rename(from, to, windows) {
        assert(plan.from.drop_last() =~= plan.to.drop_last());
        assert(plan.from.drop_last() =~= from@.names.drop_last());
    }
}

/// What is renamed is what was named, to the name that was asked for, both made safe; and paths of
/// the same shape that differ in their last name only can always be renamed.
pub proof fn law_rename_is_to_the_name_that_was_asked_for(
    from: FileNamespace,
    to: FileNamespace,
    windows: bool,
)
    ensures
        planned_rename(from, to, windows) matches Ok(plan) ==> {
            &&& plan.from.last() == crate::filerequest_drive_handler::sanitized(
                from@.names.last(),
                windows,
            )
            &&& plan.to.last() == crate::filerequest_drive_handler::sanitized(
                to@.names.last(),
                windows,
            )
        },
        planned_rename(from, to, windows) is Ok <==> {
            &&& from@.is_file == to@.is_file
            &&& from@.names.len() == to@.names.len()
            &&& from@.names.drop_last() == to@.names.drop_last()
        },
    decreases from,
{
    if let (
        FileNamespace::Namespace { namespace: name_from, child: Some(child_from) },
        FileNamespace::Namespace { namespace: name_to, child: Some(child_to) },
    ) = (from, to) {
        law_rename_is_to_the_name_that_was_asked_for(*child_from, *child_to, windows);
        law_rename_changes_the_last_name_only(*child_from, *child_to, windows);
        assert(from@.names =~= seq![name_from@] + child_from.names());
        assert(to@.names =~= seq![name_to@] + child_to.names());
        lemma_paths_have_names(*child_from);
        lemma_paths_have_names(*child_to);
        assert(from@.names.drop_last() =~= seq![name_from@] + child_from.names().drop_last());
        assert(to@.names.drop_last() =~= seq![name_to@] + child_to.names().drop_last());
        if from@.names.drop_last() == to@.names.drop_last() {
            assert(from@.names.drop_last()[0] == to@.names.drop_last()[0]);
            assert(child_from.names().drop_last() =~= from@.names.drop_last().skip(1));
            assert(child_to.names().drop_last() =~= to@.names.drop_last().skip(1));
        }
        if let Ok(inner) = planned_rename(*child_from, *child_to, windows) {
            let plan = inner.below(name_from@);
            assert(plan.from.last() == inner.from.last());
            assert(plan.to.last() == inner.to.last());
        }
    } else {
        if let FileNamespace::Namespace { child: Some(child), .. } = from {
            lemma_paths_have_names(*child);
        }
        if let FileNamespace::Namespace { child: Some(child), .. } = to {
            lemma_paths_have_names(*child);
        }
        if from@.names.len() == 1 && to@.names.len() == 1 {
            assert(from@.names.drop_last() =~= to@.names.drop_last());
        }
    }
}

proof fn lemma_paths_have_names(path: FileNamespace)
    ensures
        path.names().len() > 0,
{
}

/// What becomes of a rename whose target exists already.
#[derive(Clone, Copy, Debug, PartialEq, Eq, Structural)]
pub enum RenameTarget {
    /// Nothing is in the way.
    Free,
    /// Another name has to be found for the file.
    FindVariant,
    /// A directory does not give way.
    Refused,
}

/// What becomes of a rename, given whether its target exists.
pub fn rename_target(is_file: bool, target_exists: bool) -> (r: RenameTarget)
    ensures
        r == (if !target_exists {
            RenameTarget::Free
        } else if is_file {
            RenameTarget::FindVariant
        } else {
            RenameTarget::Refused
        }),
{
    if !target_exists {
        RenameTarget::Free
    } else if is_file {
        RenameTarget::FindVariant
    } else {
        RenameTarget::Refused
    }
}

// Names that are not taken yet

pub const NUMBER_OF_VARIATIONS_TO_TRY: usize = 100;

/// A file name with a number behind its stem, which ends before the last dot.
pub open spec fn file_variant(name: Seq<char>, number: nat) -> Seq<char> {
    match crate::text::last_index(name, '.') {
        Some(i) => name.take(i) + "_"@ + crate::text::decimal(number) + "."@ + name.skip(i + 1),
        None => name + "_"@ + crate::text::decimal(number),
    }
}

/// A directory name with a number behind it.
pub open spec fn directory_variant(name: Seq<char>, number: nat) -> Seq<char> {
    name + "_"@ + crate::text::decimal(number)
}

/// The file name with the number in it.
pub fn numbered(name: &str, number: usize) -> (r: String)
    ensures
        r@ == file_variant(name@, number as nat),
{
    let number = u64_to_string(number as u64);
    match rfind_char(name, '.') {
        Some(i) => {
            let length: usize = name.unicode_len();
            let stem = name.substring_char(0, i);
            let extension = name.substring_char(i + 1, length);
            assert(name@.subrange(0, i as int) =~= name@.take(i as int));
            assert(name@.subrange(i + 1, name@.len() as int) =~= name@.skip(i + 1));
            stem.to_owned().concat("_").concat(number.as_str()).concat(".").concat(extension)
        },
        None => name.to_owned().concat("_").concat(number.as_str()),
    }
}

/// Variants of a file name with different numbers are different.
pub proof fn law_file_variants_differ(name: Seq<char>, i: nat, j: nat)
    requires
        i != j,
    ensures
        file_variant(name, i) != file_variant(name, j),
{
    let a = crate::text::decimal(i);
    let b = crate::text::decimal(j);
    crate::text::lemma_decimal_round_trip(i);
    crate::text::lemma_decimal_round_trip(j);
    if file_variant(name, i) == file_variant(name, j) {
        match crate::text::last_index(name, '.') {
            Some(k) => {
                let front = name.take(k) + "_"@;
                let back = "."@ + name.skip(k + 1);
                let first = file_variant(name, i);
                let second = file_variant(name, j);
                assert(first =~= front + a + back);
                assert(second =~= front + b + back);
                assert(a.len() == b.len());
                assert(first.subrange(front.len() as int, (front.len() + a.len()) as int) =~= a);
                assert(second.subrange(front.len() as int, (front.len() + b.len()) as int) =~= b);
            },
            None => {
                let front = name + "_"@;
                let first = file_variant(name, i);
                let second = file_variant(name, j);
                assert(first.skip(front.len() as int) =~= a);
                assert(second.skip(front.len() as int) =~= b);
            },
        }
    }
}

// The directory for all files

/// What is known of a directory.
#[derive(Clone, Copy, Debug, PartialEq, Eq, Structural)]
pub enum Probe {
    Missing,
    /// It exists, but is no directory, or nothing can be written in it.
    Unusable,
    Usable,
}

/// What to do with the directory that was asked for.
#[derive(Clone, Copy, Debug, PartialEq, Eq, Structural)]
pub enum OutDirStep {
    Use,
    Create,
    /// Look for another directory beside it.
    Deescalate,
}

pub fn out_dir_step(probe: Probe) -> (r: OutDirStep)
    ensures
        r == (match probe {
            Probe::Missing => OutDirStep::Create,
            Probe::Unusable => OutDirStep::Deescalate,
            Probe::Usable => OutDirStep::Use,
        }),
{
    match probe {
        Probe::Missing => OutDirStep::Create,
        Probe::Unusable => OutDirStep::Deescalate,
        Probe::Usable => OutDirStep::Use,
    }
}

/// The name of a directory that is tried in place of another.
pub fn deescalated_name(base: &str, number: usize) -> (r: String)
    ensures
        r@ == directory_variant(base@, number as nat),
{
    base.to_owned().concat("_").concat(u64_to_string(number as u64).as_str())
}

/// What to do with a directory that is tried in place of another.
#[derive(Clone, Copy, Debug, PartialEq, Eq, Structural)]
pub enum DeescalationStep {
    Use,
    Create,
    TryNext(usize),
    GiveUp,
}

/// What to do with the directory of the given number: it is used if it can be, created if it does
/// not exist, and else the next one is tried, up to a limit.
pub fn deescalation_step(number: usize, probe: Probe) -> (r: DeescalationStep)
    ensures
        r == (match probe {
            Probe::Usable => DeescalationStep::Use,
            Probe::Missing => DeescalationStep::Create,
            Probe::Unusable => if number >= NUMBER_OF_VARIATIONS_TO_TRY {
                DeescalationStep::GiveUp
            } else {
                DeescalationStep::TryNext((number + 1) as usize)
            },
        }),
{
    match probe {
        Probe::Usable => DeescalationStep::Use,
        Probe::Missing => DeescalationStep::Create,
        Probe::Unusable => if number >= NUMBER_OF_VARIATIONS_TO_TRY {
            DeescalationStep::GiveUp
        } else {
            DeescalationStep::TryNext(number + 1)
        },
    }
}

// Partial files and backups

/// Whether a name is that of something in a directory, without separators, and not that of the
/// directory itself or the one above. On Windows it has no drive in front either.
pub open spec fn is_bare_basename(name: Seq<char>, windows: bool) -> bool {
    &&& name.len() > 0
    &&& name != "."@
    &&& name != ".."@
    &&& !name.contains('/')
    &&& windows ==> !name.contains('\\')
    &&& windows ==> !(name.len() >= 2 && is_ascii_letter(name[0]) && name[1] == ':')
}

pub open spec fn is_ascii_letter(c: char) -> bool {
    'a' <= c <= 'z' || 'A' <= c <= 'Z'
}

/// Validate that `filename` is a bare basename (no path separators, not `.`/`..`).
///
/// Partial filenames are derived from the wire-supplied `transfer_uuid`, so even though
/// callers sanitize upstream we defend the join here to keep these file primitives safe
/// in isolation (the stale-cleanup sweep calls them without going through the drive handler).
pub fn validate_partial_basename(filename: &str, windows: bool) -> (r: Result<(), String>)
    ensures
        match r {
            Ok(()) => is_bare_basename(filename@, windows),
            Err(message) => !is_bare_basename(filename@, windows) && message@
                == "Refusing partial filename that is not a bare basename: '"@ + filename@ + "'"@,
        },
{
    proof {
        crate::text::lemma_first_index_bounds(filename@, '/');
        crate::text::lemma_first_index_bounds(filename@, '\\');
    }
    let has_drive = windows && filename.unicode_len() >= 2 && filename.get_char(1) == ':' && (
    ('a' <= filename.get_char(0) && filename.get_char(0) <= 'z') || ('A' <= filename.get_char(0)
        && filename.get_char(0) <= 'Z'));
    let is_bare = !filename.is_empty() && !str_eq(filename, ".") && !str_eq(filename, "..")
        && find_char(filename, '/').is_none() && !(windows && find_char(
        filename,
        '\\',
    ).is_some()) && !has_drive;
    if is_bare {
        Ok(())
    } else {
        Err(
            "Refusing partial filename that is not a bare basename: '".to_owned().concat(
                filename,
            ).concat("'"),
        )
    }
}

/// The name of a backup that is made on the given day.
pub fn backup_file_name(date: &str) -> (r: String)
    ensures
        r@ == date@ + "_fyles.bak"@,
{
    date.to_owned().concat("_fyles.bak")
}

// Notifications

/// The messages that make up a notification, and the values of their variables.
#[derive(Debug)]
pub struct NotificationTexts {
    pub title_id: &'static str,
    pub body_id: &'static str,
    pub args: Vec<(String, String)>,
}

/// The values that both messages about a received file show.
pub open spec fn file_args(
    file_name: Seq<char>,
    file_size: u64,
    filerequest_name: Seq<char>,
    separator: char,
) -> Seq<(Seq<char>, Seq<char>)> {
    let (value, unit) = crate::i18n::file_size_text(file_size, separator);
    seq![
        ("fileName"@, file_name),
        ("fileSizeValue"@, value),
        ("fileSizeUnit"@, unit),
        ("requestName"@, filerequest_name),
    ]
}

/// The messages for a notification, with numbers in the given decimal notation. The sender is
/// named where it is known.
pub fn notification_texts(notification: Notification, separator: char) -> (r: NotificationTexts)
    ensures
        match notification {
            Notification::FileReceived { contact_name, filerequest_name, file_name, file_size } => {
                &&& r.title_id@ == "file-received-title"@
                &&& match contact_name {
                    Some(name) => r.body_id@ == "file-received-mess-with-contact"@
                        && crate::i18n::arg_views(r.args@) == seq![("senderName"@, name@)]
                        + file_args(file_name@, file_size, filerequest_name@, separator),
                    None => r.body_id@ == "received-file-via-filerequest"@
                        && crate::i18n::arg_views(r.args@) == file_args(
                        file_name@,
                        file_size,
                        filerequest_name@,
                        separator,
                    ),
                }
            },
        },
{
    match notification {
        Notification::FileReceived { contact_name, filerequest_name, file_name, file_size } => {
            let ghost shown = file_args(file_name@, file_size, filerequest_name@, separator);
            let (value, unit) = format_file_size_with(file_size, separator);
            let mut args: Vec<(String, String)> = Vec::new();
            let body_id = match contact_name {
                Some(name) => {
                    args.push(("senderName".to_owned(), name));
                    "file-received-mess-with-contact"
                },
                None => "received-file-via-filerequest",
            };
            let ghost front = crate::i18n::arg_views(args@);
            args.push(("fileName".to_owned(), file_name));
            args.push(("fileSizeValue".to_owned(), value));
            args.push(("fileSizeUnit".to_owned(), unit.to_owned()));
            args.push(("requestName".to_owned(), filerequest_name));
            assert(crate::i18n::arg_views(args@) =~= front + shown);
            assert(contact_name matches Some(name) ==> front =~= seq![("senderName"@, name@)]);
            assert(contact_name is None ==> front + shown =~= shown);
            NotificationTexts { title_id: "file-received-title", body_id, args }
        },
    }
}

/// What the user reads of a received file are its name, its size and the title of its request, and
/// the name of the sender where that is known, each in the place that the message has for it.
pub proof fn law_notifications_tell_of_the_file(
    contact_name: Option<String>,
    filerequest_name: String,
    file_name: String,
    file_size: u64,
    separator: char,
    texts: NotificationTexts,
)
    requires
        call_ensures(
            notification_texts,
            (
                Notification::FileReceived { contact_name, filerequest_name, file_name, file_size },
                separator,
            ),
            texts,
        ),
    ensures
        ({
            let args = crate::i18n::arg_views(texts.args@);
            let (value, unit) = crate::i18n::file_size_text(file_size, separator);
            &&& texts.title_id@ == "file-received-title"@
            &&& args.contains(("fileName"@, file_name@))
            &&& args.contains(("requestName"@, filerequest_name@))
            &&& args.contains(("fileSizeValue"@, value))
            &&& args.contains(("fileSizeUnit"@, unit))
            &&& match contact_name {
                Some(name) => texts.body_id@ == "file-received-mess-with-contact"@
                    && args.contains(("senderName"@, name@)),
                None => texts.body_id@ == "received-file-via-filerequest"@ && args.len() == 4,
            }
        }),
{
    let args = crate::i18n::arg_views(texts.args@);
    let shown = file_args(file_name@, file_size, filerequest_name@, separator);
    let at: int = if contact_name is Some {
        1
    } else {
        0
    };
    assert(args[at] == shown[0]);
    assert(args[at + 1] == shown[1]);
    assert(args[at + 2] == shown[2]);
    assert(args[at + 3] == shown[3]);
    if let Some(name) = contact_name {
        assert(args[0] == ("senderName"@, name@));
    }
}

} // verus!
