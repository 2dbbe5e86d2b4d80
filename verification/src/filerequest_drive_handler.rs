//! Where the files of one file request go.
use vstd::prelude::*;

use crate::domain_models::{Filerequest, FylesId};
use crate::io_controller::FileNamespace;
use crate::text::{find_char, to_chars, u64_to_string};

verus! {

/// A character that has no place in the name of a file: a separator, a wildcard or the like, or a
/// control character.
pub open spec fn is_illegal_in_names(c: char) -> bool {
    ||| c == '/' || c == '?' || c == '<' || c == '>' || c == '\\' || c == ':' || c == '*'
        || c == '|'
        || c == '"'
    ||| c as u32 <= 0x1f
    ||| 0x80 <= c as u32 <= 0x9f
}

/// A character that marks are made of: it can stand anywhere in a name, and means the same on file
/// systems that do not tell capitals from small letters.
pub open spec fn is_mark_char(c: char) -> bool {
    '0' <= c <= '9' || 'a' <= c <= 'z' || c == '-' || c == '_'
}

/// Whether the text can be the mark by which the names of one request are known.
pub open spec fn is_mark(mark: Seq<char>) -> bool {
    mark.len() > 0 && forall|i: int| 0 <= i < mark.len() ==> is_mark_char(#[trigger] mark[i])
}

/// Whether a name begins with the mark and a space.
pub open spec fn begins_with_mark(name: Seq<char>, mark: Seq<char>) -> bool {
    is_mark(mark) && mark.push(' ').is_prefix_of(name)
}

/// Whether the mark is what stands in a name before its first space.
pub open spec fn bears_mark(name: Seq<char>, mark: Seq<char>) -> bool {
    is_mark(mark) && (name == mark || mark.push(' ').is_prefix_of(name))
}

/// As much of a mark as fits into a name.
pub open spec fn fitting(mark: Seq<char>) -> Seq<char> {
    if mark.len() <= LONGEST_NAME {
        mark
    } else {
        mark.take(LONGEST_NAME as int)
    }
}

/// How many bytes a name can have.
pub const LONGEST_NAME: usize = 255;

/// The name that `sanitize_filename` makes of a name, by the rules of Windows or by the others.
pub uninterp spec fn sanitized(name: Seq<char>, windows: bool) -> Seq<char>;

/// `sanitize_filename::sanitize_with_options`, which truncates, and drops what has no place in the
/// name of a file: the result holds no such character, is no name of the directory itself or of the
/// one above it, and is no longer than the name. A mark that the name begins with is kept as far as
/// it fits: nothing in it is dropped, no reserved name goes on with a space, and only points and
/// spaces are taken from the end.
#[verifier::external_body]
pub(crate) fn sanitize(name: &str, windows: bool) -> (r: String)
    ensures
        r@ == sanitized(name@, windows),
        forall|i: int| 0 <= i < r@.len() ==> !is_illegal_in_names(#[trigger] r@[i]),
        r@ != seq!['.'],
        r@ != seq!['.', '.'],
        r@.len() <= name@.len(),
        forall|mark: Seq<char>| #[trigger]
            begins_with_mark(name@, mark) ==> bears_mark(r@, fitting(mark)),
{
    sanitize_filename::sanitize_with_options(
        name,
        sanitize_filename::Options { windows, truncate: true, replacement: "" },
    )
}

/// `std::path::MAIN_SEPARATOR`: the character that separates the parts of a path on this machine.
#[verifier::external_body]
fn main_separator() -> (r: char) {
    std::path::MAIN_SEPARATOR
}

/// Whether this can be the separator on this machine.
pub closed spec fn can_be_main_separator(separator: char) -> bool {
    call_ensures(main_separator, (), separator)
}

/// The separator of the parts of a path on this machine.
pub(crate) fn path_separator() -> (r: char)
    ensures
        can_be_main_separator(r),
{
    main_separator()
}

/// Whether the separator is that of Windows.
pub open spec fn is_windows(separator: char) -> bool {
    separator == '\\'
}

/// Why a file could not be had. Underlying errors and paths are kept as their texts.
#[derive(Debug)]
pub enum GetFileError {
    FileNameStartsWithDot,
    SanitizedEmpty { original: String },
    ContainsSeparator { sanitized: String },
    BaseDirMissing { base: String },
    ConstructedPathEscapedBaseDirectory,
    UniqueFileNameVariantNotFound { base: String },
    FileExists,
    Io { path: String, source: String },
    FilerequestDir(String),
}

pub ghost enum GetFileErrorView {
    FileNameStartsWithDot,
    SanitizedEmpty { original: Seq<char> },
    ContainsSeparator { sanitized: Seq<char> },
    BaseDirMissing { base: Seq<char> },
    ConstructedPathEscapedBaseDirectory,
    UniqueFileNameVariantNotFound { base: Seq<char> },
    FileExists,
    Io { path: Seq<char>, source: Seq<char> },
    FilerequestDir(Seq<char>),
}

impl View for GetFileError {
    type V = GetFileErrorView;

    open spec fn view(&self) -> GetFileErrorView {
        match *self {
            GetFileError::FileNameStartsWithDot => GetFileErrorView::FileNameStartsWithDot,
            GetFileError::SanitizedEmpty { original } => GetFileErrorView::SanitizedEmpty {
                original: original@,
            },
            GetFileError::ContainsSeparator { sanitized } => GetFileErrorView::ContainsSeparator {
                sanitized: sanitized@,
            },
            GetFileError::BaseDirMissing { base } => GetFileErrorView::BaseDirMissing {
                base: base@,
            },
            GetFileError::ConstructedPathEscapedBaseDirectory =>
                GetFileErrorView::ConstructedPathEscapedBaseDirectory,
            GetFileError::UniqueFileNameVariantNotFound { base } =>
                GetFileErrorView::UniqueFileNameVariantNotFound { base: base@ },
            GetFileError::FileExists => GetFileErrorView::FileExists,
            GetFileError::Io { path, source } => GetFileErrorView::Io {
                path: path@,
                source: source@,
            },
            GetFileError::FilerequestDir(source) => GetFileErrorView::FilerequestDir(source@),
        }
    }
}

impl GetFileErrorView {
    pub open spec fn text(self) -> Seq<char> {
        match self {
            GetFileErrorView::FileNameStartsWithDot =>
                "Refusing to create file: filenames starting with '.' are not allowed"@,
            GetFileErrorView::SanitizedEmpty { original } =>
                "Refusing to create file: sanitized filename from '"@ + original + "' is empty"@,
            GetFileErrorView::ContainsSeparator { sanitized } =>
                "Refusing to create file: filename '"@ + sanitized
                + "' contains a path separator"@,
            GetFileErrorView::BaseDirMissing { base } => "Base directory "@ + base
                + " does not exist"@,
            GetFileErrorView::ConstructedPathEscapedBaseDirectory =>
                "Security violation: constructed path not within base directory"@,
            GetFileErrorView::UniqueFileNameVariantNotFound { base } =>
                "Failed to find unique filename for "@ + base,
            GetFileErrorView::FileExists => "File already exists"@,
            GetFileErrorView::Io { path, source } => "IO error at "@ + path + ": "@ + source,
            GetFileErrorView::FilerequestDir(source) =>
                "Error in filerequest directory handling: "@ + source,
        }
    }
}

impl GetFileError {
    pub fn to_text(&self) -> (r: String)
        ensures
            r@ == self@.text(),
    {
        match self {
            GetFileError::FileNameStartsWithDot =>
                "Refusing to create file: filenames starting with '.' are not allowed".to_owned(),
            GetFileError::SanitizedEmpty { original } =>
                "Refusing to create file: sanitized filename from '".to_owned().concat(
                original.as_str(),
            ).concat("' is empty"),
            GetFileError::ContainsSeparator { sanitized } =>
                "Refusing to create file: filename '".to_owned().concat(sanitized.as_str()).concat(
                "' contains a path separator",
            ),
            GetFileError::BaseDirMissing { base } => "Base directory ".to_owned().concat(
                base.as_str(),
            ).concat(" does not exist"),
            GetFileError::ConstructedPathEscapedBaseDirectory =>
                "Security violation: constructed path not within base directory".to_owned(),
            GetFileError::UniqueFileNameVariantNotFound { base } =>
                "Failed to find unique filename for ".to_owned().concat(base.as_str()),
            GetFileError::FileExists => "File already exists".to_owned(),
            GetFileError::Io { path, source } => "IO error at ".to_owned().concat(
                path.as_str(),
            ).concat(": ").concat(source.as_str()),
            GetFileError::FilerequestDir(source) =>
                "Error in filerequest directory handling: ".to_owned().concat(source.as_str()),
        }
    }
}

pub type GetFileResult<T> = Result<T, GetFileError>;

/// The name under which a file is stored that was offered under `filename`.
pub open spec fn safe_file_name(filename: Seq<char>, separator: char) -> Result<
    Seq<char>,
    GetFileErrorView,
> {
    let safe = sanitized(filename, is_windows(separator));
    if filename.len() > 0 && filename[0] == '.' {
        Err(GetFileErrorView::FileNameStartsWithDot)
    } else if safe.len() == 0 {
        Err(GetFileErrorView::SanitizedEmpty { original: filename })
    } else if safe.contains(separator) {
        Err(GetFileErrorView::ContainsSeparator { sanitized: safe })
    } else {
        Ok(safe)
    }
}

/// How a character of an id is written in a mark: as it is, or else by its number between two
/// underscores.
pub open spec fn mark_code(c: char) -> Seq<char> {
    if is_mark_char(c) && c != '_' {
        seq![c]
    } else {
        seq!['_'] + crate::text::decimal(c as u32 as nat) + seq!['_']
    }
}

/// The characters of an id as they are written in a mark.
pub open spec fn mark_codes(id: Seq<char>) -> Seq<char>
    decreases id.len(),
{
    if id.len() == 0 {
        seq![]
    } else {
        mark_codes(id.drop_last()) + mark_code(id.last())
    }
}

/// The mark by which the names of the request with the given id are known.
pub open spec fn mark_of(id: Seq<char>) -> Seq<char> {
    if id.len() == 0 {
        seq!['_', '_']
    } else {
        mark_codes(id)
    }
}

/// The name of the directory for the files of a request: its mark, and behind it what of its title
/// can stand in a name. The mark stands first, so that no title pushes it out of the name, however
/// long it is, and holds no space, so that its end can be told.
pub open spec fn dir_name_for(id: Seq<char>, title: Seq<char>, separator: char) -> Seq<char> {
    let safe = sanitized(title, is_windows(separator));
    mark_of(id).push(' ') + (if safe.len() == 0 {
        "untitled"@
    } else {
        safe
    })
}

/// The name of the directory for the files of a request.
pub open spec fn safe_dir_name(
    filerequest: crate::domain_models::FilerequestView,
    separator: char,
) -> Seq<char> {
    dir_name_for(filerequest.id, filerequest.title, separator)
}

/// Whether this is the name of something inside a directory: it leads to no other directory.
pub open spec fn is_plain_name(name: Seq<char>) -> bool {
    &&& name.len() > 0
    &&& name != seq!['.']
    &&& name != seq!['.', '.']
    &&& forall|i: int| 0 <= i < name.len() ==> !is_illegal_in_names(#[trigger] name[i])
}

proof fn lemma_mark_code(c: char)
    ensures
        is_mark(mark_code(c)),
        mark_code(c).last() == '_' <==> mark_code(c).len() > 1,
        mark_code(c).len() > 1 ==> {
            &&& mark_code(c).len() > 2
            &&& mark_code(c)[0] == '_'
            &&& mark_code(c).subrange(1, mark_code(c).len() - 1) == crate::text::decimal(
                c as u32 as nat,
            )
            &&& forall|i: int| 0 < i < mark_code(c).len() - 1 ==> #[trigger] mark_code(c)[i] != '_'
        },
{
    let code = mark_code(c);
    if code.len() > 1 {
        let digits = crate::text::decimal(c as u32 as nat);
        crate::text::lemma_decimal_round_trip(c as u32 as nat);
        assert(code.subrange(1, code.len() - 1) =~= digits);
        assert forall|i: int| 0 < i < code.len() - 1 implies crate::text::is_digit(
            #[trigger] code[i],
        ) by {
            assert(code[i] == digits[i - 1]);
        }
    }
}

/// Every id has a mark.
pub proof fn lemma_mark_of_is_mark(id: Seq<char>)
    ensures
        is_mark(mark_of(id)),
    decreases id.len(),
{
    if id.len() > 0 {
        lemma_mark_of_is_mark(id.drop_last());
        lemma_mark_code(id.last());
        let before = mark_codes(id.drop_last());
        assert forall|i: int| 0 <= i < mark_of(id).len() implies is_mark_char(
            #[trigger] mark_of(id)[i],
        ) by {
            if i < before.len() {
                assert(mark_of(id.drop_last())[i] == before[i]);
            } else {
                assert(mark_code(id.last())[i - before.len()] == mark_of(id)[i]);
            }
        }
    }
}

proof fn lemma_mark_code_is_read_back(c: char, d: char)
    requires
        mark_code(c) == mark_code(d),
    ensures
        c == d,
{
    lemma_mark_code(c);
    lemma_mark_code(d);
    if mark_code(c).len() == 1 {
        assert(mark_code(c)[0] == c);
        assert(mark_code(d)[0] == d);
    } else {
        crate::text::lemma_decimal_round_trip(c as u32 as nat);
        crate::text::lemma_decimal_round_trip(d as u32 as nat);
        assert(c as u32 == d as u32);
    }
}

proof fn lemma_mark_codes_are_read_back(a: Seq<char>, b: Seq<char>)
    requires
        mark_codes(a) == mark_codes(b),
    ensures
        a == b,
    decreases a.len(),
{
    let codes = mark_codes(a);
    if a.len() == 0 || b.len() == 0 {
        if a.len() > 0 {
            lemma_mark_code(a.last());
        }
        if b.len() > 0 {
            lemma_mark_code(b.last());
        }
        assert(a =~= b);
    } else {
        let first = mark_code(a.last());
        let second = mark_code(b.last());
        let n = codes.len() as int;
        lemma_mark_code(a.last());
        lemma_mark_code(b.last());
        assert(codes.last() == first.last());
        assert(codes.last() == second.last());
        if first.len() > second.len() {
            assert(codes[n - second.len()] == first[first.len() - second.len()]);
            assert(codes[n - second.len()] == second[0]);
        } else if second.len() > first.len() {
            assert(codes[n - first.len()] == second[second.len() - first.len()]);
            assert(codes[n - first.len()] == first[0]);
        }
        assert(first =~= codes.skip(n - first.len()));
        assert(second =~= codes.skip(n - first.len()));
        assert(mark_codes(a.drop_last()) =~= codes.take(n - first.len()));
        assert(mark_codes(b.drop_last()) =~= codes.take(n - first.len()));
        lemma_mark_codes_are_read_back(a.drop_last(), b.drop_last());
        lemma_mark_code_is_read_back(a.last(), b.last());
        assert(a =~= a.drop_last().push(a.last()));
        assert(b =~= b.drop_last().push(b.last()));
    }
}

/// Different ids have different marks, in names too that both marks fit into.
pub proof fn law_marks_tell_ids_apart(a: Seq<char>, b: Seq<char>)
    requires
        a != b,
    ensures
        mark_of(a) != mark_of(b),
        mark_of(a).len() <= LONGEST_NAME && mark_of(b).len() <= LONGEST_NAME ==> fitting(mark_of(a))
            != fitting(mark_of(b)),
{
    if mark_of(a) == mark_of(b) {
        if a.len() > 0 {
            lemma_mark_code(a.last());
            assert(mark_codes(a).last() == mark_code(a.last()).last());
        }
        if b.len() > 0 {
            lemma_mark_code(b.last());
            assert(mark_codes(b).last() == mark_code(b.last()).last());
        }
        if a.len() > 0 && b.len() > 0 {
            lemma_mark_codes_are_read_back(a, b);
        } else {
            assert(a =~= b);
        }
    }
}

/// An id that was given out is its own mark.
pub proof fn law_new_ids_are_their_own_marks(id: Seq<char>)
    requires
        crate::domain_models::is_uuid(id),
    ensures
        mark_of(id) == id,
        fitting(mark_of(id)) == id,
{
    assert forall|i: int| 0 <= i < id.len() implies is_mark_char(#[trigger] id[i]) && id[i]
        != '_' by {
        assert(crate::domain_models::is_uuid_char(i, id[i]));
    }
    lemma_plain_ids_are_their_own_marks(id);
}

proof fn lemma_plain_ids_are_their_own_marks(id: Seq<char>)
    requires
        forall|i: int| 0 <= i < id.len() ==> is_mark_char(#[trigger] id[i]) && id[i] != '_',
    ensures
        mark_codes(id) == id,
    decreases id.len(),
{
    if id.len() > 0 {
        lemma_plain_ids_are_their_own_marks(id.drop_last());
        assert(id =~= id.drop_last().push(id.last()));
    }
    assert(mark_codes(id) =~= id);
}

/// The name of the directory for the files of a request begins with its mark.
pub proof fn lemma_dir_name_begins_with_mark(id: Seq<char>, title: Seq<char>, separator: char)
    ensures
        begins_with_mark(dir_name_for(id, title, separator), mark_of(id)),
{
    lemma_mark_of_is_mark(id);
}

/// Names that bear different marks differ.
pub proof fn lemma_marks_tell_names_apart(
    a: Seq<char>,
    b: Seq<char>,
    mark: Seq<char>,
    other: Seq<char>,
)
    requires
        mark != other,
        bears_mark(a, mark),
        bears_mark(b, other),
    ensures
        a != b,
{
    if a == b {
        if mark.len() < other.len() {
            assert(a[mark.len() as int] == mark.push(' ')[mark.len() as int]);
            assert(b[mark.len() as int] == other[mark.len() as int]) by {
                assert(b == other || b[mark.len() as int] == other.push(' ')[mark.len() as int]);
            }
        } else if other.len() < mark.len() {
            assert(b[other.len() as int] == other.push(' ')[other.len() as int]);
            assert(a[other.len() as int] == mark[other.len() as int]) by {
                assert(a == mark || a[other.len() as int] == mark.push(' ')[other.len() as int]);
            }
        } else {
            assert forall|i: int| 0 <= i < mark.len() implies mark[i] == other[i] by {
                assert(a == mark || a[i] == mark.push(' ')[i]);
                assert(b == other || b[i] == other.push(' ')[i]);
            }
            assert(mark =~= other);
        }
    }
}

/// Different requests have directories of their own, whatever their ids and titles are.
pub proof fn law_requests_keep_apart(
    a: crate::domain_models::FilerequestView,
    b: crate::domain_models::FilerequestView,
    separator: char,
)
    requires
        a.id != b.id,
    ensures
        safe_dir_name(a, separator) != safe_dir_name(b, separator),
{
    lemma_dir_name_begins_with_mark(a.id, a.title, separator);
    lemma_dir_name_begins_with_mark(b.id, b.title, separator);
    law_marks_tell_ids_apart(a.id, b.id);
    lemma_marks_tell_names_apart(
        safe_dir_name(a, separator),
        safe_dir_name(b, separator),
        mark_of(a.id),
        mark_of(b.id),
    );
}

/// Whether the result is the value or error that is meant.
pub open spec fn names_file(
    got: GetFileResult<String>,
    meant: Result<Seq<char>, GetFileErrorView>,
) -> bool {
    match got {
        Ok(name) => meant == Ok::<Seq<char>, GetFileErrorView>(name@),
        Err(error) => meant == Err::<Seq<char>, GetFileErrorView>(error@),
    }
}

/// What is needed to give a partial file its final place.
#[derive(Debug)]
pub struct Finalization {
    pub partial_filename: String,
    pub target: FileNamespace,
    pub file_name: String,
}

/// What is needed to rename a file.
#[derive(Debug)]
pub struct FileRename {
    pub from: FileNamespace,
    pub to: FileNamespace,
    pub file_name: String,
}

/// Keeps the files of one file request in a directory of their own.
#[derive(Debug)]
pub struct FilerequestDriveHandler {
    id: FylesId,
    safe_dir_name: String,
    separator: char,
}

impl FilerequestDriveHandler {
    /// The id of the request.
    pub closed spec fn id(&self) -> Seq<char> {
        self.id@
    }

    /// The directory of the request.
    pub closed spec fn dir_name(&self) -> Seq<char> {
        self.safe_dir_name@
    }

    /// The separator of paths that no name may hold.
    pub closed spec fn separator(&self) -> char {
        self.separator
    }

    /// The path of a file in the directory of the request.
    pub open spec fn path_of(&self, name: Seq<char>) -> crate::io_controller::NamespaceView {
        crate::io_controller::NamespaceView { names: seq![self.dir_name(), name], is_file: true }
    }

    /// Whether the result is the path of the file that is stored for `filename`, or says why
    /// there is none.
    pub open spec fn places(&self, filename: Seq<char>, got: GetFileResult<FileNamespace>) -> bool {
        match (got, safe_file_name(filename, self.separator())) {
            (Ok(path), Ok(name)) => path@ == self.path_of(name),
            (Err(error), Err(meant)) => error@ == meant,
            _ => false,
        }
    }

    /// The handler for the files of a request, for paths with the given separator.
    pub fn with_separator(filerequest: &Filerequest, separator: char) -> (r: Self)
        ensures
            r.dir_name() == safe_dir_name(filerequest@, separator),
            r.id() == filerequest@.id,
            r.separator() == separator,
            is_plain_name(r.dir_name()),
    {
        FilerequestDriveHandler {
            id: filerequest.id.clone(),
            safe_dir_name: Self::get_name_from_filerequest(filerequest, separator),
            separator,
        }
    }

    /// The handler for the files of a request, for the paths of this machine.
    pub fn new(filerequest: &Filerequest) -> (r: Self)
        ensures
            can_be_main_separator(r.separator()),
            r.dir_name() == safe_dir_name(filerequest@, r.separator()),
            r.id() == filerequest@.id,
            is_plain_name(r.dir_name()),
    {
        Self::with_separator(filerequest, path_separator())
    }

    fn get_name_from_filerequest(filerequest: &Filerequest, separator: char) -> (r: String)
        ensures
            r@ == safe_dir_name(filerequest@, separator),
            is_plain_name(r@),
    {
        Self::name_for(&filerequest.id, &filerequest.title, separator)
    }

    /// The mark by which the names of the request with the given id are known.
    pub fn mark_for(id: &FylesId) -> (r: String)
        ensures
            r@ == mark_of(id@),
    {
        let chars = to_chars(id.0.as_str());
        let mut mark = String::new();
        if chars.len() == 0 {
            mark.push('_');
            mark.push('_');
            assert(mark@ =~= mark_of(id@));
            return mark;
        }
        let mut i: usize = 0;
        while i < chars.len()
            invariant
                i <= chars@.len(),
                mark@ == mark_codes(chars@.take(i as int)),
            decreases chars@.len() - i,
        {
            let c = chars[i];
            proof {
                assert(chars@.take(i + 1).drop_last() =~= chars@.take(i as int));
            }
            if (c >= '0' && c <= '9') || (c >= 'a' && c <= 'z') || c == '-' {
                mark.push(c);
            } else {
                mark.push('_');
                mark = mark.concat(u64_to_string(c as u32 as u64).as_str());
                mark.push('_');
            }
            assert(mark@ =~= mark_codes(chars@.take(i as int)) + mark_code(c));
            i = i + 1;
        }
        assert(chars@.take(i as int) =~= chars@);
        mark
    }

    /// The name of the directory for the files of the request with the given id and title.
    pub fn name_for(id: &FylesId, title: &String, separator: char) -> (r: String)
        ensures
            r@ == dir_name_for(id@, title@, separator),
            is_plain_name(r@),
    {
        let safe = Self::get_name_from_string(title, separator);
        let mut name = Self::mark_for(id);
        let ghost mark = name@;
        name.push(' ');
        let shown = if safe.as_str().is_empty() {
            "untitled"
        } else {
            safe.as_str()
        };
        let name = name.concat(shown);
        proof {
            lemma_mark_of_is_mark(id@);
            reveal_strlit("untitled");
            assert(name@[mark.len() as int] == ' ');
            assert forall|i: int| 0 <= i < name@.len() implies !is_illegal_in_names(
                #[trigger] name@[i],
            ) by {
                if i < mark.len() {
                    assert(name@[i] == mark[i]);
                } else if i > mark.len() {
                    assert(name@[i] == shown@[i - mark.len() - 1]);
                }
            }
        }
        name
    }

    fn get_name_from_string(name: &String, separator: char) -> (r: String)
        ensures
            r@ == sanitized(name@, is_windows(separator)),
            r@.len() > 0 ==> is_plain_name(r@),
    {
        sanitize(name.as_str(), separator == '\\')
    }

    /// The directory to rename and its new name; nothing where no part of the title can stand in
    /// a name.
    pub fn rename_filerquest(&self, new_title: &String) -> (r: Result<
        (FileNamespace, FileNamespace),
        (),
    >)
        ensures
            r is Err <==> sanitized(new_title@, is_windows(self.separator())).len() == 0,
            r matches Ok(names) ==> {
                &&& names.0@.names == seq![self.dir_name()]
                &&& names.1@.names == seq![dir_name_for(self.id(), new_title@, self.separator())]
                &&& !names.0@.is_file
                &&& !names.1@.is_file
                &&& is_plain_name(names.1@.names[0])
            },
    {
        let safe = Self::get_name_from_string(new_title, self.separator);
        if safe.as_str().is_empty() {
            return Err(());
        }
        let name = Self::name_for(&self.id, new_title, self.separator);
        Ok((FileNamespace::directory(self.safe_dir_name.clone()), FileNamespace::directory(name)))
    }

    /// Takes over the new name, after the directory was renamed.
    pub fn renamed(&mut self, new_title: &String)
        ensures
            final(self).dir_name() == dir_name_for(
                old(self).id(),
                new_title@,
                old(self).separator(),
            ),
            final(self).id() == old(self).id(),
            final(self).separator() == old(self).separator(),
    {
        self.safe_dir_name = Self::name_for(&self.id, new_title, self.separator);
    }

    /// Where to create a file that was offered under `filename`; the host may append a number to
    /// the name.
    pub fn get_file_for_writing(&self, filename: &str) -> (r: GetFileResult<FileNamespace>)
        ensures
            self.places(filename@, r),
            r matches Ok(path) ==> is_plain_name(path@.names[1]),
    {
        match Self::sanitize_filename(filename, self.separator) {
            Ok(name) => Ok(FileNamespace::file_in(self.safe_dir_name.clone(), name)),
            Err(error) => Err(error),
        }
    }

    /// Where to append to a file that was offered under `filename`. No deduplication on the file
    /// system.
    pub fn get_exact_file_for_writing(&self, filename: &str) -> (r: GetFileResult<FileNamespace>)
        ensures
            self.places(filename@, r),
            r matches Ok(path) ==> is_plain_name(path@.names[1]),
    {
        match Self::sanitize_filename(filename, self.separator) {
            Ok(name) => Ok(FileNamespace::file_in(self.safe_dir_name.clone(), name)),
            Err(error) => Err(error),
        }
    }

    /// The name of the partial file to append to.
    pub fn get_partial_file_for_writing(&self, filename: &str) -> (r: GetFileResult<String>)
        ensures
            names_file(r, safe_file_name(filename@, self.separator())),
            r matches Ok(name) ==> is_plain_name(name@),
    {
        Self::sanitize_filename(filename, self.separator)
    }

    /// The name of the partial file to remove.
    pub fn remove_partial_file(&self, filename: &str) -> (r: GetFileResult<String>)
        ensures
            names_file(r, safe_file_name(filename@, self.separator())),
            r matches Ok(name) ==> is_plain_name(name@),
    {
        Self::sanitize_filename(filename, self.separator)
    }

    /// Which partial file gets which place. The partial name is looked at first.
    pub fn finalize_partial_file(&self, partial_filename: &str, final_filename: &str) -> (r:
        GetFileResult<Finalization>)
        ensures
            match (
                r,
                safe_file_name(partial_filename@, self.separator()),
                safe_file_name(final_filename@, self.separator()),
            ) {
                (Ok(plan), Ok(partial), Ok(name)) => plan.partial_filename@ == partial
                    && plan.target@ == self.path_of(name) && plan.file_name@ == name,
                (Err(error), Err(meant), _) => error@ == meant,
                (Err(error), Ok(_), Err(meant)) => error@ == meant,
                _ => false,
            },
    {
        let safe_part_name = match Self::sanitize_filename(partial_filename, self.separator) {
            Ok(name) => name,
            Err(error) => return Err(error),
        };
        let safe_final_name = match Self::sanitize_filename(final_filename, self.separator) {
            Ok(name) => name,
            Err(error) => return Err(error),
        };
        Ok(
            Finalization {
                partial_filename: safe_part_name,
                target: FileNamespace::file_in(self.safe_dir_name.clone(), safe_final_name.clone()),
                file_name: safe_final_name,
            },
        )
    }

    /// The name under which a file is stored that was offered under `filename`, for paths with
    /// the given separator.
    pub fn sanitize_filename(filename: &str, separator: char) -> (r: GetFileResult<String>)
        ensures
            names_file(r, safe_file_name(filename@, separator)),
            r matches Ok(name) ==> is_plain_name(name@),
            separator == '/' || separator == '\\' ==> !(r matches Err(error)
                && error is ContainsSeparator),
    {
        let starts_with_dot = filename.unicode_len() > 0 && filename.get_char(0) == '.';
        if starts_with_dot {
            return Err(GetFileError::FileNameStartsWithDot);
        }
        let safe_name = sanitize(filename, separator == '\\');
        if safe_name.as_str().is_empty() {
            return Err(GetFileError::SanitizedEmpty { original: filename.to_owned() });
        }
        proof {
            crate::text::lemma_first_index_bounds(safe_name@, separator);
        }
        if find_char(safe_name.as_str(), separator).is_some() {
            return Err(GetFileError::ContainsSeparator { sanitized: safe_name });
        }
        Ok(safe_name)
    }

    /// The file to remove.
    pub fn remove_file(&self, filename: &str) -> (r: GetFileResult<FileNamespace>)
        ensures
            self.places(filename@, r),
            r matches Ok(path) ==> is_plain_name(path@.names[1]),
    {
        match Self::sanitize_filename(filename, self.separator) {
            Ok(name) => Ok(FileNamespace::file_in(self.safe_dir_name.clone(), name)),
            Err(error) => Err(error),
        }
    }

    /// Which file gets which name. The present name is looked at first.
    pub fn rename_file(&self, from: &str, to: &str) -> (r: GetFileResult<FileRename>)
        ensures
            match (
                r,
                safe_file_name(from@, self.separator()),
                safe_file_name(to@, self.separator()),
            ) {
                (Ok(plan), Ok(present), Ok(name)) => plan.from@ == self.path_of(present)
                    && plan.to@ == self.path_of(name) && plan.file_name@ == name,
                (Err(error), Err(meant), _) => error@ == meant,
                (Err(error), Ok(_), Err(meant)) => error@ == meant,
                _ => false,
            },
    {
        let safe_from = match Self::sanitize_filename(from, self.separator) {
            Ok(name) => name,
            Err(error) => return Err(error),
        };
        let safe_to = match Self::sanitize_filename(to, self.separator) {
            Ok(name) => name,
            Err(error) => return Err(error),
        };
        Ok(
            FileRename {
                from: FileNamespace::file_in(self.safe_dir_name.clone(), safe_from),
                to: FileNamespace::file_in(self.safe_dir_name.clone(), safe_to.clone()),
                file_name: safe_to,
            },
        )
    }

    /// The error for a host that could not do what it was asked for.
    pub fn host_failure(source: String) -> (r: GetFileError)
        ensures
            r@ == GetFileErrorView::FilerequestDir(source@),
    {
        GetFileError::FilerequestDir(source)
    }
}

/// The name of the directory for the files of a request ends with what of its title can stand in a
/// name, right behind the mark and a space. A title of which nothing can is told by another word.
pub proof fn law_directories_are_named_after_titles(
    id: Seq<char>,
    title: Seq<char>,
    separator: char,
)
    ensures
        ({
            let name = dir_name_for(id, title, separator);
            let mark = mark_of(id);
            let safe = sanitized(title, separator == '\\');
            &&& name.take(mark.len() as int) == mark
            &&& name[mark.len() as int] == ' '
            &&& safe.len() > 0 ==> name.skip(mark.len() as int + 1) == safe
            &&& safe.len() == 0 ==> name.skip(mark.len() as int + 1) == "untitled"@
        }),
{
    let name = dir_name_for(id, title, separator);
    let mark = mark_of(id);
    let safe = sanitized(title, separator == '\\');
    assert(name.take(mark.len() as int) =~= mark);
    if safe.len() > 0 {
        assert(name.skip(mark.len() as int + 1) =~= safe);
    } else {
        assert(name.skip(mark.len() as int + 1) =~= "untitled"@);
    }
}

/// A request that gets another title, of which something else can stand in a name, gets another
/// directory.
pub proof fn law_other_titles_have_other_directories(
    id: Seq<char>,
    title: Seq<char>,
    other: Seq<char>,
    separator: char,
)
    requires
        sanitized(title, separator == '\\').len() > 0,
        sanitized(other, separator == '\\').len() > 0,
        sanitized(title, separator == '\\') != sanitized(other, separator == '\\'),
    ensures
        dir_name_for(id, title, separator) != dir_name_for(id, other, separator),
{
    law_directories_are_named_after_titles(id, title, separator);
    law_directories_are_named_after_titles(id, other, separator);
}

/// Whether this is the name under which a file is stored: what of the offered name can stand in one,
/// where that is something, holds no separator, and the offered name does not begin with a point.
pub open spec fn is_stored_under(filename: Seq<char>, separator: char, name: Seq<char>) -> bool {
    &&& !(filename.len() > 0 && filename[0] == '.')
    &&& name == sanitized(filename, separator == '\\')
    &&& name.len() > 0
    &&& !name.contains(separator)
}

/// A file that is offered for a request is written, appended to and removed in the directory of that
/// request, under the name that it is stored under, and nowhere else; where it has no such name, it
/// is refused.
pub proof fn law_files_lie_in_the_directory_of_their_request(
    handler: &FilerequestDriveHandler,
    filename: &str,
    written: GetFileResult<FileNamespace>,
    appended: GetFileResult<FileNamespace>,
    removed: GetFileResult<FileNamespace>,
)
    requires
        call_ensures(FilerequestDriveHandler::get_file_for_writing, (handler, filename), written),
        call_ensures(
            FilerequestDriveHandler::get_exact_file_for_writing,
            (handler, filename),
            appended,
        ),
        call_ensures(FilerequestDriveHandler::remove_file, (handler, filename), removed),
    ensures
        written is Ok <==> exists|name: Seq<char>| #[trigger]
            is_stored_under(filename@, handler.separator(), name),
        written matches Ok(path) ==> {
            &&& path@.is_file
            &&& path@.names.len() == 2
            &&& path@.names[0] == handler.dir_name()
            &&& is_stored_under(filename@, handler.separator(), path@.names[1])
        },
        appended is Ok <==> written is Ok,
        removed is Ok <==> written is Ok,
        appended matches Ok(path) ==> written is Ok && path@ == written->Ok_0@,
        removed matches Ok(path) ==> written is Ok && path@ == written->Ok_0@,
{
    let name = sanitized(filename@, handler.separator() == '\\');
    if written is Ok {
        assert(is_stored_under(filename@, handler.separator(), name));
    }
}

/// A partial file that is complete gets its place in the directory of the request, under the name
/// that it is stored under, and the partial file is the one that was named; a file that is renamed
/// stays in that directory.
pub proof fn law_files_stay_in_the_directory_of_their_request(
    handler: &FilerequestDriveHandler,
    from: &str,
    to: &str,
    finalized: GetFileResult<Finalization>,
    renamed: GetFileResult<FileRename>,
)
    requires
        call_ensures(FilerequestDriveHandler::finalize_partial_file, (handler, from, to), finalized),
        call_ensures(FilerequestDriveHandler::rename_file, (handler, from, to), renamed),
    ensures
        finalized is Ok <==> renamed is Ok,
        finalized is Ok <==> (exists|name: Seq<char>| #[trigger]
            is_stored_under(from@, handler.separator(), name)) && (exists|name: Seq<char>|
            #[trigger] is_stored_under(to@, handler.separator(), name)),
        finalized matches Ok(plan) ==> {
            &&& is_stored_under(from@, handler.separator(), plan.partial_filename@)
            &&& is_stored_under(to@, handler.separator(), plan.file_name@)
            &&& plan.target@.names == seq![handler.dir_name(), plan.file_name@]
            &&& plan.target@.is_file
        },
        renamed matches Ok(plan) ==> {
            &&& plan.from@.names.len() == 2 && plan.from@.is_file
            &&& plan.from@.names[0] == handler.dir_name()
            &&& is_stored_under(from@, handler.separator(), plan.from@.names[1])
            &&& is_stored_under(to@, handler.separator(), plan.file_name@)
            &&& plan.to@.names == seq![handler.dir_name(), plan.file_name@]
            &&& plan.to@.is_file
        },
{
    let windows = handler.separator() == '\\';
    if finalized is Ok || renamed is Ok {
        assert(is_stored_under(from@, handler.separator(), sanitized(from@, windows)));
        assert(is_stored_under(to@, handler.separator(), sanitized(to@, windows)));
    }
}

/// The directory of a request that gets another title is renamed from where it is to the name that
/// belongs to the same request and the new title; the request keeps its mark.
pub proof fn law_renamed_directories_keep_their_mark(
    handler: &FilerequestDriveHandler,
    title: &String,
    renamed: Result<(FileNamespace, FileNamespace), ()>,
)
    requires
        call_ensures(FilerequestDriveHandler::rename_filerquest, (handler, title), renamed),
    ensures
        renamed is Err <==> sanitized(title@, handler.separator() == '\\').len() == 0,
        renamed matches Ok(names) ==> {
            &&& names.0@.names == seq![handler.dir_name()]
            &&& names.1@.names.len() == 1
            &&& bears_mark(names.1@.names[0], mark_of(handler.id()))
            &&& !names.0@.is_file && !names.1@.is_file
        },
{
    lemma_dir_name_begins_with_mark(handler.id(), title@, handler.separator());
}

/// The handler of a request keeps its files under the mark of that request.
pub proof fn law_handlers_keep_to_their_request(
    filerequest: &Filerequest,
    separator: char,
    handler: FilerequestDriveHandler,
)
    requires
        call_ensures(FilerequestDriveHandler::with_separator, (filerequest, separator), handler),
    ensures
        handler.id() == filerequest.id@,
        handler.separator() == separator,
        bears_mark(handler.dir_name(), mark_of(filerequest.id@)),
{
    lemma_dir_name_begins_with_mark(filerequest.id@, filerequest.title@, separator);
}

} // verus!
