//! How places in the host's storage are named.
use vstd::prelude::*;

verus! {

/// Where a file is found, in the terms of the host.
#[derive(Debug)]
pub struct Uri(pub String);

impl Clone for Uri {
    fn clone(&self) -> (r: Self)
        ensures
            r == *self,
    {
        Uri(self.0.clone())
    }
}

impl View for Uri {
    type V = Seq<char>;

    open spec fn view(&self) -> Seq<char> {
        self.0@
    }
}

impl From<String> for Uri {
    fn from(uri: String) -> (r: Self) {
        Uri(uri)
    }
}

impl vstd::std_specs::convert::FromSpecImpl<String> for Uri {
    open spec fn obeys_from_spec() -> bool {
        true
    }

    open spec fn from_spec(uri: String) -> Self {
        Uri(uri)
    }
}

/// A path below the place where files are dropped: directories, and at most one file at the end.
#[derive(Debug)]
pub enum FileNamespace {
    Namespace { namespace: String, child: Option<Box<FileNamespace>> },
    Filename(String),
}

/// The names on a path from the outside in, and whether the last one is a file's.
pub ghost struct NamespaceView {
    pub names: Seq<Seq<char>>,
    pub is_file: bool,
}

impl FileNamespace {
    pub open spec fn names(self) -> Seq<Seq<char>>
        decreases self,
    {
        match self {
            FileNamespace::Namespace { namespace, child } => match child {
                Some(child) => seq![namespace@] + child.names(),
                None => seq![namespace@],
            },
            FileNamespace::Filename(name) => seq![name@],
        }
    }

    pub open spec fn is_file(self) -> bool
        decreases self,
    {
        match self {
            FileNamespace::Namespace { namespace: _, child } => match child {
                Some(child) => child.is_file(),
                None => false,
            },
            FileNamespace::Filename(_) => true,
        }
    }

    /// The directory of the given name.
    pub fn directory(name: String) -> (r: Self)
        ensures
            r@ == (NamespaceView { names: seq![name@], is_file: false }),
    {
        FileNamespace::Namespace { namespace: name, child: None }
    }

    /// The file of the given name in the directory of the given name.
    pub fn file_in(directory: String, name: String) -> (r: Self)
        ensures
            r@ == (NamespaceView { names: seq![directory@, name@], is_file: true }),
    {
        proof {
            reveal_with_fuel(FileNamespace::names, 2);
            reveal_with_fuel(FileNamespace::is_file, 2);
            assert(seq![directory@] + seq![name@] =~= seq![directory@, name@]);
        }
        let file = FileNamespace::Filename(name);
        FileNamespace::Namespace { namespace: directory, child: Some(Box::new(file)) }
    }
}

impl View for FileNamespace {
    type V = NamespaceView;

    open spec fn view(&self) -> NamespaceView {
        NamespaceView { names: self.names(), is_file: self.is_file() }
    }
}

/// A file that is kept for sending only, and when it was last changed.
#[derive(Debug)]
pub struct OutgoingFileInfo {
    pub path: String,
    pub modified_ms: i64,
}

} // verus!
