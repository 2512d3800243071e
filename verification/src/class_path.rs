//! The classpath: where the bytes of a named resource come from. A classpath
//! is a directory, an archive, or a sequence of classpaths that are asked in
//! turn.
//!
//! Nothing here opens a file. What is known of the files in directories is
//! kept in a [`Files`] value, which the caller fills: a lookup that needs a
//! file of which nothing is known yet says which one.

use crate::jimage::Archive;
use crate::text::same_text;
use crate::views::views;
use vstd::prelude::*;
use vstd::string::StringExecFns;

verus! {

/// What was found out about one file: its content, or that it is not there.
#[derive(Debug)]
pub struct FileRecord {
    pub directory: String,
    pub name: String,
    pub content: Option<Vec<u8>>,
}

/// A [`FileRecord`] as plain values.
pub struct FileRecordView {
    pub directory: Seq<char>,
    pub name: Seq<char>,
    pub content: Option<Seq<u8>>,
}

impl View for FileRecord {
    type V = FileRecordView;

    open spec fn view(&self) -> FileRecordView {
        FileRecordView {
            directory: self.directory@,
            name: self.name@,
            content: match self.content {
                Some(bytes) => Some(bytes@),
                None => None,
            },
        }
    }
}

/// What the records from `from` on say of the file `name` in `directory`:
/// nothing, or what the first record of that file says.
pub open spec fn recorded(
    records: Seq<FileRecordView>,
    directory: Seq<char>,
    name: Seq<char>,
    from: int,
) -> Option<Option<Seq<u8>>>
    decreases records.len() - from,
{
    if from < 0 || from >= records.len() {
        None
    } else if records[from].directory == directory && records[from].name == name {
        Some(records[from].content)
    } else {
        recorded(records, directory, name, from + 1)
    }
}

/// What is known of the files in directories.
#[derive(Debug)]
pub struct Files {
    records: Vec<FileRecord>,
}

impl View for Files {
    type V = Seq<FileRecordView>;

    closed spec fn view(&self) -> Seq<FileRecordView> {
        views(self.records@)
    }
}

impl Files {
    /// Nothing is known yet.
    pub fn new() -> (files: Files)
        ensures
            files@ == Seq::<FileRecordView>::empty(),
    {
        let files = Files { records: Vec::new() };
        assert(files@ =~= Seq::<FileRecordView>::empty());
        files
    }

    /// Notes what was found out about the file `name` in `directory`. What
    /// was noted of the same file before stays in force.
    pub fn record(&mut self, directory: String, name: String, content: Option<Vec<u8>>)
        ensures
            final(self)@ == old(self)@.push(
                (FileRecord { directory, name, content })@,
            ),
    {
        let record = FileRecord { directory, name, content };
        proof {
            crate::views::lemma_views_push(self.records@, record);
        }
        self.records.push(record);
    }

    /// What is known of the file `name` in `directory`.
    pub fn get(&self, directory: &str, name: &str) -> (known: Option<Option<&[u8]>>)
        ensures
            match known {
                None => recorded(self@, directory@, name@, 0) is None,
                Some(None) => recorded(self@, directory@, name@, 0) == Some(None::<Seq<u8>>),
                Some(Some(bytes)) => recorded(self@, directory@, name@, 0) == Some(
                    Some(bytes@),
                ),
            },
    {
        let mut i: usize = 0;
        while i < self.records.len()
            invariant
                i <= self.records@.len(),
                recorded(self@, directory@, name@, 0) == recorded(
                    self@,
                    directory@,
                    name@,
                    i as int,
                ),
            decreases self.records@.len() - i,
        {
            let record = &self.records[i];
            assert(self@[i as int] == record@);
            if same_text(record.directory.as_str(), directory) && same_text(
                record.name.as_str(),
                name,
            ) {
                return match &record.content {
                    Some(bytes) => Some(Some(bytes.as_slice())),
                    None => Some(None),
                };
            }
            i += 1;
        }
        None
    }
}

/// The outcome of a lookup.
#[derive(Debug)]
pub enum Lookup<'a> {
    /// The bytes of the resource.
    Found(&'a [u8]),
    /// No part of the classpath has the resource.
    Missing,
    /// Whether the resource is there depends on a file of which nothing is
    /// known yet: the file `name` in `directory`.
    Unread { directory: String, name: String },
}

/// A [`Lookup`] as plain values.
pub enum LookupView {
    Found(Seq<u8>),
    Missing,
    Unread { directory: Seq<char>, name: Seq<char> },
}

impl<'a> View for Lookup<'a> {
    type V = LookupView;

    open spec fn view(&self) -> LookupView {
        match *self {
            Lookup::Found(bytes) => LookupView::Found(bytes@),
            Lookup::Missing => LookupView::Missing,
            Lookup::Unread { directory, name } => LookupView::Unread {
                directory: directory@,
                name: name@,
            },
        }
    }
}

/// The module whose resources an archive on the classpath serves.
pub open spec fn archive_path(name: Seq<char>) -> Seq<char> {
    "/java.base/"@ + name
}

/// Where resources come from.
pub enum ClassPath<'a> {
    /// The files below a directory.
    Directory(String),
    /// The resources of the base module of an archive.
    JImage(Archive<'a>),
    /// Several classpaths, asked in order.
    Composite(Vec<ClassPath<'a>>),
}

impl<'a> ClassPath<'a> {
    /// What a lookup of `name` gives. A directory gives what is known of its
    /// file of that name. An archive gives the content of the resource of
    /// that name in its base module. A sequence gives the outcome of the
    /// first of its parts that does not miss the resource.
    pub open spec fn find(self, name: Seq<char>, files: Seq<FileRecordView>) -> LookupView
        decreases self, 0nat,
    {
        match self {
            ClassPath::Directory(path) => match recorded(files, path@, name, 0) {
                None => LookupView::Unread { directory: path@, name },
                Some(None) => LookupView::Missing,
                Some(Some(bytes)) => LookupView::Found(bytes),
            },
            ClassPath::JImage(archive) => match archive@.content_by_name(
                vstd::utf8::encode_utf8(archive_path(name)),
            ) {
                None => LookupView::Missing,
                Some(bytes) => LookupView::Found(bytes),
            },
            ClassPath::Composite(parts) => find_first(parts@, name, files, 0),
        }
    }

    /// Looks `name` up.
    pub fn find_resource<'b>(&'b self, name: &str, files: &'b Files) -> (found: Lookup<'b>)
        ensures
            found@ == self.find(name@, files@),
        decreases self,
    {
        match self {
            ClassPath::Directory(path) => match files.get(path.as_str(), name) {
                None => Lookup::Unread {
                    directory: path.clone(),
                    name: String::from_str(name),
                },
                Some(None) => Lookup::Missing,
                Some(Some(bytes)) => Lookup::Found(bytes),
            },
            ClassPath::JImage(archive) => {
                let mut path = String::from_str("/java.base/");
                path.append(name);
                match archive.by_name(path.as_str()) {
                    None => Lookup::Missing,
                    Some(resource) => match resource.bytes() {
                        None => Lookup::Missing,
                        Some(bytes) => Lookup::Found(bytes),
                    },
                }
            },
            ClassPath::Composite(parts) => {
                let mut i: usize = 0;
                while i < parts.len()
                    invariant
                        i <= parts@.len(),
                        self == ClassPath::Composite(*parts),
                        self.find(name@, files@) == find_first(parts@, name@, files@, i as int),
                    decreases parts@.len() - i,
                {
                    match parts[i].find_resource(name, files) {
                        Lookup::Missing => {},
                        found => {
                            return found;
                        },
                    }
                    i += 1;
                }
                Lookup::Missing
            },
        }
    }
}

/// The outcome of the first of `parts`, from `from` on, that does not miss
/// the resource.
pub open spec fn find_first<'a>(
    parts: Seq<ClassPath<'a>>,
    name: Seq<char>,
    files: Seq<FileRecordView>,
    from: int,
) -> LookupView
    decreases parts, parts.len() - from,
{
    if from < 0 || from >= parts.len() {
        LookupView::Missing
    } else {
        match parts[from].find(name, files) {
            LookupView::Missing => find_first(parts, name, files, from + 1),
            found => found,
        }
    }
}

/// A sequence of two classpaths gives what its first part gives wherever
/// that part has the resource, whatever the second part holds.
pub proof fn lemma_first_match<'a>(
    both: ClassPath<'a>,
    first: ClassPath<'a>,
    second: ClassPath<'a>,
    name: Seq<char>,
    files: Seq<FileRecordView>,
)
    requires
        both matches ClassPath::Composite(parts) && parts@ == seq![first, second],
        first.find(name, files) is Found,
    ensures
        both.find(name, files) == first.find(name, files),
{
}

/// A sequence of two classpaths gives what its second part gives where the
/// first part misses the resource.
pub proof fn lemma_fall_through<'a>(
    both: ClassPath<'a>,
    first: ClassPath<'a>,
    second: ClassPath<'a>,
    name: Seq<char>,
    files: Seq<FileRecordView>,
)
    requires
        both matches ClassPath::Composite(parts) && parts@ == seq![first, second],
        first.find(name, files) is Missing,
    ensures
        both.find(name, files) == second.find(name, files),
{
    let parts = seq![first, second];
    assert(find_first(parts, name, files, 2) == LookupView::Missing);
    assert(find_first(parts, name, files, 1) == second.find(name, files));
    assert(find_first(parts, name, files, 0) == find_first(parts, name, files, 1));
}

} // verus!
