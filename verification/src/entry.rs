//! Filesystem entries as they were observed while a request was served.
//!
//! The browser never touches the disk itself. Whoever drives it looks a
//! location up and reports what was seen as a [`PathProbe`], a list of
//! [`ChildProbe`]s or the bytes of a file; everything decided from those
//! observations is decided here.

use vstd::prelude::*;
use vstd::string::*;
use vstd::utf8::*;

verus! {

/// The location that an empty request path stands for: the working root.
pub const BASE_LOCATION: &'static str = ".";

/// Why a request path did not resolve to an entry.
#[derive(Debug, Clone, Copy, PartialEq, Eq)]
pub enum ResolveError {
    /// The path could not be made absolute.
    InvalidPath,
    /// Nothing exists at the resolved location, or it has no final segment.
    NotFound,
}

/// One filesystem node, as observed at resolution time.
#[derive(Debug, Clone, PartialEq, Eq)]
pub struct FileSystemEntry {
    /// The final path segment, as raw bytes: it need not be valid text.
    pub name: Vec<u8>,
    /// The resolved, absolute location.
    pub path: Vec<u8>,
    /// Whether the node was a directory when it was observed.
    pub is_dir: bool,
}

/// The mathematical value of a [`FileSystemEntry`].
pub struct EntryView {
    pub name: Seq<u8>,
    pub path: Seq<u8>,
    pub is_dir: bool,
}

impl View for FileSystemEntry {
    type V = EntryView;

    open spec fn view(&self) -> EntryView {
        EntryView { name: self.name@, path: self.path@, is_dir: self.is_dir }
    }
}

/// The views of a sequence of entries, in order.
pub open spec fn views(entries: Seq<FileSystemEntry>) -> Seq<EntryView> {
    entries.map_values(|e: FileSystemEntry| e@)
}

/// What was observed at the location that a request path names.
#[derive(Debug, Clone, PartialEq, Eq)]
pub struct PathProbe {
    /// The absolute form of the location; `None` when it could not be formed.
    pub absolute: Option<Vec<u8>>,
    /// Whether a node exists there.
    pub exists: bool,
    /// The final segment of the absolute location, where it has one.
    pub file_name: Option<Vec<u8>>,
    /// Whether the node is a directory.
    pub is_dir: bool,
}

/// What was observed of one child while a directory was enumerated.
#[derive(Debug, Clone, PartialEq, Eq)]
pub struct ChildProbe {
    /// The child's name.
    pub name: Vec<u8>,
    /// The child's location.
    pub path: Vec<u8>,
    /// Whether the child is a directory; `None` when its type could not be read.
    pub is_dir: Option<bool>,
}

/// A request path without its single trailing separator, if it has one.
pub open spec fn without_trailing_separator(path: Seq<char>) -> Seq<char> {
    if path.len() > 0 && path.last() == '/' {
        path.drop_last()
    } else {
        path
    }
}

/// The location to look up for a request path: the path without its trailing
/// separator, and the working root where nothing is left of it.
pub open spec fn target_of(path: Seq<char>) -> Seq<char> {
    let stripped = without_trailing_separator(path);
    if stripped.len() == 0 {
        BASE_LOCATION@
    } else {
        stripped
    }
}

/// Computes the location to look up for a request path.
pub fn request_target(path: &str) -> (target: String)
    ensures
        target@ == target_of(path@),
{
    let len = path.unicode_len();
    if len == 0 {
        BASE_LOCATION.to_owned()
    } else if path.get_char(len - 1) != '/' {
        path.to_owned()
    } else if len == 1 {
        BASE_LOCATION.to_owned()
    } else {
        assert(path@.subrange(0, len - 1) =~= path@.drop_last());
        path.substring_char(0, len - 1).to_owned()
    }
}

/// The entry that an observation amounts to, or the reason why there is none.
pub open spec fn resolved(probe: PathProbe) -> Result<EntryView, ResolveError> {
    match probe.absolute {
        None => Err(ResolveError::InvalidPath),
        Some(path) => match probe.file_name {
            Some(name) if probe.exists => Ok(
                EntryView { name: name@, path: path@, is_dir: probe.is_dir },
            ),
            _ => Err(ResolveError::NotFound),
        },
    }
}

/// The view of a resolution.
pub open spec fn resolution_view(resolution: Result<FileSystemEntry, ResolveError>) -> Result<
    EntryView,
    ResolveError,
> {
    match resolution {
        Ok(entry) => Ok(entry@),
        Err(error) => Err(error),
    }
}

/// What a request path resolves to on a filesystem `fs`, given as the
/// observation made at each location.
pub open spec fn resolve(path: Seq<char>, fs: spec_fn(Seq<char>) -> PathProbe) -> Result<
    EntryView,
    ResolveError,
> {
    resolved(fs(target_of(path)))
}

/// The entry that one child observation amounts to; none where the child or
/// its type could not be read.
pub open spec fn child_entry(child: Option<ChildProbe>) -> Option<EntryView> {
    match child {
        Some(ChildProbe { name, path, is_dir: Some(is_dir) }) => Some(
            EntryView { name: name@, path: path@, is_dir },
        ),
        _ => None,
    }
}

/// The entries of an enumeration: the children that could be read, in the
/// order in which they were enumerated.
pub open spec fn listed(children: Seq<Option<ChildProbe>>) -> Seq<EntryView>
    decreases children.len(),
{
    if children.len() == 0 {
        Seq::empty()
    } else {
        match child_entry(children.last()) {
            Some(entry) => listed(children.drop_last()).push(entry),
            None => listed(children.drop_last()),
        }
    }
}

/// The listing of an entry: none for a file or for a directory that could not
/// be enumerated, else the readable children.
pub open spec fn listing_of(
    entry: EntryView,
    enumeration: Option<Vec<Option<ChildProbe>>>,
) -> Option<Seq<EntryView>> {
    match enumeration {
        Some(children) if entry.is_dir => Some(listed(children@)),
        _ => None,
    }
}

/// The text of a file: none for a directory, for a failed read, or for bytes
/// that are not well-formed UTF-8.
pub open spec fn content_of(entry: EntryView, read: Option<Vec<u8>>) -> Option<Seq<char>> {
    match read {
        Some(bytes) if !entry.is_dir && valid_utf8(bytes@) => Some(decode_utf8(bytes@)),
        _ => None,
    }
}

impl FileSystemEntry {
    /// Resolves an observation to an entry.
    ///
    /// The entry is the observed node under its final path segment. A location
    /// that could not be made absolute is an invalid path; one at which
    /// nothing exists, or which has no final segment, is not found.
    pub fn from_path(probe: &PathProbe) -> (r: Result<FileSystemEntry, ResolveError>)
        ensures
            resolution_view(r) == resolved(*probe),
    {
        let path = match &probe.absolute {
            Some(path) => path,
            None => {
                return Err(ResolveError::InvalidPath);
            },
        };
        if !probe.exists {
            return Err(ResolveError::NotFound);
        }
        let name = match &probe.file_name {
            Some(name) => name,
            None => {
                return Err(ResolveError::NotFound);
            },
        };
        Ok(FileSystemEntry { name: name.clone(), path: path.clone(), is_dir: probe.is_dir })
    }

    /// Lists the immediate children of a directory from its enumeration.
    ///
    /// There is no listing for a file, nor for a directory whose enumeration
    /// failed as a whole. A child that could not be read is left out; the
    /// others keep the order in which they were enumerated.
    pub fn list_files(&self, enumeration: &Option<Vec<Option<ChildProbe>>>) -> (r: Option<
        Vec<FileSystemEntry>,
    >)
        ensures
            match r {
                Some(entries) => listing_of(self@, *enumeration) == Some(views(entries@)),
                None => listing_of(self@, *enumeration) is None,
            },
    {
        if !self.is_dir {
            return None;
        }
        let children = match enumeration {
            Some(children) => children,
            None => {
                return None;
            },
        };
        let mut entries: Vec<FileSystemEntry> = Vec::new();
        let mut i: usize = 0;
        assert(children@.take(0) =~= Seq::empty());
        while i < children.len()
            invariant
                i <= children.len(),
                views(entries@) =~= listed(children@.take(i as int)),
            decreases children.len() - i,
        {
            let ghost before = entries@;
            assert(children@.take(i + 1).drop_last() =~= children@.take(i as int));
            assert(children@.take(i + 1).last() == children@[i as int]);
            match &children[i] {
                Some(ChildProbe { name, path, is_dir: Some(is_dir) }) => {
                    let entry = FileSystemEntry {
                        name: name.clone(),
                        path: path.clone(),
                        is_dir: *is_dir,
                    };
                    entries.push(entry);
                    assert(views(entries@) =~= views(before).push(entry@));
                },
                _ => {},
            }
            i += 1;
        }
        assert(children@.take(i as int) =~= children@);
        Some(entries)
    }

    /// Decodes what was read of a file as text.
    ///
    /// `read` holds the file's bytes, or nothing where reading failed. There is
    /// no content for a directory, for a failed read, or for bytes that are
    /// not well-formed UTF-8; otherwise the content is the decoded text.
    pub fn read_content(&self, read: Option<Vec<u8>>) -> (r: Option<String>)
        ensures
            match r {
                Some(text) => content_of(self@, read) == Some(text@),
                None => content_of(self@, read) is None,
            },
    {
        if self.is_dir {
            return None;
        }
        match read {
            Some(bytes) => match String::from_utf8(bytes) {
                Ok(text) => Some(text),
                Err(_) => None,
            },
            None => None,
        }
    }
}

/// A trailing separator is insignificant: on every filesystem, a request path
/// that does not end in a separator resolves as the same path with one
/// separator appended does.
pub proof fn lemma_trailing_separator_insignificant(
    path: Seq<char>,
    fs: spec_fn(Seq<char>) -> PathProbe,
)
    requires
        path.len() == 0 || path.last() != '/',
    ensures
        target_of(path.push('/')) == target_of(path),
        resolve(path.push('/'), fs) == resolve(path, fs),
{
    assert(path.push('/').drop_last() =~= path);
}

/// A path at whose location nothing exists never resolves: on every
/// filesystem the resolution fails, and it fails as not found wherever the
/// location could be made absolute.
pub proof fn lemma_missing_is_not_found(path: Seq<char>, fs: spec_fn(Seq<char>) -> PathProbe)
    requires
        !fs(target_of(path)).exists,
    ensures
        resolve(path, fs) is Err,
        fs(target_of(path)).absolute is Some ==> resolve(path, fs) == Err::<
            EntryView,
            ResolveError,
        >(ResolveError::NotFound),
{
}

/// Membership in a listing, by induction over the enumeration.
proof fn lemma_listed_exactly(children: Seq<Option<ChildProbe>>, entry: EntryView)
    ensures
        listed(children).contains(entry) <==> exists|i: int|
            0 <= i < children.len() && #[trigger] child_entry(children[i]) == Some(entry),
    decreases children.len(),
{
    if children.len() > 0 {
        let rest = children.drop_last();
        lemma_listed_exactly(rest, entry);
        let last = children.len() - 1;
        if listed(children).contains(entry) {
            let k = choose|k: int| 0 <= k < listed(children).len() && listed(children)[k] == entry;
            if child_entry(children.last()) == Some(entry) {
                assert(child_entry(children[last]) == Some(entry));
            } else {
                assert(listed(rest).contains(entry)) by {
                    if child_entry(children.last()) is Some {
                        assert(listed(rest)[k] == entry);
                    }
                }
                let i = choose|i: int|
                    0 <= i < rest.len() && #[trigger] child_entry(rest[i]) == Some(entry);
                assert(child_entry(children[i]) == Some(entry));
            }
        }
        if exists|i: int|
            0 <= i < children.len() && #[trigger] child_entry(children[i]) == Some(entry) {
            let i = choose|i: int|
                0 <= i < children.len() && #[trigger] child_entry(children[i]) == Some(entry);
            if i == last {
                assert(listed(children) == listed(rest).push(entry));
                assert(listed(children)[listed(rest).len() as int] == entry);
            } else {
                assert(child_entry(rest[i]) == Some(entry));
                let k = choose|k: int| 0 <= k < listed(rest).len() && listed(rest)[k] == entry;
                assert(listed(children)[k] == entry);
            }
        }
    }
}

/// The listing of an enumeration without failures, by induction over it.
proof fn lemma_listed_all(children: Seq<Option<ChildProbe>>)
    requires
        forall|i: int| 0 <= i < children.len() ==> (#[trigger] child_entry(children[i])) is Some,
    ensures
        listed(children).len() == children.len(),
        forall|i: int|
            0 <= i < children.len() ==> child_entry(children[i]) == Some(
                #[trigger] listed(children)[i],
            ),
    decreases children.len(),
{
    if children.len() > 0 {
        let rest = children.drop_last();
        assert forall|i: int| 0 <= i < rest.len() implies (#[trigger] child_entry(
            rest[i],
        )) is Some by {
            assert(rest[i] == children[i]);
        }
        lemma_listed_all(rest);
        assert(child_entry(children[children.len() - 1]) is Some);
        assert forall|i: int| 0 <= i < children.len() implies child_entry(children[i]) == Some(
            #[trigger] listed(children)[i],
        ) by {
            if i < rest.len() {
                assert(rest[i] == children[i]);
                assert(listed(children)[i] == listed(rest)[i]);
            }
        }
    }
}

/// The listing of a directory holds exactly the children that could be read:
/// an entry is listed if and only if it is the entry of one of the enumerated
/// children, with the name, the location and the kind that were observed.
pub proof fn lemma_listing_is_exact(
    directory: EntryView,
    children: Vec<Option<ChildProbe>>,
    entry: EntryView,
)
    requires
        directory.is_dir,
    ensures
        listing_of(directory, Some(children)) matches Some(entries) && (entries.contains(entry)
            <==> exists|i: int|
            0 <= i < children@.len() && #[trigger] child_entry(children@[i]) == Some(entry)),
{
    lemma_listed_exactly(children@, entry);
}

/// Where every child of a directory could be read, its listing has one entry
/// for each child, in enumeration order.
pub proof fn lemma_listing_is_complete(directory: EntryView, children: Vec<Option<ChildProbe>>)
    requires
        directory.is_dir,
        forall|i: int|
            0 <= i < children@.len() ==> (#[trigger] child_entry(children@[i])) is Some,
    ensures
        listing_of(directory, Some(children)) matches Some(entries) && entries.len()
            == children@.len() && forall|i: int|
            0 <= i < children@.len() ==> child_entry(children@[i]) == Some(#[trigger] entries[i]),
{
    lemma_listed_all(children@);
}

} // verus!
