//! What a walk over a directory found, and where under the filesystem root
//! the pot system keeps its files.
use vstd::prelude::*;

verus! {

/// What kind of thing a directory entry is. A symbolic link is `Other`,
/// whatever it points to.
#[derive(Clone, Copy, Debug, PartialEq, Eq, Structural)]
pub enum EntryKind {
    File,
    Dir,
    Other,
}

/// One entry that a walk over a directory found.
#[derive(Debug)]
pub struct DirEntry {
    /// The path of the entry, the walked directory's path included.
    pub path: String,
    /// The last component of the path, where it is valid Unicode.
    pub file_name: Option<String>,
    /// How many levels below the walked directory the entry lies: 0 for the
    /// directory itself, 1 for what stands directly in it.
    pub depth: usize,
    pub kind: EntryKind,
}

/// The mathematical model of a `DirEntry`.
pub struct DirEntryView {
    pub path: Seq<char>,
    pub file_name: Option<Seq<char>>,
    pub depth: usize,
    pub kind: EntryKind,
}

impl View for DirEntry {
    type V = DirEntryView;

    open spec fn view(&self) -> DirEntryView {
        DirEntryView {
            path: self.path@,
            file_name: self.file_name.deep_view(),
            depth: self.depth,
            kind: self.kind,
        }
    }
}

impl DeepView for DirEntry {
    type V = DirEntryView;

    open spec fn deep_view(&self) -> DirEntryView {
        self@
    }
}

impl DirEntryView {
    /// The entry stands directly in the walked directory and is of `kind`.
    pub open spec fn is_child_of_kind(self, kind: EntryKind) -> bool {
        self.depth == 1 && self.kind == kind
    }
}

/// The paths of the entries that stand directly in the walked directory and
/// are of `kind`, in the order of the entries.
pub open spec fn child_paths(entries: Seq<DirEntryView>, kind: EntryKind) -> Seq<Seq<char>>
    decreases entries.len(),
{
    if entries.len() == 0 {
        Seq::empty()
    } else if entries.last().is_child_of_kind(kind) {
        child_paths(entries.drop_last(), kind).push(entries.last().path)
    } else {
        child_paths(entries.drop_last(), kind)
    }
}

/// The names of the directories that stand directly in the walked directory
/// and have a name in valid Unicode, in the order of the entries.
pub open spec fn child_dir_names(entries: Seq<DirEntryView>) -> Seq<Seq<char>>
    decreases entries.len(),
{
    if entries.len() == 0 {
        Seq::empty()
    } else if entries.last().is_child_of_kind(EntryKind::Dir) && entries.last().file_name is Some {
        child_dir_names(entries.drop_last()).push(entries.last().file_name->0)
    } else {
        child_dir_names(entries.drop_last())
    }
}

/// Collects the paths of the entries that `child_paths` keeps.
pub fn collect_child_paths(entries: &Vec<DirEntry>, kind: EntryKind) -> (r: Vec<String>)
    ensures
        r.deep_view() == child_paths(entries.deep_view(), kind),
{
    let mut r: Vec<String> = Vec::new();
    let n = entries.len();
    for i in 0..n
        invariant
            n == entries.len(),
            r.deep_view() == child_paths(entries.deep_view().take(i as int), kind),
    {
        let e = &entries[i];
        assert(entries.deep_view().take(i + 1).drop_last() == entries.deep_view().take(i as int));
        if e.depth == 1 && e.kind == kind {
            r.push(e.path.clone());
        }
    }
    assert(entries.deep_view().take(n as int) == entries.deep_view());
    r
}

/// The directory that holds the bridge definitions.
pub fn bridges_dir(fs_root: &str) -> (r: String)
    ensures
        r@ == fs_root@ + "/bridges"@,
{
    fs_root.to_owned().concat("/bridges")
}

/// The directory that holds one directory for each pot.
pub fn jails_dir(fs_root: &str) -> (r: String)
    ensures
        r@ == fs_root@ + "/jails"@,
{
    fs_root.to_owned().concat("/jails")
}

/// The file that holds the configuration of the pot `pot_name`.
pub fn pot_conf_path(fs_root: &str, pot_name: &str) -> (r: String)
    ensures
        r@ == fs_root@ + "/jails/"@ + pot_name@ + "/conf/pot.conf"@,
{
    fs_root.to_owned().concat("/jails/").concat(pot_name).concat("/conf/pot.conf")
}

} // verus!
