//! An in-memory model of the filesystem state the task runner manipulates.
//!
//! The model is a finite map from path strings to entries; an entry is a file
//! with its content or a directory, together with its permission bits and its
//! owning user and group. Each path is tracked as an entry of its own: parent
//! directories are not derived from a child's path. The per-action semantics
//! in [`crate::actions`] is stated and proved over this model.

use vstd::prelude::*;
use vstd::hash_map::StringHashMap;
use vstd::slice::slice_to_vec;

verus! {

/// Permission bits a directory receives when the model creates it fresh.
pub const DEFAULT_DIR_MODE: u32 = 0o755;

/// Permission bits a file receives when the model creates it fresh.
pub const DEFAULT_FILE_MODE: u32 = 0o644;

/// Owner and group a fresh entry receives.
pub const DEFAULT_ID: u32 = 0;

/// What stands at a path: a file with its bytes, or a directory.
pub enum EntryData {
    File { content: Vec<u8> },
    Dir,
}

/// The mathematical value of [`EntryData`].
pub enum EntryDataV {
    File { content: Seq<u8> },
    Dir,
}

impl View for EntryData {
    type V = EntryDataV;

    open spec fn view(&self) -> EntryDataV {
        match self {
            EntryData::File { content } => EntryDataV::File { content: content@ },
            EntryData::Dir => EntryDataV::Dir,
        }
    }
}

/// One filesystem entry: its data, permission bits, owner and group.
pub struct Entry {
    pub data: EntryData,
    pub mode: u32,
    pub uid: u32,
    pub gid: u32,
}

/// The mathematical value of an [`Entry`].
pub struct EntryV {
    pub data: EntryDataV,
    pub mode: u32,
    pub uid: u32,
    pub gid: u32,
}

impl View for Entry {
    type V = EntryV;

    open spec fn view(&self) -> EntryV {
        EntryV { data: self.data@, mode: self.mode, uid: self.uid, gid: self.gid }
    }
}

impl Entry {
    /// An owned copy of the entry, equal to it in the model.
    pub fn duplicate(&self) -> (r: Entry)
        ensures
            r@ == self@,
    {
        let data = match &self.data {
            EntryData::File { content } => EntryData::File {
                content: slice_to_vec(content.as_slice()),
            },
            EntryData::Dir => EntryData::Dir,
        };
        Entry { data, mode: self.mode, uid: self.uid, gid: self.gid }
    }
}

/// The modeled filesystem: a map from path strings to entries.
pub struct FsModel {
    entries: StringHashMap<Entry>,
}

impl View for FsModel {
    type V = Map<Seq<char>, EntryV>;

    closed spec fn view(&self) -> Map<Seq<char>, EntryV> {
        self.entries@.map_values(|e: Entry| e@)
    }
}

impl FsModel {
    /// An empty filesystem.
    pub fn new() -> (r: Self)
        ensures
            r@ == Map::<Seq<char>, EntryV>::empty(),
    {
        let r = FsModel { entries: StringHashMap::new() };
        proof {
            assert(r@ =~= Map::<Seq<char>, EntryV>::empty());
        }
        r
    }

    /// Whether any entry stands at `path`.
    pub fn contains(&self, path: &str) -> (r: bool)
        ensures
            r == self@.contains_key(path@),
    {
        let r = self.entries.contains_key(path);
        proof {
            assert(self@.contains_key(path@) == self.entries@.contains_key(path@));
        }
        r
    }

    /// The entry at `path`, if any.
    pub fn get_entry(&self, path: &str) -> (r: Option<&Entry>)
        ensures
            match r {
                Some(e) => self@.contains_key(path@) && e@ == self@[path@],
                None => !self@.contains_key(path@),
            },
    {
        let r = self.entries.get(path);
        proof {
            assert(self@.contains_key(path@) == self.entries@.contains_key(path@));
        }
        r
    }

    /// An owned copy of the entry at `path`, if any.
    pub fn entry_copy(&self, path: &str) -> (r: Option<Entry>)
        ensures
            match r {
                Some(e) => self@.contains_key(path@) && e@ == self@[path@],
                None => !self@.contains_key(path@),
            },
    {
        match self.get_entry(path) {
            Some(e) => Some(e.duplicate()),
            None => None,
        }
    }

    /// Places `e` at `path`, replacing whatever stood there.
    pub fn put(&mut self, path: String, e: Entry)
        ensures
            final(self)@ == old(self)@.insert(path@, e@),
    {
        self.entries.insert(path, e);
        proof {
            assert(self@ =~= old(self)@.insert(path@, e@));
        }
    }

    /// Removes the entry at `path`; without one, the filesystem is unchanged.
    pub fn del(&mut self, path: &str)
        ensures
            final(self)@ == old(self)@.remove(path@),
    {
        self.entries.remove(path);
        proof {
            assert(self@ =~= old(self)@.remove(path@));
        }
    }
}

} // verus!
