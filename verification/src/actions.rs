//! The per-action execution semantics, stated over the filesystem model.
//!
//! Each action has a specification function that says what it does to a
//! modeled filesystem, and an executable applier proved against it. Glob
//! expansion happens outside the library: the matches a pattern produced are
//! handed in as a list of concrete paths. A run processes tasks strictly in
//! order, stops at the first filesystem error, and skips — without stopping —
//! every task whose action was not recognized.

use vstd::prelude::*;
use crate::resolver::{pre_glob, dest_of, get_pre_glob_path, copy_destination};
use crate::config::{Task, TaskKind, FieldValue, FieldV};
use crate::config::should_cleanup;
use crate::fsmodel::{
    FsModel, Entry, EntryData, EntryV, EntryDataV, DEFAULT_DIR_MODE, DEFAULT_FILE_MODE, DEFAULT_ID,
};

verus! {

/// A fatal filesystem error: the run stops, nothing is rolled back.
#[derive(Clone, Copy, Debug, PartialEq, Eq, Structural)]
pub enum FsError {
    /// A matched source path or a move source with no entry behind it.
    MissingSource,
    /// A chmod or chown target with no entry behind it.
    MissingTarget,
    /// A copy destination occupied by an entry of the other kind.
    DestinationConflict,
    /// A directory is to be created where a non-directory stands.
    NotADirectory,
    /// Cleanup did not find a file it must delete.
    MissingCleanupTarget,
}

/// A directory entry as the model creates it fresh.
pub open spec fn fresh_dir(mode: u32) -> EntryV {
    EntryV { data: EntryDataV::Dir, mode, uid: DEFAULT_ID, gid: DEFAULT_ID }
}

/// What `mkdir` does: nothing when the directory is already there, an error
/// when a non-directory occupies the path, a fresh directory otherwise.
pub open spec fn mkdir_effect(m: Map<Seq<char>, EntryV>, target: Seq<char>) -> Result<
    Map<Seq<char>, EntryV>,
    FsError,
> {
    if m.contains_key(target) {
        if m[target].data is Dir {
            Ok(m)
        } else {
            Err(FsError::NotADirectory)
        }
    } else {
        Ok(m.insert(target, fresh_dir(DEFAULT_DIR_MODE)))
    }
}

/// What `mkfile` does: nothing when any entry is already there, a fresh empty
/// file otherwise. It never fails.
pub open spec fn mkfile_effect(m: Map<Seq<char>, EntryV>, target: Seq<char>) -> Map<
    Seq<char>,
    EntryV,
> {
    if m.contains_key(target) {
        m
    } else {
        m.insert(
            target,
            EntryV {
                data: EntryDataV::File { content: Seq::empty() },
                mode: DEFAULT_FILE_MODE,
                uid: DEFAULT_ID,
                gid: DEFAULT_ID,
            },
        )
    }
}

/// What one matched path does under `copy` (`overwrite` true) or
/// `copy-if-absent` (`overwrite` false). The destination is the match
/// relocated under `to` after the pattern's literal prefix is stripped. A
/// matched directory is created at the destination with the source's
/// permission bits; a matched file is copied — content and permission bits —
/// unless overwriting is off and something already stands there. Ownership is
/// never propagated; an existing destination keeps its owner and group.
pub open spec fn copy_match_effect(
    m: Map<Seq<char>, EntryV>,
    overwrite: bool,
    prefix: Seq<char>,
    path: Seq<char>,
    to: Seq<char>,
) -> Result<Map<Seq<char>, EntryV>, FsError> {
    let dest = dest_of(prefix, path, to);
    if !m.contains_key(path) {
        Err(FsError::MissingSource)
    } else {
        match m[path].data {
            EntryDataV::Dir => {
                if m.contains_key(dest) && !(m[dest].data is Dir) {
                    Err(FsError::DestinationConflict)
                } else if m.contains_key(dest) {
                    Ok(
                        m.insert(
                            dest,
                            EntryV {
                                data: EntryDataV::Dir,
                                mode: m[path].mode,
                                uid: m[dest].uid,
                                gid: m[dest].gid,
                            },
                        ),
                    )
                } else {
                    Ok(m.insert(dest, fresh_dir(m[path].mode)))
                }
            },
            EntryDataV::File { content } => {
                if !overwrite && m.contains_key(dest) {
                    Ok(m)
                } else if m.contains_key(dest) && m[dest].data is Dir {
                    Err(FsError::DestinationConflict)
                } else if m.contains_key(dest) {
                    Ok(
                        m.insert(
                            dest,
                            EntryV {
                                data: EntryDataV::File { content },
                                mode: m[path].mode,
                                uid: m[dest].uid,
                                gid: m[dest].gid,
                            },
                        ),
                    )
                } else {
                    Ok(
                        m.insert(
                            dest,
                            EntryV {
                                data: EntryDataV::File { content },
                                mode: m[path].mode,
                                uid: DEFAULT_ID,
                                gid: DEFAULT_ID,
                            },
                        ),
                    )
                }
            },
        }
    }
}

/// A copy action over a whole match list, in order, stopping at the first
/// error; the map of the pair is the state reached when it stopped.
pub open spec fn copy_list_effect(
    m: Map<Seq<char>, EntryV>,
    overwrite: bool,
    prefix: Seq<char>,
    matches: Seq<Seq<char>>,
    to: Seq<char>,
) -> (Map<Seq<char>, EntryV>, Option<FsError>)
    decreases matches.len(),
{
    if matches.len() == 0 {
        (m, None)
    } else {
        match copy_match_effect(m, overwrite, prefix, matches[0], to) {
            Ok(m1) => copy_list_effect(m1, overwrite, prefix, matches.drop_first(), to),
            Err(e) => (m, Some(e)),
        }
    }
}

/// What `move` does: an atomic rename of one literal path.
pub open spec fn move_effect(m: Map<Seq<char>, EntryV>, from: Seq<char>, to: Seq<char>) -> Result<
    Map<Seq<char>, EntryV>,
    FsError,
> {
    if !m.contains_key(from) {
        Err(FsError::MissingSource)
    } else {
        Ok(m.remove(from).insert(to, m[from]))
    }
}

/// What `chmod` does to one path: the permission bits are replaced, the data
/// and the ownership stay.
pub open spec fn chmod_one_effect(m: Map<Seq<char>, EntryV>, path: Seq<char>, mode: u32) -> Result<
    Map<Seq<char>, EntryV>,
    FsError,
> {
    if m.contains_key(path) {
        Ok(m.insert(path, EntryV { data: m[path].data, mode, uid: m[path].uid, gid: m[path].gid }))
    } else {
        Err(FsError::MissingTarget)
    }
}

/// `chmod` over a list of paths, in order, stopping at the first error.
pub open spec fn chmod_list_effect(
    m: Map<Seq<char>, EntryV>,
    paths: Seq<Seq<char>>,
    mode: u32,
) -> (Map<Seq<char>, EntryV>, Option<FsError>)
    decreases paths.len(),
{
    if paths.len() == 0 {
        (m, None)
    } else {
        match chmod_one_effect(m, paths[0], mode) {
            Ok(m1) => chmod_list_effect(m1, paths.drop_first(), mode),
            Err(e) => (m, Some(e)),
        }
    }
}

/// What `chown` does to one path: a present id replaces that identity
/// component, an absent one leaves it unchanged; data and bits stay.
pub open spec fn chown_one_effect(
    m: Map<Seq<char>, EntryV>,
    path: Seq<char>,
    uid: Option<u32>,
    gid: Option<u32>,
) -> Result<Map<Seq<char>, EntryV>, FsError> {
    if m.contains_key(path) {
        Ok(
            m.insert(
                path,
                EntryV {
                    data: m[path].data,
                    mode: m[path].mode,
                    uid: match uid {
                        Some(u) => u,
                        None => m[path].uid,
                    },
                    gid: match gid {
                        Some(g) => g,
                        None => m[path].gid,
                    },
                },
            ),
        )
    } else {
        Err(FsError::MissingTarget)
    }
}

/// `chown` over a list of paths, in order, stopping at the first error.
pub open spec fn chown_list_effect(
    m: Map<Seq<char>, EntryV>,
    paths: Seq<Seq<char>>,
    uid: Option<u32>,
    gid: Option<u32>,
) -> (Map<Seq<char>, EntryV>, Option<FsError>)
    decreases paths.len(),
{
    if paths.len() == 0 {
        (m, None)
    } else {
        match chown_one_effect(m, paths[0], uid, gid) {
            Ok(m1) => chown_list_effect(m1, paths.drop_first(), uid, gid),
            Err(e) => (m, Some(e)),
        }
    }
}

/// What one task does, given the paths its pattern matched. The glob actions
/// `chmod` and `chown` touch the pattern's literal root first, then every
/// match; an unrecognized action does nothing and raises no error.
pub open spec fn task_effect(m: Map<Seq<char>, EntryV>, t: Task, matches: Seq<Seq<char>>) -> (
    Map<Seq<char>, EntryV>,
    Option<FsError>,
) {
    match t.kind {
        TaskKind::Copy { from, to } => copy_list_effect(m, true, pre_glob(from@), matches, to@),
        TaskKind::CopyIfAbsent { from, to } => copy_list_effect(
            m,
            false,
            pre_glob(from@),
            matches,
            to@,
        ),
        TaskKind::Move { from, to } => match move_effect(m, from@, to@) {
            Ok(m1) => (m1, None),
            Err(e) => (m, Some(e)),
        },
        TaskKind::Chown { target, uid, gid } => chown_list_effect(
            m,
            seq![pre_glob(target@)] + matches,
            uid,
            gid,
        ),
        TaskKind::Chmod { target, mode } => chmod_list_effect(
            m,
            seq![pre_glob(target@)] + matches,
            mode,
        ),
        TaskKind::Mkfile { target } => (mkfile_effect(m, target@), None),
        TaskKind::Mkdir { target } => match mkdir_effect(m, target@) {
            Ok(m1) => (m1, None),
            Err(e) => (m, Some(e)),
        },
        TaskKind::Unknown => (m, None),
    }
}

/// One task of a run: the task and the concrete paths its pattern matched at
/// the moment it executed.
pub struct ResolvedTask {
    pub task: Task,
    pub matches: Vec<String>,
}

/// A whole run: tasks in document order, stopping at the first error.
pub open spec fn run_effect(m: Map<Seq<char>, EntryV>, ts: Seq<ResolvedTask>) -> (
    Map<Seq<char>, EntryV>,
    Option<FsError>,
)
    decreases ts.len(),
{
    if ts.len() == 0 {
        (m, None)
    } else {
        let step = task_effect(m, ts[0].task, ts[0].matches.deep_view());
        if step.1 is Some {
            step
        } else {
            run_effect(step.0, ts.drop_first())
        }
    }
}

/// The error of an applier's result, for stating contracts.
pub open spec fn err_of(r: Result<(), FsError>) -> Option<FsError> {
    match r {
        Ok(_) => None,
        Err(e) => Some(e),
    }
}

/// Creates the directory `target`: a no-op when it already is one, an error
/// when something else stands there.
pub fn apply_mkdir(fs: &mut FsModel, target: &str) -> (r: Result<(), FsError>)
    ensures
        mkdir_effect(old(fs)@, target@) matches Ok(m) ==> r is Ok && final(fs)@ == m,
        mkdir_effect(old(fs)@, target@) matches Err(e) ==> r == Err::<(), FsError>(e) && final(fs)@
            == old(fs)@,
{
    let meta: Option<bool> = match fs.get_entry(target) {
        Some(e) => match &e.data {
            EntryData::Dir => Some(true),
            EntryData::File { .. } => Some(false),
        },
        None => None,
    };
    match meta {
        Some(true) => Ok(()),
        Some(false) => Err(FsError::NotADirectory),
        None => {
            fs.put(
                target.to_owned(),
                Entry { data: EntryData::Dir, mode: DEFAULT_DIR_MODE, uid: DEFAULT_ID, gid: DEFAULT_ID },
            );
            Ok(())
        },
    }
}

/// Creates an empty file at `target` when nothing stands there; idempotent.
pub fn apply_mkfile(fs: &mut FsModel, target: &str)
    ensures
        final(fs)@ == mkfile_effect(old(fs)@, target@),
{
    if !fs.contains(target) {
        let content: Vec<u8> = Vec::new();
        proof {
            assert(content@ =~= Seq::<u8>::empty());
        }
        fs.put(
            target.to_owned(),
            Entry {
                data: EntryData::File { content },
                mode: DEFAULT_FILE_MODE,
                uid: DEFAULT_ID,
                gid: DEFAULT_ID,
            },
        );
    }
}

/// Renames the literal path `from` to the literal path `to`.
pub fn apply_move(fs: &mut FsModel, from: &str, to: &str) -> (r: Result<(), FsError>)
    ensures
        move_effect(old(fs)@, from@, to@) matches Ok(m) ==> r is Ok && final(fs)@ == m,
        move_effect(old(fs)@, from@, to@) matches Err(e) ==> r == Err::<(), FsError>(e)
            && final(fs)@ == old(fs)@,
{
    match fs.entry_copy(from) {
        None => Err(FsError::MissingSource),
        Some(e) => {
            fs.del(from);
            fs.put(to.to_owned(), e);
            Ok(())
        },
    }
}

/// Copies one matched path toward `to`, as the copy actions do per match.
pub fn apply_copy_match(
    fs: &mut FsModel,
    overwrite: bool,
    prefix: &str,
    path: &str,
    to: &str,
) -> (r: Result<(), FsError>)
    ensures
        copy_match_effect(old(fs)@, overwrite, prefix@, path@, to@) matches Ok(m) ==> r is Ok
            && final(fs)@ == m,
        copy_match_effect(old(fs)@, overwrite, prefix@, path@, to@) matches Err(e) ==> r == Err::<
            (),
            FsError,
        >(e) && final(fs)@ == old(fs)@,
{
    let dest = copy_destination(prefix, path, to);
    let src = match fs.entry_copy(path) {
        None => {
            return Err(FsError::MissingSource);
        },
        Some(e) => e,
    };
    let dest_meta: Option<(bool, u32, u32)> = match fs.get_entry(dest.as_str()) {
        Some(e) => match &e.data {
            EntryData::Dir => Some((true, e.uid, e.gid)),
            EntryData::File { .. } => Some((false, e.uid, e.gid)),
        },
        None => None,
    };
    match src.data {
        EntryData::Dir => match dest_meta {
            Some((true, u, g)) => {
                fs.put(dest, Entry { data: EntryData::Dir, mode: src.mode, uid: u, gid: g });
                Ok(())
            },
            Some((false, _, _)) => Err(FsError::DestinationConflict),
            None => {
                fs.put(
                    dest,
                    Entry { data: EntryData::Dir, mode: src.mode, uid: DEFAULT_ID, gid: DEFAULT_ID },
                );
                Ok(())
            },
        },
        EntryData::File { content } => {
            if !overwrite && dest_meta.is_some() {
                return Ok(());
            }
            match dest_meta {
                Some((true, _, _)) => Err(FsError::DestinationConflict),
                Some((false, u, g)) => {
                    fs.put(
                        dest,
                        Entry { data: EntryData::File { content }, mode: src.mode, uid: u, gid: g },
                    );
                    Ok(())
                },
                None => {
                    fs.put(
                        dest,
                        Entry {
                            data: EntryData::File { content },
                            mode: src.mode,
                            uid: DEFAULT_ID,
                            gid: DEFAULT_ID,
                        },
                    );
                    Ok(())
                },
            }
        },
    }
}

/// Copies every matched path in order, stopping at the first error.
pub fn apply_copy_list(
    fs: &mut FsModel,
    overwrite: bool,
    prefix: &str,
    matches: &Vec<String>,
    to: &str,
) -> (r: Result<(), FsError>)
    ensures
        final(fs)@ == copy_list_effect(old(fs)@, overwrite, prefix@, matches.deep_view(), to@).0,
        err_of(r) == copy_list_effect(old(fs)@, overwrite, prefix@, matches.deep_view(), to@).1,
{
    let ghost orig = fs@;
    let ghost ms = matches.deep_view();
    proof {
        assert(ms.skip(0int) =~= ms);
    }
    let mut i: usize = 0;
    while i < matches.len()
        invariant
            orig == old(fs)@,
            i <= matches@.len(),
            ms == matches.deep_view(),
            copy_list_effect(orig, overwrite, prefix@, ms, to@) == copy_list_effect(
                fs@,
                overwrite,
                prefix@,
                ms.skip(i as int),
                to@,
            ),
        decreases matches@.len() - i,
    {
        let ghost pre = fs@;
        let m = &matches[i];
        proof {
            assert(ms.skip(i as int)[0] == m@);
            assert(ms.skip(i as int).drop_first() =~= ms.skip(i as int + 1));
        }
        match apply_copy_match(fs, overwrite, prefix, m.as_str(), to) {
            Ok(_) => {},
            Err(e) => {
                proof {
                    assert(copy_match_effect(pre, overwrite, prefix@, ms.skip(i as int)[0], to@)
                        == Err::<Map<Seq<char>, EntryV>, FsError>(e));
                    assert(copy_list_effect(pre, overwrite, prefix@, ms.skip(i as int), to@)
                        == (pre, Some(e)));
                }
                return Err(e);
            },
        }
        i += 1;
    }
    proof {
        assert(ms.skip(matches@.len() as int) =~= Seq::<Seq<char>>::empty());
    }
    Ok(())
}

/// Sets permission bits on one path; the entry must exist.
pub fn apply_chmod_one(fs: &mut FsModel, path: &str, mode: u32) -> (r: Result<(), FsError>)
    ensures
        chmod_one_effect(old(fs)@, path@, mode) matches Ok(m) ==> r is Ok && final(fs)@ == m,
        chmod_one_effect(old(fs)@, path@, mode) matches Err(e) ==> r == Err::<(), FsError>(e)
            && final(fs)@ == old(fs)@,
{
    match fs.entry_copy(path) {
        None => Err(FsError::MissingTarget),
        Some(e) => {
            fs.put(path.to_owned(), Entry { data: e.data, mode, uid: e.uid, gid: e.gid });
            Ok(())
        },
    }
}

/// Sets permission bits on every path of the list, stopping at the first error.
pub fn apply_chmod_list(fs: &mut FsModel, paths: &Vec<String>, mode: u32) -> (r: Result<
    (),
    FsError,
>)
    ensures
        final(fs)@ == chmod_list_effect(old(fs)@, paths.deep_view(), mode).0,
        err_of(r) == chmod_list_effect(old(fs)@, paths.deep_view(), mode).1,
{
    let ghost orig = fs@;
    let ghost ps = paths.deep_view();
    proof {
        assert(ps.skip(0int) =~= ps);
    }
    let mut i: usize = 0;
    while i < paths.len()
        invariant
            orig == old(fs)@,
            i <= paths@.len(),
            ps == paths.deep_view(),
            chmod_list_effect(orig, ps, mode) == chmod_list_effect(fs@, ps.skip(i as int), mode),
        decreases paths@.len() - i,
    {
        let ghost pre = fs@;
        let p = &paths[i];
        proof {
            assert(ps.skip(i as int)[0] == p@);
            assert(ps.skip(i as int).drop_first() =~= ps.skip(i as int + 1));
        }
        match apply_chmod_one(fs, p.as_str(), mode) {
            Ok(_) => {},
            Err(e) => {
                proof {
                    assert(chmod_one_effect(pre, ps.skip(i as int)[0], mode)
                        == Err::<Map<Seq<char>, EntryV>, FsError>(e));
                    assert(chmod_list_effect(pre, ps.skip(i as int), mode) == (pre, Some(e)));
                }
                return Err(e);
            },
        }
        i += 1;
    }
    proof {
        assert(ps.skip(paths@.len() as int) =~= Seq::<Seq<char>>::empty());
    }
    Ok(())
}

/// Sets ownership on one path; the entry must exist. An absent id leaves that
/// identity component unchanged.
pub fn apply_chown_one(
    fs: &mut FsModel,
    path: &str,
    uid: Option<u32>,
    gid: Option<u32>,
) -> (r: Result<(), FsError>)
    ensures
        chown_one_effect(old(fs)@, path@, uid, gid) matches Ok(m) ==> r is Ok && final(fs)@ == m,
        chown_one_effect(old(fs)@, path@, uid, gid) matches Err(e) ==> r == Err::<(), FsError>(e)
            && final(fs)@ == old(fs)@,
{
    match fs.entry_copy(path) {
        None => Err(FsError::MissingTarget),
        Some(e) => {
            let new_uid = match uid {
                Some(u) => u,
                None => e.uid,
            };
            let new_gid = match gid {
                Some(g) => g,
                None => e.gid,
            };
            fs.put(path.to_owned(), Entry { data: e.data, mode: e.mode, uid: new_uid, gid: new_gid });
            Ok(())
        },
    }
}

/// Sets ownership on every path of the list, stopping at the first error.
pub fn apply_chown_list(
    fs: &mut FsModel,
    paths: &Vec<String>,
    uid: Option<u32>,
    gid: Option<u32>,
) -> (r: Result<(), FsError>)
    ensures
        final(fs)@ == chown_list_effect(old(fs)@, paths.deep_view(), uid, gid).0,
        err_of(r) == chown_list_effect(old(fs)@, paths.deep_view(), uid, gid).1,
{
    let ghost orig = fs@;
    let ghost ps = paths.deep_view();
    proof {
        assert(ps.skip(0int) =~= ps);
    }
    let mut i: usize = 0;
    while i < paths.len()
        invariant
            orig == old(fs)@,
            i <= paths@.len(),
            ps == paths.deep_view(),
            chown_list_effect(orig, ps, uid, gid) == chown_list_effect(
                fs@,
                ps.skip(i as int),
                uid,
                gid,
            ),
        decreases paths@.len() - i,
    {
        let ghost pre = fs@;
        let p = &paths[i];
        proof {
            assert(ps.skip(i as int)[0] == p@);
            assert(ps.skip(i as int).drop_first() =~= ps.skip(i as int + 1));
        }
        match apply_chown_one(fs, p.as_str(), uid, gid) {
            Ok(_) => {},
            Err(e) => {
                proof {
                    assert(chown_one_effect(pre, ps.skip(i as int)[0], uid, gid)
                        == Err::<Map<Seq<char>, EntryV>, FsError>(e));
                    assert(chown_list_effect(pre, ps.skip(i as int), uid, gid) == (pre, Some(e)));
                }
                return Err(e);
            },
        }
        i += 1;
    }
    proof {
        assert(ps.skip(paths@.len() as int) =~= Seq::<Seq<char>>::empty());
    }
    Ok(())
}

/// Executes one task against the model, given the paths its pattern matched.
pub fn exec_task(fs: &mut FsModel, t: &Task, matches: &Vec<String>) -> (r: Result<(), FsError>)
    ensures
        final(fs)@ == task_effect(old(fs)@, *t, matches.deep_view()).0,
        err_of(r) == task_effect(old(fs)@, *t, matches.deep_view()).1,
{
    match &t.kind {
        TaskKind::Copy { from, to } => {
            let prefix = get_pre_glob_path(from.as_str());
            apply_copy_list(fs, true, prefix.as_str(), matches, to.as_str())
        },
        TaskKind::CopyIfAbsent { from, to } => {
            let prefix = get_pre_glob_path(from.as_str());
            apply_copy_list(fs, false, prefix.as_str(), matches, to.as_str())
        },
        TaskKind::Move { from, to } => apply_move(fs, from.as_str(), to.as_str()),
        TaskKind::Chown { target, uid, gid } => {
            let root = get_pre_glob_path(target.as_str());
            let ghost all = seq![pre_glob(target@)] + matches.deep_view();
            proof {
                assert(all[0] == root@);
                assert(all.drop_first() =~= matches.deep_view());
            }
            match apply_chown_one(fs, root.as_str(), *uid, *gid) {
                Err(e) => Err(e),
                Ok(_) => apply_chown_list(fs, matches, *uid, *gid),
            }
        },
        TaskKind::Chmod { target, mode } => {
            let root = get_pre_glob_path(target.as_str());
            let ghost all = seq![pre_glob(target@)] + matches.deep_view();
            proof {
                assert(all[0] == root@);
                assert(all.drop_first() =~= matches.deep_view());
            }
            match apply_chmod_one(fs, root.as_str(), *mode) {
                Err(e) => Err(e),
                Ok(_) => apply_chmod_list(fs, matches, *mode),
            }
        },
        TaskKind::Mkfile { target } => {
            apply_mkfile(fs, target.as_str());
            Ok(())
        },
        TaskKind::Mkdir { target } => apply_mkdir(fs, target.as_str()),
        TaskKind::Unknown => Ok(()),
    }
}

/// Runs the whole task list in order: a filesystem error stops the run, an
/// unrecognized action is skipped and the following tasks still execute.
pub fn run_tasks(fs: &mut FsModel, ts: &Vec<ResolvedTask>) -> (r: Result<(), FsError>)
    ensures
        final(fs)@ == run_effect(old(fs)@, ts@).0,
        err_of(r) == run_effect(old(fs)@, ts@).1,
{
    let ghost orig = fs@;
    proof {
        assert(ts@.skip(0int) =~= ts@);
    }
    let mut i: usize = 0;
    while i < ts.len()
        invariant
            orig == old(fs)@,
            i <= ts@.len(),
            run_effect(orig, ts@) == run_effect(fs@, ts@.skip(i as int)),
        decreases ts@.len() - i,
    {
        let ghost pre = fs@;
        let rt = &ts[i];
        proof {
            assert(ts@.skip(i as int)[0] == ts@[i as int]);
            assert(ts@.skip(i as int).drop_first() =~= ts@.skip(i as int + 1));
        }
        match exec_task(fs, &rt.task, &rt.matches) {
            Ok(_) => {},
            Err(e) => {
                proof {
                    let step = task_effect(pre, ts@.skip(i as int)[0].task,
                        ts@.skip(i as int)[0].matches.deep_view());
                    assert(step.1 == Some(e));
                    assert(run_effect(pre, ts@.skip(i as int)) == step);
                }
                return Err(e);
            },
        }
        i += 1;
    }
    proof {
        assert(ts@.skip(ts@.len() as int) =~= Seq::<ResolvedTask>::empty());
    }
    Ok(())
}

/// Deletes the running executable's path and the configuration file, in that
/// order, unless `keep` is the boolean `true`; a missing file is fatal and
/// stops the cleanup where it stands.
pub fn apply_cleanup(
    fs: &mut FsModel,
    keep: &FieldValue,
    self_path: &str,
    config_path: &str,
) -> (r: Result<(), FsError>)
    ensures
        keep@ == FieldV::Bool(true) ==> r is Ok && final(fs)@ == old(fs)@,
        keep@ != FieldV::Bool(true) && !old(fs)@.contains_key(self_path@) ==> r == Err::<
            (),
            FsError,
        >(FsError::MissingCleanupTarget) && final(fs)@ == old(fs)@,
        keep@ != FieldV::Bool(true) && old(fs)@.contains_key(self_path@) && !old(fs)@.remove(
            self_path@,
        ).contains_key(config_path@) ==> r == Err::<(), FsError>(FsError::MissingCleanupTarget)
            && final(fs)@ == old(fs)@.remove(self_path@),
        keep@ != FieldV::Bool(true) && old(fs)@.contains_key(self_path@) && old(fs)@.remove(
            self_path@,
        ).contains_key(config_path@) ==> r is Ok && final(fs)@ == old(fs)@.remove(
            self_path@,
        ).remove(config_path@) && !final(fs)@.contains_key(self_path@) && !final(fs)@.contains_key(
            config_path@,
        ),
{
    if !should_cleanup(keep) {
        return Ok(());
    }
    if !fs.contains(self_path) {
        return Err(FsError::MissingCleanupTarget);
    }
    fs.del(self_path);
    if !fs.contains(config_path) {
        return Err(FsError::MissingCleanupTarget);
    }
    fs.del(config_path);
    Ok(())
}

} // verus!
