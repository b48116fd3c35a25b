//! Laws of the task semantics, proved over the filesystem model.

use vstd::prelude::*;
use crate::fsmodel::EntryV;
use crate::actions::{
    FsError, ResolvedTask, copy_match_effect, mkdir_effect, mkfile_effect, chmod_one_effect,
    chmod_list_effect, chown_one_effect, chown_list_effect, task_effect, run_effect,
};
use crate::resolver::dest_of;

verus! {

/// `copy-if-absent` is idempotent: once one application has succeeded, a
/// second application of the same match and destination succeeds and changes
/// nothing more; and a matched file never overwrites a destination that was
/// already there, so the whole filesystem is then left as it was.
pub proof fn lemma_copy_if_absent_idempotent(
    m: Map<Seq<char>, EntryV>,
    prefix: Seq<char>,
    path: Seq<char>,
    to: Seq<char>,
)
    requires
        copy_match_effect(m, false, prefix, path, to) is Ok,
    ensures
        copy_match_effect(
            copy_match_effect(m, false, prefix, path, to)->Ok_0,
            false,
            prefix,
            path,
            to,
        ) == copy_match_effect(m, false, prefix, path, to),
        m.contains_key(dest_of(prefix, path, to)) && m[path].data is File ==> copy_match_effect(
            m,
            false,
            prefix,
            path,
            to,
        )->Ok_0 == m,
{
    let dest = dest_of(prefix, path, to);
    let m1 = copy_match_effect(m, false, prefix, path, to)->Ok_0;
    if m[path].data is File {
        if m.contains_key(dest) {
            assert(m1 == m);
        } else {
            assert(m1.contains_key(dest));
            assert(copy_match_effect(m1, false, prefix, path, to) == Ok::<
                Map<Seq<char>, EntryV>,
                FsError,
            >(m1));
        }
    } else {
        if m.contains_key(dest) {
            if dest == path {
                assert(m[dest] == EntryV {
                    data: m[path].data,
                    mode: m[path].mode,
                    uid: m[dest].uid,
                    gid: m[dest].gid,
                });
                assert(m1 =~= m);
            } else {
                assert(m1[path] == m[path]);
                assert(m1[dest].uid == m[dest].uid && m1[dest].gid == m[dest].gid);
                assert(copy_match_effect(m1, false, prefix, path, to)->Ok_0 =~= m1);
            }
        } else {
            assert(path != dest);
            assert(m1[path] == m[path]);
            assert(copy_match_effect(m1, false, prefix, path, to)->Ok_0 =~= m1);
        }
    }
}

/// `copy` converges: after one successful copy of a matched file, copying it
/// again succeeds, changes nothing more, and the destination's content equals
/// the source's content as it then stands.
pub proof fn lemma_copy_overwrite_converges(
    m: Map<Seq<char>, EntryV>,
    prefix: Seq<char>,
    path: Seq<char>,
    to: Seq<char>,
)
    requires
        m.contains_key(path),
        m[path].data is File,
        copy_match_effect(m, true, prefix, path, to) is Ok,
    ensures
        copy_match_effect(
            copy_match_effect(m, true, prefix, path, to)->Ok_0,
            true,
            prefix,
            path,
            to,
        ) == copy_match_effect(m, true, prefix, path, to),
        copy_match_effect(m, true, prefix, path, to)->Ok_0[dest_of(prefix, path, to)].data
            == copy_match_effect(m, true, prefix, path, to)->Ok_0[path].data,
{
    let dest = dest_of(prefix, path, to);
    let m1 = copy_match_effect(m, true, prefix, path, to)->Ok_0;
    if dest == path {
        assert(m[dest] == EntryV {
            data: m[path].data,
            mode: m[path].mode,
            uid: m[dest].uid,
            gid: m[dest].gid,
        });
        assert(m1 =~= m);
    } else {
        assert(m1[path] == m[path]);
        assert(m1.contains_key(dest));
        assert(copy_match_effect(m1, true, prefix, path, to)->Ok_0 =~= m1);
    }
}

/// `mkdir` is idempotent: a target that already is a directory is left
/// unchanged without an error, and a second application after a successful
/// one changes nothing.
pub proof fn lemma_mkdir_idempotent(m: Map<Seq<char>, EntryV>, target: Seq<char>)
    requires
        mkdir_effect(m, target) is Ok,
    ensures
        mkdir_effect(mkdir_effect(m, target)->Ok_0, target) == mkdir_effect(m, target),
        m.contains_key(target) && m[target].data is Dir ==> mkdir_effect(m, target) == Ok::<
            Map<Seq<char>, EntryV>,
            FsError,
        >(m),
{
}

/// `mkfile` is idempotent: a target where anything already stands is left
/// unchanged, and a second application changes nothing.
pub proof fn lemma_mkfile_idempotent(m: Map<Seq<char>, EntryV>, target: Seq<char>)
    ensures
        mkfile_effect(mkfile_effect(m, target), target) == mkfile_effect(m, target),
        m.contains_key(target) ==> mkfile_effect(m, target) == m,
{
    assert(mkfile_effect(m, target).contains_key(target));
}

proof fn lemma_seq_contains_drop_first(paths: Seq<Seq<char>>, k: Seq<char>)
    requires
        paths.len() > 0,
    ensures
        paths.contains(k) <==> (paths[0] == k || paths.drop_first().contains(k)),
{
    if paths.contains(k) {
        let i = choose|i: int| 0 <= i < paths.len() && paths[i] == k;
        if i > 0 {
            assert(paths.drop_first()[i - 1] == k);
        }
    }
    if paths.drop_first().contains(k) {
        let i = choose|i: int| 0 <= i < paths.drop_first().len() && paths.drop_first()[i] == k;
        assert(paths[i + 1] == k);
    }
    if paths[0] == k {
        assert(paths[0] == k && 0 < paths.len());
    }
}

/// A `chmod` that walked its whole path list without an error has set the
/// permission bits of every listed path to exactly the given mode; no entry
/// appears or disappears, no data and no ownership changes, and the bits of
/// every unlisted path stay what they were.
pub proof fn lemma_chmod_list_sets_modes(
    m: Map<Seq<char>, EntryV>,
    paths: Seq<Seq<char>>,
    mode: u32,
)
    requires
        chmod_list_effect(m, paths, mode).1 is None,
    ensures
        chmod_list_effect(m, paths, mode).0.dom() == m.dom(),
        forall|j: int| 0 <= j < paths.len() ==> m.contains_key(#[trigger] paths[j])
            && chmod_list_effect(m, paths, mode).0[paths[j]].mode == mode,
        forall|k: Seq<char>| #[trigger] m.contains_key(k) ==> chmod_list_effect(
            m,
            paths,
            mode,
        ).0[k].data == m[k].data && chmod_list_effect(m, paths, mode).0[k].uid == m[k].uid
            && chmod_list_effect(m, paths, mode).0[k].gid == m[k].gid,
        forall|k: Seq<char>| m.contains_key(k) && !(#[trigger] paths.contains(k))
            ==> chmod_list_effect(m, paths, mode).0[k].mode == m[k].mode,
    decreases paths.len(),
{
    if paths.len() == 0 {
    } else {
        let mf = chmod_list_effect(m, paths, mode).0;
        let r0 = chmod_one_effect(m, paths[0], mode);
        assert(r0 is Ok);
        let m1 = r0->Ok_0;
        assert(m1.dom() =~= m.dom());
        assert(chmod_list_effect(m, paths, mode) == chmod_list_effect(
            m1,
            paths.drop_first(),
            mode,
        ));
        lemma_chmod_list_sets_modes(m1, paths.drop_first(), mode);
        assert(mf.dom() =~= m.dom());
        assert forall|j: int| 0 <= j < paths.len() implies m.contains_key(#[trigger] paths[j])
            && mf[paths[j]].mode == mode by {
            if j == 0 {
                let k = paths[0];
                if paths.drop_first().contains(k) {
                    let i = choose|i: int|
                        0 <= i < paths.drop_first().len() && paths.drop_first()[i] == k;
                    assert(mf[paths.drop_first()[i]].mode == mode);
                } else {
                    assert(m1[k].mode == mode);
                    assert(mf[k].mode == m1[k].mode);
                }
            } else {
                assert(paths.drop_first()[j - 1] == paths[j]);
                assert(m1.contains_key(paths[j]) && mf[paths[j]].mode == mode);
            }
        }
        assert forall|k: Seq<char>| #[trigger] m.contains_key(k) implies mf[k].data == m[k].data
            && mf[k].uid == m[k].uid && mf[k].gid == m[k].gid by {
            assert(m1[k].data == m[k].data && m1[k].uid == m[k].uid && m1[k].gid == m[k].gid);
            assert(m1.contains_key(k));
        }
        assert forall|k: Seq<char>| m.contains_key(k) && !(#[trigger] paths.contains(k)) implies
            mf[k].mode == m[k].mode by {
            lemma_seq_contains_drop_first(paths, k);
            assert(k != paths[0]);
            assert(m1[k].mode == m[k].mode);
            assert(m1.contains_key(k));
        }
    }
}

/// A `chown` that walked its whole path list without an error has set, on
/// every listed path, exactly the identity components that were given: a
/// present id replaces that component, an absent one leaves it as it was. No
/// entry appears or disappears, no data and no permission bits change, and
/// unlisted paths keep their ownership.
pub proof fn lemma_chown_list_identities(
    m: Map<Seq<char>, EntryV>,
    paths: Seq<Seq<char>>,
    uid: Option<u32>,
    gid: Option<u32>,
)
    requires
        chown_list_effect(m, paths, uid, gid).1 is None,
    ensures
        chown_list_effect(m, paths, uid, gid).0.dom() == m.dom(),
        forall|j: int| 0 <= j < paths.len() ==> m.contains_key(#[trigger] paths[j])
            && chown_list_effect(m, paths, uid, gid).0[paths[j]].uid == (match uid {
            Some(u) => u,
            None => m[paths[j]].uid,
        }) && chown_list_effect(m, paths, uid, gid).0[paths[j]].gid == (match gid {
            Some(g) => g,
            None => m[paths[j]].gid,
        }),
        forall|k: Seq<char>| #[trigger] m.contains_key(k) ==> chown_list_effect(
            m,
            paths,
            uid,
            gid,
        ).0[k].data == m[k].data && chown_list_effect(m, paths, uid, gid).0[k].mode == m[k].mode,
        forall|k: Seq<char>| m.contains_key(k) && !(#[trigger] paths.contains(k))
            ==> chown_list_effect(m, paths, uid, gid).0[k].uid == m[k].uid && chown_list_effect(
            m,
            paths,
            uid,
            gid,
        ).0[k].gid == m[k].gid,
    decreases paths.len(),
{
    if paths.len() == 0 {
    } else {
        let mf = chown_list_effect(m, paths, uid, gid).0;
        let r0 = chown_one_effect(m, paths[0], uid, gid);
        assert(r0 is Ok);
        let m1 = r0->Ok_0;
        assert(m1.dom() =~= m.dom());
        assert(chown_list_effect(m, paths, uid, gid) == chown_list_effect(
            m1,
            paths.drop_first(),
            uid,
            gid,
        ));
        lemma_chown_list_identities(m1, paths.drop_first(), uid, gid);
        assert(mf.dom() =~= m.dom());
        assert forall|j: int| 0 <= j < paths.len() implies m.contains_key(#[trigger] paths[j])
            && mf[paths[j]].uid == (match uid {
            Some(u) => u,
            None => m[paths[j]].uid,
        }) && mf[paths[j]].gid == (match gid {
            Some(g) => g,
            None => m[paths[j]].gid,
        }) by {
            if j == 0 {
                let k = paths[0];
                assert(m1[k].uid == (match uid {
                    Some(u) => u,
                    None => m[k].uid,
                }) && m1[k].gid == (match gid {
                    Some(g) => g,
                    None => m[k].gid,
                }));
                if paths.drop_first().contains(k) {
                    let i = choose|i: int|
                        0 <= i < paths.drop_first().len() && paths.drop_first()[i] == k;
                    assert(mf[paths.drop_first()[i]].uid == (match uid {
                        Some(u) => u,
                        None => m1[k].uid,
                    }) && mf[paths.drop_first()[i]].gid == (match gid {
                        Some(g) => g,
                        None => m1[k].gid,
                    }));
                } else {
                    assert(mf[k].uid == m1[k].uid && mf[k].gid == m1[k].gid);
                }
            } else {
                assert(paths.drop_first()[j - 1] == paths[j]);
                assert(m1.contains_key(paths[j]));
                if paths[j] == paths[0] {
                    assert(mf[paths[j]].uid == (match uid {
                        Some(u) => u,
                        None => m1[paths[j]].uid,
                    }));
                } else {
                    assert(m1[paths[j]] == m[paths[j]]);
                }
            }
        }
        assert forall|k: Seq<char>| #[trigger] m.contains_key(k) implies mf[k].data == m[k].data
            && mf[k].mode == m[k].mode by {
            assert(m1[k].data == m[k].data && m1[k].mode == m[k].mode);
            assert(m1.contains_key(k));
        }
        assert forall|k: Seq<char>| m.contains_key(k) && !(#[trigger] paths.contains(k)) implies
            mf[k].uid == m[k].uid && mf[k].gid == m[k].gid by {
            lemma_seq_contains_drop_first(paths, k);
            assert(k != paths[0]);
            assert(m1[k].uid == m[k].uid && m1[k].gid == m[k].gid);
            assert(m1.contains_key(k));
        }
    }
}

/// A `chown` given only a user id updates the owner of every listed path and
/// leaves every group ownership — listed or not — exactly as it was.
pub proof fn lemma_chown_uid_only_preserves_gid(
    m: Map<Seq<char>, EntryV>,
    paths: Seq<Seq<char>>,
    u: u32,
)
    requires
        chown_list_effect(m, paths, Some(u), None).1 is None,
    ensures
        forall|j: int| 0 <= j < paths.len() ==> m.contains_key(#[trigger] paths[j])
            && chown_list_effect(m, paths, Some(u), None).0[paths[j]].uid == u,
        forall|k: Seq<char>| #[trigger] m.contains_key(k) ==> chown_list_effect(
            m,
            paths,
            Some(u),
            None,
        ).0[k].gid == m[k].gid,
{
    lemma_chown_list_identities(m, paths, Some(u), None);
    let mf = chown_list_effect(m, paths, Some(u), None).0;
    assert forall|k: Seq<char>| #[trigger] m.contains_key(k) implies mf[k].gid == m[k].gid by {
        if paths.contains(k) {
            let i = choose|i: int| 0 <= i < paths.len() && paths[i] == k;
            assert(mf[paths[i]].gid == m[paths[i]].gid);
        }
    }
}

/// An unrecognized action does not abort the run: it changes nothing, raises
/// no error, and the remaining tasks execute exactly as they would have
/// without it.
pub proof fn lemma_unknown_action_skipped(m: Map<Seq<char>, EntryV>, ts: Seq<ResolvedTask>)
    requires
        ts.len() > 0,
        ts[0].task.kind is Unknown,
    ensures
        run_effect(m, ts) == run_effect(m, ts.drop_first()),
{
    assert(task_effect(m, ts[0].task, ts[0].matches.deep_view()) == (
        m,
        Option::<FsError>::None,
    ));
}

} // verus!
