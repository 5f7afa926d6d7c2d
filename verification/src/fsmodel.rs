use vstd::prelude::*;

verus! {

/// A mathematical model of the filesystem the pipeline touches: a
/// map from paths to file contents. The shell's primitives (rename,
/// copy, remove) are modelled as transitions on it, and the laws
/// below state what the persistence fallback and the cleanup pass
/// leave behind.
pub type FsModel = Map<Seq<char>, Seq<u8>>;

/// Copy `from` onto `to`: the destination holds the source's
/// contents; a copy of a missing source changes nothing.
pub open spec fn fs_copy(fs: FsModel, from: Seq<char>, to: Seq<char>) -> FsModel {
    if fs.contains_key(from) {
        fs.insert(to, fs[from])
    } else {
        fs
    }
}

/// Remove `p` if it exists.
pub open spec fn fs_remove(fs: FsModel, p: Seq<char>) -> FsModel {
    fs.remove(p)
}

/// Rename `from` to `to`: the contents move, the source vanishes; a
/// rename of a missing source changes nothing.
pub open spec fn fs_rename(fs: FsModel, from: Seq<char>, to: Seq<char>) -> FsModel {
    if fs.contains_key(from) {
        fs.remove(from).insert(to, fs[from])
    } else {
        fs
    }
}

/// Remove every path of `paths` from `fs`, in order.
pub open spec fn fs_remove_all(fs: FsModel, paths: Seq<Seq<char>>) -> FsModel
    decreases paths.len(),
{
    if paths.len() == 0 {
        fs
    } else {
        fs_remove_all(fs_remove(fs, paths[0]), paths.drop_first())
    }
}

/// A successful rename moves the file: the destination holds the
/// original contents and the source is gone — the temp location is
/// left clean without a separate delete.
pub proof fn lemma_persist_rename(fs: FsModel, temp: Seq<char>, target: Seq<char>)
    requires
        fs.contains_key(temp),
        temp != target,
    ensures
        fs_rename(fs, temp, target).contains_key(target),
        fs_rename(fs, temp, target)[target] == fs[temp],
        !fs_rename(fs, temp, target).contains_key(temp),
{
}

/// The cross-filesystem fallback: when rename fails, copy-then-
/// delete leaves exactly one copy of the file — the destination
/// holds the original contents and the temp normalized path holds
/// nothing.
pub proof fn lemma_persist_copy_fallback(fs: FsModel, temp: Seq<char>, target: Seq<char>)
    requires
        fs.contains_key(temp),
        temp != target,
    ensures
        fs_remove(fs_copy(fs, temp, target), temp).contains_key(target),
        fs_remove(fs_copy(fs, temp, target), temp)[target] == fs[temp],
        !fs_remove(fs_copy(fs, temp, target), temp).contains_key(temp),
{
}

/// Removing paths never makes a missing path reappear.
proof fn lemma_remove_all_no_new(fs: FsModel, paths: Seq<Seq<char>>, p: Seq<char>)
    requires
        !fs.contains_key(p),
    ensures
        !fs_remove_all(fs, paths).contains_key(p),
    decreases paths.len(),
{
    if paths.len() > 0 {
        lemma_remove_all_no_new(fs_remove(fs, paths[0]), paths.drop_first(), p);
    }
}

/// The cleanup pass removes every original per-device temp file:
/// whatever the earlier stages did, after removing all session paths
/// none of them remains in the model, merge or normalize failures
/// included.
pub proof fn lemma_cleanup_removes_all(fs: FsModel, paths: Seq<Seq<char>>)
    ensures
        forall|i: int|
            0 <= i < paths.len() ==> !fs_remove_all(fs, paths).contains_key(#[trigger] paths[i]),
    decreases paths.len(),
{
    if paths.len() > 0 {
        let fs1 = fs_remove(fs, paths[0]);
        lemma_cleanup_removes_all(fs1, paths.drop_first());
        lemma_remove_all_no_new(fs1, paths.drop_first(), paths[0]);
        assert forall|i: int|
            0 <= i < paths.len() implies !fs_remove_all(fs, paths).contains_key(
            #[trigger] paths[i],
        ) by {
            if i > 0 {
                assert(paths.drop_first()[i - 1] == paths[i]);
            }
        }
    }
}

} // verus!
