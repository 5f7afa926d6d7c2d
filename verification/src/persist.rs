use vstd::prelude::*;
use vstd::string::*;

verus! {

/// The directory-separator character of the library's path model.
pub open spec fn spec_sep() -> char {
    '/'
}

/// Where the file-name part of `s` begins: one past the last
/// separator, or the start of the string when it has none.
pub open spec fn spec_dir_end(s: Seq<char>) -> int
    decreases s.len(),
{
    if s.len() == 0 {
        0
    } else if s.last() == spec_sep() {
        s.len() as int
    } else {
        spec_dir_end(s.drop_last())
    }
}

/// The file-name part of a path: everything after the last
/// separator; empty when the path is empty or ends in a separator.
pub open spec fn spec_file_name(s: Seq<char>) -> Seq<char> {
    s.subrange(spec_dir_end(s), s.len() as int)
}

/// `spec_dir_end` always lies within the string.
pub proof fn lemma_dir_end_bounds(s: Seq<char>)
    ensures
        0 <= spec_dir_end(s) <= s.len(),
    decreases s.len(),
{
    if s.len() != 0 && s.last() != spec_sep() {
        lemma_dir_end_bounds(s.drop_last());
    }
}

/// Join a directory and a file name with the separator.
pub fn join_path(dir: &str, name: &str) -> (r: String)
    ensures
        r@ == dir@ + "/"@ + name@,
{
    let mut s = String::from_str(dir);
    s.append("/");
    s.append(name);
    s
}

/// The temp path of one intermediate WAV file: the temp directory,
/// the token the shell drew for it, and the WAV extension.
pub fn temp_wav_path(temp_dir: &str, token: &str) -> (r: String)
    ensures
        r@ == temp_dir@ + "/"@ + token@ + ".wav"@,
{
    let mut s = String::from_str(temp_dir);
    s.append("/");
    s.append(token);
    s.append(".wav");
    s
}

/// The file-name part of `path`, or `None` when there is none (an
/// empty path or one ending in a separator) — in that case the
/// caller skips persistence rather than guessing a name.
pub fn file_name_of(path: &str) -> (r: Option<String>)
    ensures
        spec_file_name(path@).len() == 0 ==> r is None,
        spec_file_name(path@).len() > 0 ==> r is Some && r->0@ == spec_file_name(path@),
{
    let len = path.unicode_len();
    proof {
        lemma_dir_end_bounds(path@);
        assert(path@.subrange(0, 0) =~= Seq::<char>::empty());
    }
    let mut end: usize = 0;
    let mut i: usize = 0;
    while i < len
        invariant
            i <= len,
            len == path@.len(),
            end <= i,
            end as int == spec_dir_end(path@.subrange(0, i as int)),
        decreases len - i,
    {
        let c = path.get_char(i);
        proof {
            assert(path@.subrange(0, i + 1).last() == path@[i as int]);
            assert(path@.subrange(0, i + 1).drop_last() =~= path@.subrange(0, i as int));
        }
        if c == '/' {
            end = i + 1;
        }
        i = i + 1;
    }
    proof {
        assert(path@.subrange(0, len as int) =~= path@);
    }
    if end == len {
        None
    } else {
        let name = path.substring_char(end, len);
        Some(String::from_str(name))
    }
}

/// Where the output is persisted: an explicit override path wins;
/// otherwise the platform documents directory with the fixed
/// subfolder under it; with neither, the output stays at its temp
/// location.
pub fn resolve_save_dir(
    custom_path: &Option<String>,
    documents_dir: &Option<String>,
    subfolder: &str,
) -> (r: Option<String>)
    ensures
        custom_path is Some ==> r is Some && r->0@ == custom_path->0@,
        custom_path is None && documents_dir is Some ==> r is Some && r->0@ == documents_dir->0@
            + "/"@ + subfolder@,
        custom_path is None && documents_dir is None ==> r is None,
{
    match custom_path {
        Some(p) => Some(p.clone()),
        None => match documents_dir {
            Some(d) => Some(join_path(d.as_str(), subfolder)),
            None => None,
        },
    }
}

/// The terminal location after the move-or-copy attempt, and whether
/// the shell still owes a delete of the temp original.
///
/// A successful rename, or a successful copy after a failed rename,
/// makes the target path terminal; only the copy path leaves the
/// temp original behind to delete. When the directory could not be
/// created, or both rename and copy failed, the temp location is
/// terminal and nothing is deleted.
pub fn persist_final_path(
    dir_created: bool,
    renamed: bool,
    copied: bool,
    target: &str,
    temp: &str,
) -> (r: (String, bool))
    ensures
        dir_created && renamed ==> r.0@ == target@ && !r.1,
        dir_created && !renamed && copied ==> r.0@ == target@ && r.1,
        !(dir_created && (renamed || copied)) ==> r.0@ == temp@ && !r.1,
{
    if dir_created && renamed {
        (String::from_str(target), false)
    } else if dir_created && copied {
        (String::from_str(target), true)
    } else {
        (String::from_str(temp), false)
    }
}

/// The completion notification's payload: the terminal path and its
/// file name (empty when the path carries none), exactly once per
/// recording.
pub fn completion_event(final_path: &str) -> (r: (String, String))
    ensures
        r.0@ == final_path@,
        r.1@ == spec_file_name(final_path@),
{
    let path = String::from_str(final_path);
    let name = match file_name_of(final_path) {
        Some(n) => n,
        None => String::new(),
    };
    proof {
        lemma_dir_end_bounds(final_path@);
        if spec_file_name(final_path@).len() == 0 {
            assert(name@ =~= spec_file_name(final_path@));
        }
    }
    (path, name)
}

} // verus!
