use vstd::prelude::*;

verus! {

/// One finished per-device recording: its temp path and the sample
/// count recorded at finalization (zero before finalization).
pub struct RecordedFile {
    pub path: String,
    pub sample_count: u32,
}

/// A merge the shell must perform: interleave `first` and `second`
/// into the chosen output path.
pub struct MergeJob {
    pub first: String,
    pub second: String,
}

/// True when the policy merges: at least two files and both of the
/// first two have a positive sample count.
pub open spec fn spec_merges(files: Seq<RecordedFile>) -> bool {
    files.len() >= 2 && files[0].sample_count > 0 && files[1].sample_count > 0
}

/// The path the policy selects when it does not merge: a single file
/// is used directly; of two, the one with the strictly larger count;
/// ties and the both-zero case fall back to the second file.
pub open spec fn spec_selected_path(files: Seq<RecordedFile>) -> Seq<char>
    recommends
        files.len() >= 1,
{
    if files.len() == 1 {
        files[0].path@
    } else if files[0].sample_count > files[1].sample_count {
        files[0].path@
    } else {
        files[1].path@
    }
}

/// The stop coordinator's selection/merge policy over the finalized
/// per-device files.
///
/// Exactly one file is used directly. With two or more files (only
/// the first two are consulted; more are out of the merge's scope),
/// both counts positive means merge into `merge_dest`; otherwise the
/// file with the strictly larger count wins, and ties — including
/// both-zero — deterministically fall back to the second file. The
/// returned path is the artifact the rest of the pipeline works on;
/// the job, when present, is the merge the shell performs first
/// (best-effort: its failure does not change the chosen path).
pub fn select_output(files: &Vec<RecordedFile>, merge_dest: String) -> (r: (
    String,
    Option<MergeJob>,
))
    requires
        files@.len() >= 1,
    ensures
        spec_merges(files@) ==> r.0@ == merge_dest@ && (r.1 matches Some(j) && j.first@
            == files@[0].path@ && j.second@ == files@[1].path@),
        !spec_merges(files@) ==> r.0@ == spec_selected_path(files@) && r.1 is None,
{
    if files.len() == 1 {
        (files[0].path.clone(), None)
    } else if files[0].sample_count > 0 && files[1].sample_count > 0 {
        let job = MergeJob { first: files[0].path.clone(), second: files[1].path.clone() };
        (merge_dest, Some(job))
    } else if files[0].sample_count > files[1].sample_count {
        // The first recording is strictly longer: use it as is.
        (files[0].path.clone(), None)
    } else {
        // The second recording is at least as long, or both are
        // empty: deterministically fall back to the second file.
        (files[1].path.clone(), None)
    }
}

} // verus!
