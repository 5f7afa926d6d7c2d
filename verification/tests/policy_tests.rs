use audio_capture::policy::{select_output, RecordedFile};

fn rec(path: &str, sample_count: u32) -> RecordedFile {
    RecordedFile { path: String::from(path), sample_count }
}

#[test]
fn single_file_is_used_directly() {
    let files = vec![rec("/tmp/a.wav", 0)];
    let (path, job) = select_output(&files, String::from("/tmp/m.wav"));
    assert_eq!(path, "/tmp/a.wav");
    assert!(job.is_none());
}

#[test]
fn two_active_files_are_merged() {
    let files = vec![rec("/tmp/a.wav", 100), rec("/tmp/b.wav", 50)];
    let (path, job) = select_output(&files, String::from("/tmp/m.wav"));
    assert_eq!(path, "/tmp/m.wav");
    let job = job.expect("both counts positive must merge");
    assert_eq!(job.first, "/tmp/a.wav");
    assert_eq!(job.second, "/tmp/b.wav");
}

#[test]
fn larger_count_wins_when_only_one_is_active() {
    let files = vec![rec("/tmp/a.wav", 100), rec("/tmp/b.wav", 0)];
    let (path, job) = select_output(&files, String::from("/tmp/m.wav"));
    assert_eq!(path, "/tmp/a.wav");
    assert!(job.is_none());

    let files = vec![rec("/tmp/a.wav", 0), rec("/tmp/b.wav", 100)];
    let (path, job) = select_output(&files, String::from("/tmp/m.wav"));
    assert_eq!(path, "/tmp/b.wav");
    assert!(job.is_none());
}

#[test]
fn both_zero_falls_back_to_second_file() {
    let files = vec![rec("/tmp/a.wav", 0), rec("/tmp/b.wav", 0)];
    let (path, job) = select_output(&files, String::from("/tmp/m.wav"));
    assert_eq!(path, "/tmp/b.wav");
    assert!(job.is_none());
}

#[test]
fn more_than_two_files_degrade_to_the_first_two() {
    let files = vec![rec("/a", 3), rec("/b", 9), rec("/c", 9000)];
    let (path, job) = select_output(&files, String::from("/m"));
    assert_eq!(path, "/m");
    let job = job.expect("first two counts positive must merge");
    assert_eq!(job.first, "/a");
    assert_eq!(job.second, "/b");

    let files = vec![rec("/a", 0), rec("/b", 0), rec("/c", 9000)];
    let (path, _) = select_output(&files, String::from("/m"));
    assert_eq!(path, "/b");
}
