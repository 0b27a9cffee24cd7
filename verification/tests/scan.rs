use one_fm::clock::Timestamp;
use one_fm::fms::{list_files_in_directory, DirProbe, EntryProbe, PathKind, ScanError};
use one_fm::order::{bytes_less, entry_less, is_parent_name, sort_entries};

fn when() -> Timestamp {
    Timestamp::new(2024, 1, 2, 3, 4).unwrap()
}

fn found(name: &str, size: u64, is_dir: bool) -> EntryProbe {
    EntryProbe::Found { name: name.to_string(), size, modified: when(), is_dir }
}

fn fault(detail: &str) -> EntryProbe {
    EntryProbe::Fault(detail.to_string())
}

fn names(listing: &[PathKind]) -> Vec<String> {
    listing.iter().map(|entry| entry.info().file_name.clone()).collect()
}

#[test]
fn scan_of_three_entries_puts_directories_first() {
    let probe = DirProbe::Entries(vec![
        found("b.txt", 20, false),
        found("a.txt", 10, false),
        found("sub", 4096, true),
    ]);
    let listing = list_files_in_directory(probe).unwrap();
    assert_eq!(names(&listing), ["..", "sub", "a.txt", "b.txt"]);
    assert!(listing[0].is_dir());
    assert!(listing[1].is_dir());
    assert!(!listing[2].is_dir());
    assert!(!listing[3].is_dir());
}

#[test]
fn parent_entry_has_no_size_and_no_time() {
    let listing = list_files_in_directory(DirProbe::Entries(vec![])).unwrap();
    assert_eq!(listing.len(), 1);
    match &listing[0] {
        PathKind::DIR(info) => {
            assert_eq!(info.file_name, "..");
            assert_eq!(info.file_no, 0);
            assert_eq!(info.file_size, 0);
            assert!(info.last_modified.is_none());
        }
        PathKind::FILE(_) => panic!("the parent entry is a directory"),
    }
}

#[test]
fn entries_keep_what_was_read_of_them() {
    let probe = DirProbe::Entries(vec![
        found("b.txt", 20, false),
        found("a.txt", 10, false),
        found("sub", 4096, true),
    ]);
    let listing = list_files_in_directory(probe).unwrap();
    let sub = listing[1].info();
    assert_eq!((sub.file_no, sub.file_size, sub.last_modified), (3, 0, Some(when())));
    let a = listing[2].info();
    assert_eq!((a.file_no, a.file_size, a.last_modified), (2, 10, Some(when())));
    let b = listing[3].info();
    assert_eq!((b.file_no, b.file_size, b.last_modified), (1, 20, Some(when())));
}

#[test]
fn scan_returns_one_entry_more_than_the_directory_has() {
    for count in [0usize, 1, 2, 3, 10, 257, 1000] {
        let probes: Vec<EntryProbe> =
            (0..count).map(|i| found(&format!("file{}", (i * 7919) % count), 1, i % 3 == 0)).collect();
        let listing = list_files_in_directory(DirProbe::Entries(probes)).unwrap();
        assert_eq!(listing.len(), count + 1);
    }
}

#[test]
fn directories_come_before_files_whatever_their_names() {
    let probe = DirProbe::Entries(vec![
        found("aaa", 1, false),
        found("zzz", 1, true),
        found("!first", 1, false),
        found("mmm", 1, true),
        found("000", 1, false),
    ]);
    let listing = list_files_in_directory(probe).unwrap();
    assert_eq!(names(&listing), ["..", "mmm", "zzz", "!first", "000", "aaa"]);
    let first_file = listing.iter().position(|entry| !entry.is_dir()).unwrap();
    assert!(listing[first_file..].iter().all(|entry| !entry.is_dir()));
    assert!(listing[..first_file].iter().all(|entry| entry.is_dir()));
}

#[test]
fn parent_entry_comes_before_names_that_sort_below_it() {
    let probe = DirProbe::Entries(vec![
        found("-dashes", 1, true),
        found("!bang", 1, true),
        found(".", 1, true),
        found("...", 1, true),
        found(".git", 1, true),
        found("+plus", 1, false),
    ]);
    let listing = list_files_in_directory(probe).unwrap();
    assert_eq!(names(&listing), ["..", "!bang", "-dashes", ".", "...", ".git", "+plus"]);
}

#[test]
fn names_are_ordered_by_code_point() {
    let probe = DirProbe::Entries(vec![
        found("b", 1, false),
        found("B", 1, false),
        found("a", 1, false),
        found("ab", 1, false),
        found("é", 1, false),
        found("日本", 1, false),
        found("z", 1, false),
        found("\u{1F600}", 1, false),
        found("Z", 1, false),
        found("10", 1, false),
        found("9", 1, false),
    ]);
    let listing = list_files_in_directory(probe).unwrap();
    let mut expected: Vec<String> =
        ["b", "B", "a", "ab", "é", "日本", "z", "\u{1F600}", "Z", "10", "9"].iter().map(|s| s.to_string()).collect();
    expected.sort();
    expected.insert(0, "..".to_string());
    assert_eq!(names(&listing), expected);
}

#[test]
fn large_directory_is_sorted_and_complete() {
    let count: usize = 70_000;
    let probes: Vec<EntryProbe> = (0..count)
        .map(|i| found(&format!("n{:06}", (i * 48_271) % count), i as u64, i % 5 == 0))
        .collect();
    let listing = list_files_in_directory(DirProbe::Entries(probes)).unwrap();
    assert_eq!(listing.len(), count + 1);
    for pair in listing.windows(2) {
        assert!(!entry_less(&pair[1], &pair[0]));
    }
    let mut seen: Vec<String> = names(&listing);
    seen.sort();
    seen.dedup();
    assert_eq!(seen.len(), count + 1);
    // the numbers of the entries start again behind 65535
    let wrapped = listing.iter().filter(|entry| entry.info().file_no == 0).count();
    assert_eq!(wrapped, 2);
}

#[test]
fn path_that_is_no_directory_fails() {
    assert_eq!(list_files_in_directory(DirProbe::NotADirectory).unwrap_err(), ScanError::NotADirectory);
}

#[test]
fn directory_that_cannot_be_read_fails() {
    assert_eq!(
        list_files_in_directory(DirProbe::Unreadable("permission denied".to_string())).unwrap_err(),
        ScanError::ReadFailure("permission denied".to_string())
    );
}

#[test]
fn first_entry_that_was_not_read_decides_the_failure() {
    let bad_name_first =
        DirProbe::Entries(vec![found("a", 1, false), EntryProbe::BadName, fault("gone")]);
    assert_eq!(list_files_in_directory(bad_name_first).unwrap_err(), ScanError::NameDecodingFailure);
    let fault_first =
        DirProbe::Entries(vec![found("a", 1, false), fault("gone"), EntryProbe::BadName, fault("late")]);
    assert_eq!(
        list_files_in_directory(fault_first).unwrap_err(),
        ScanError::ReadFailure("gone".to_string())
    );
    let fault_last = DirProbe::Entries(vec![found("a", 1, false), found("b", 1, true), fault("late")]);
    assert_eq!(
        list_files_in_directory(fault_last).unwrap_err(),
        ScanError::ReadFailure("late".to_string())
    );
}

#[test]
fn every_failure_has_its_message() {
    assert_eq!(ScanError::NotADirectory.message(), "指定されたパスはディレクトリではありません");
    assert_eq!(ScanError::NameDecodingFailure.message(), "ファイル名の変換に失敗しました");
    assert_eq!(ScanError::ReadFailure("permission denied".to_string()).message(), "permission denied");
    assert_eq!(ScanError::ReadFailure(String::new()).message(), "");
}

#[test]
fn bytes_are_compared_as_in_a_dictionary() {
    assert!(bytes_less(b"", b"a"));
    assert!(!bytes_less(b"", b""));
    assert!(!bytes_less(b"a", b""));
    assert!(bytes_less(b"a", b"b"));
    assert!(bytes_less(b"a", b"ab"));
    assert!(!bytes_less(b"ab", b"a"));
    assert!(bytes_less(b"ab", b"b"));
    assert!(!bytes_less(b"abc", b"abc"));
    assert!(bytes_less(b"abc", b"abd"));
    assert!(bytes_less(&[0x7f], &[0x80]));
    assert!(is_parent_name(".."));
    assert!(!is_parent_name("."));
    assert!(!is_parent_name("..."));
    assert!(!is_parent_name(""));
    assert!(!is_parent_name("ab"));
}

#[test]
fn sorting_keeps_every_entry() {
    let entries = vec![
        PathKind::FILE(file_named("b")),
        PathKind::DIR(file_named("b")),
        PathKind::FILE(file_named("a")),
        PathKind::FILE(file_named("b")),
        PathKind::DIR(file_named("..")),
        PathKind::DIR(file_named("a")),
    ];
    let sorted = sort_entries(entries);
    assert_eq!(names(&sorted), ["..", "a", "b", "a", "b", "b"]);
    let kinds: Vec<bool> = sorted.iter().map(|entry| entry.is_dir()).collect();
    assert_eq!(kinds, [true, true, true, false, false, false]);
    assert!(sort_entries(Vec::new()).is_empty());
}

fn file_named(name: &str) -> one_fm::fms::FileInformation {
    one_fm::fms::FileInformation {
        file_no: 0,
        file_name: name.to_string(),
        file_size: 0,
        last_modified: None,
    }
}
