use fs_extra::error::Error;
use fs_extra::metadata::{metadata, FileStat, Metadata, Resolved};
use std::io::ErrorKind;
use std::path::PathBuf;
use std::time::{Duration, UNIX_EPOCH};

fn file_stat() -> FileStat {
    FileStat {
        accessed_at_ms: 30,
        created_at_ms: 10,
        modified_at_ms: 20,
        is_dir: false,
        is_file: true,
        is_symlink: false,
        len: 1234,
    }
}

fn dir_stat() -> FileStat {
    FileStat {
        accessed_at_ms: 3,
        created_at_ms: 1,
        modified_at_ms: 2,
        is_dir: true,
        is_file: false,
        is_symlink: false,
        len: 4096,
    }
}

fn complete(step: Result<Resolved, Error>) -> Metadata {
    match step {
        Ok(Resolved::Complete(record)) => record,
        Ok(Resolved::Directory(_)) => panic!("a directory was not expected"),
        Err(_) => panic!("a failure was not expected"),
    }
}

fn not_found() -> std::io::Error {
    std::io::Error::new(ErrorKind::NotFound, "no such file")
}

#[test]
fn regular_file_is_complete_after_stat() {
    let record = complete(metadata(PathBuf::from("/tmp/a.txt"), "id-1".to_string(), Ok(file_stat())));
    assert!(record.is_file);
    assert!(!record.is_dir);
    assert!(!record.is_symlink);
    assert!(!record.has_child);
    assert_eq!(record.size, 1234);
    assert_eq!(record.accessed_at_ms, 30);
    assert_eq!(record.created_at_ms, 10);
    assert_eq!(record.modified_at_ms, 20);
    assert_eq!(record.id, "id-1");
    assert_eq!(record.path, PathBuf::from("/tmp/a.txt"));
}

#[test]
fn path_and_identifier_are_echoed_unchanged() {
    let record = complete(metadata(PathBuf::from("./x/../y//z"), " odd id\n".to_string(), Ok(file_stat())));
    assert_eq!(record.path.as_os_str(), "./x/../y//z");
    assert_eq!(record.id, " odd id\n");
    let record = complete(metadata(PathBuf::from(""), String::new(), Ok(file_stat())));
    assert_eq!(record.path.as_os_str(), "");
    assert_eq!(record.id, "");
}

#[test]
fn symlink_flags_pass_through() {
    let stat = FileStat { is_symlink: true, is_file: true, ..file_stat() };
    let record = complete(metadata(PathBuf::from("link"), "s".to_string(), Ok(stat)));
    assert!(record.is_symlink);
    assert!(record.is_file);
    assert!(!record.has_child);
}

#[test]
fn failed_stat_is_not_accessible() {
    match metadata(PathBuf::from("/missing"), "id".to_string(), Err(not_found())) {
        Err(Error::Io(e)) => assert_eq!(e.kind(), ErrorKind::NotFound),
        Ok(_) => panic!("a missing path must not resolve"),
    }
}

#[test]
fn directory_waits_for_the_look_below_it() {
    match metadata(PathBuf::from("/tmp/d"), "d".to_string(), Ok(dir_stat())) {
        Ok(Resolved::Directory(pending)) => assert_eq!(pending.path(), &PathBuf::from("/tmp/d")),
        _ => panic!("a directory must wait for its first entry"),
    }
}

fn directory(first_entry: Result<bool, std::io::Error>) -> Result<Metadata, Error> {
    match metadata(PathBuf::from("/tmp/d"), "d".to_string(), Ok(dir_stat())) {
        Ok(Resolved::Directory(pending)) => pending.finish(first_entry),
        _ => panic!("a directory must wait for its first entry"),
    }
}

#[test]
fn empty_directory_has_no_child() {
    let record = directory(Ok(false)).unwrap();
    assert!(record.is_dir);
    assert!(!record.is_file);
    assert!(!record.has_child);
    assert_eq!(record.id, "d");
    assert_eq!(record.path, PathBuf::from("/tmp/d"));
    assert_eq!(record.size, 4096);
    assert_eq!(record.accessed_at_ms, 3);
    assert_eq!(record.created_at_ms, 1);
    assert_eq!(record.modified_at_ms, 2);
}

#[test]
fn directory_with_an_entry_has_child() {
    let record = directory(Ok(true)).unwrap();
    assert!(record.is_dir);
    assert!(record.has_child);
    assert_eq!(record.id, "d");
}

#[test]
fn unreadable_directory_is_not_accessible() {
    let denied = std::io::Error::new(ErrorKind::PermissionDenied, "denied");
    match directory(Err(denied)) {
        Err(Error::Io(e)) => assert_eq!(e.kind(), ErrorKind::PermissionDenied),
        Ok(_) => panic!("an unreadable directory must not resolve"),
    }
}

#[test]
fn error_is_made_from_the_system_error() {
    let Error::Io(e) = Error::from(not_found());
    assert_eq!(e.kind(), ErrorKind::NotFound);
    assert_eq!(e.to_string(), "no such file");
}

#[test]
fn stat_takes_each_timestamp_on_its_own() {
    let unsupported = std::io::Error::new(ErrorKind::Unsupported, "no creation time");
    let stat = FileStat::new(
        Ok(UNIX_EPOCH + Duration::from_millis(7001)),
        Err(unsupported),
        Ok(UNIX_EPOCH + Duration::from_secs(5)),
        false,
        true,
        false,
        99,
    )
    .unwrap();
    assert_eq!(stat.accessed_at_ms, 7001);
    assert_eq!(stat.created_at_ms, 0);
    assert_eq!(stat.modified_at_ms, 5000);
    assert!(stat.is_file);
    assert!(!stat.is_dir);
    assert!(!stat.is_symlink);
    assert_eq!(stat.len, 99);
}

#[test]
fn stat_without_any_timestamp_is_all_zero() {
    let e = |text: &str| std::io::Error::new(ErrorKind::Unsupported, text.to_string());
    let stat = FileStat::new(Err(e("a")), Err(e("c")), Err(e("m")), true, false, false, 0).unwrap();
    assert_eq!(stat.accessed_at_ms, 0);
    assert_eq!(stat.created_at_ms, 0);
    assert_eq!(stat.modified_at_ms, 0);
    assert!(stat.is_dir);
}

#[test]
fn stat_with_a_time_before_epoch_is_refused() {
    let early = UNIX_EPOCH - Duration::from_secs(60);
    assert!(FileStat::new(Ok(UNIX_EPOCH), Ok(UNIX_EPOCH), Ok(early), false, true, false, 1).is_none());
    assert!(FileStat::new(Ok(early), Ok(UNIX_EPOCH), Ok(UNIX_EPOCH), false, true, false, 1).is_none());
    assert!(FileStat::new(Ok(UNIX_EPOCH), Ok(early), Ok(UNIX_EPOCH), false, true, false, 1).is_none());
}
