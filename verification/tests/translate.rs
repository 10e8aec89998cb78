use proxy_fs::error::FsError;
use proxy_fs::metadata::{to_vfs_entries, to_vfs_listing, to_vfs_metadata, FileType};
use proxy_fs::path::{join, str_eq};
use proxy_fs::types::{DirEntry, FsMetadata};

#[test]
fn file_metadata_translates() {
    let m = to_vfs_metadata(&FsMetadata { is_file: true, is_dir: false, len: 42 });
    assert_eq!(m.ft, FileType::new_file());
    assert!(m.is_file() && !m.is_dir());
    assert_eq!((m.len, m.accessed, m.created, m.modified), (42, 0, 0, 0));
}

#[test]
fn dir_metadata_translates() {
    let m = to_vfs_metadata(&FsMetadata { is_file: false, is_dir: true, len: 0 });
    assert_eq!(m.ft, FileType::new_dir());
    assert!(m.is_dir() && !m.is_file());
    assert!(!m.ft.symlink && !m.ft.char_device && !m.ft.block_device && !m.ft.socket && !m.ft.fifo);
}

#[test]
fn neither_file_nor_dir_reads_as_file() {
    let m = to_vfs_metadata(&FsMetadata { is_file: false, is_dir: false, len: 9 });
    assert!(m.is_file());
    let both = to_vfs_metadata(&FsMetadata { is_file: true, is_dir: true, len: 9 });
    assert!(both.is_dir() && !both.is_file());
}

#[test]
fn join_puts_one_slash_between() {
    assert_eq!(join("/dir", "a.txt"), "/dir/a.txt");
    assert_eq!(join("/dir/", "a.txt"), "/dir/a.txt");
    assert_eq!(join("/", "a.txt"), "/a.txt");
    assert_eq!(join("", "a.txt"), "a.txt");
    assert_eq!(join("/dir", ""), "/dir/");
    assert_eq!(join("/dir", "/abs"), "/abs");
    assert_eq!(join("/d\u{e9}", "\u{fc}.txt"), "/d\u{e9}/\u{fc}.txt");
}

#[test]
fn join_agrees_with_std() {
    let cases = [("/dir", "a"), ("/dir/", "a"), ("/", "a"), ("", "a"), ("/dir", ""), ("/dir", "/abs"), ("rel", "x/y")];
    for (dir, name) in cases {
        let expected = std::path::Path::new(dir).join(name);
        assert_eq!(join(dir, name), expected.to_str().unwrap());
    }
}

#[test]
fn str_eq_compares_characters() {
    assert!(str_eq("", ""));
    assert!(str_eq("/a/b", "/a/b"));
    assert!(!str_eq("/a/b", "/a/c"));
    assert!(!str_eq("/a", "/a/"));
    assert!(str_eq("\u{e9}", "\u{e9}"));
    assert!(!str_eq("\u{e9}", "e"));
}

#[test]
fn listing_translates_in_order() {
    let entries = vec![
        DirEntry { name: "hello.txt".to_string(), metadata: FsMetadata { is_file: true, is_dir: false, len: 100 } },
        DirEntry { name: "sub".to_string(), metadata: FsMetadata { is_file: false, is_dir: true, len: 0 } },
    ];
    let out = to_vfs_entries("/home", &entries);
    assert_eq!(out.len(), 2);
    assert_eq!(out[0].path, "/home/hello.txt");
    assert_eq!(out[0].metadata.len, 100);
    assert!(out[0].metadata.is_file());
    assert_eq!(out[1].path, "/home/sub");
    assert!(out[1].metadata.is_dir());
    assert!(to_vfs_entries("/home", &Vec::new()).is_empty());
}

#[test]
fn failed_listing_passes_through() {
    match to_vfs_listing("/home", Err(FsError::BackendError("boom".to_string()))) {
        Err(FsError::BackendError(msg)) => assert_eq!(msg, "boom"),
        other => panic!("unexpected: {:?}", other.map(|v| v.len())),
    }
    assert!(matches!(to_vfs_listing("/home", Err(FsError::NotFound)), Err(FsError::NotFound)));
}

#[test]
fn error_messages() {
    assert_eq!(FsError::NotFound.message(), "entry not found");
    assert_eq!(FsError::InvalidHandle.message(), "invalid handle");
    assert_eq!(FsError::Unsupported.message(), "unsupported");
    assert_eq!(FsError::BackendError("disk on fire".to_string()).message(), "disk on fire");
    assert!(FsError::NotFound.is_not_found());
    assert!(!FsError::InvalidHandle.is_not_found());
    assert!(!FsError::BackendError("entry not found".to_string()).is_not_found());
}
