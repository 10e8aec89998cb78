use proxy_fs::callbacks::FsCallbacks;
use proxy_fs::error::FsError;
use proxy_fs::local::LocalBackend;
use proxy_fs::proxy::{Poll, ProxyFileSystem};
use proxy_fs::types::{OpenFlags, SeekFrom};

/// A filesystem on the in-memory backend.
fn make_test_fs() -> ProxyFileSystem<LocalBackend> {
    ProxyFileSystem::new(LocalBackend::new())
}

#[test]
fn test_proxy_fs_metadata() {
    let mut fs = make_test_fs();
    fs.callbacks.write_file("/test.txt", b"hello").unwrap();

    let meta = fs.metadata("/test.txt").unwrap();
    assert!(meta.is_file());
    assert!(!meta.is_dir());
    assert_eq!(meta.len(), 5);
}

#[test]
fn test_proxy_fs_metadata_not_found() {
    let fs = make_test_fs();
    let result = fs.metadata("/nope");
    assert!(result.is_err());
}

#[test]
fn test_proxy_fs_read_dir() {
    let fs = make_test_fs();
    let entries = fs.read_dir("/").unwrap();
    assert_eq!(entries.iter().count(), 0);
}

#[test]
fn test_proxy_fs_create_dir() {
    let mut fs = make_test_fs();
    let result = fs.create_dir("/mydir");
    assert!(result.is_ok());
}

#[test]
fn test_proxy_fs_remove_file() {
    let mut fs = make_test_fs();
    fs.callbacks.write_file("/test.txt", b"data").unwrap();

    assert!(fs.remove_file("/test.txt").is_ok());
    assert!(fs.metadata("/test.txt").is_err());
}

#[test]
fn test_proxy_fs_rename() {
    let mut fs = make_test_fs();
    fs.callbacks.write_file("/a.txt", b"data").unwrap();

    fs.rename("/a.txt", "/b.txt").unwrap();

    assert!(fs.callbacks.read_file("/a.txt").is_err());
    assert!(fs.callbacks.read_file("/b.txt").is_ok());
}

#[test]
fn test_proxy_file_open_and_read() {
    let mut fs = make_test_fs();
    fs.callbacks.write_file("/hello.txt", b"hello world").unwrap();

    let flags = fs.new_open_options().read(true);
    let mut file = fs.open("/hello.txt", &flags).unwrap();

    let buf = match file.poll_read(&mut fs, 5) {
        Poll::Ready(r) => r.unwrap(),
        Poll::Pending => panic!("a read never pends"),
    };
    let n = buf.len();
    assert_eq!(n, 5);
    assert_eq!(&buf[..n], b"hello");
}

#[test]
fn test_proxy_file_write() {
    let mut fs = make_test_fs();
    fs.callbacks.write_file("/out.txt", &[]).unwrap();

    let flags = fs.new_open_options().write(true);
    let mut file = fs.open("/out.txt", &flags).unwrap();

    match file.poll_write(&mut fs, b"test data") {
        Poll::Ready(r) => assert_eq!(r.unwrap(), 9),
        Poll::Pending => panic!("a write never pends"),
    }

    assert_eq!(fs.callbacks.read_file("/out.txt").unwrap(), b"test data");
}

#[test]
fn end_to_end_write_close_reopen_read() {
    let mut fs = make_test_fs();
    let flags = OpenFlags::new().write(true).create(true);
    let mut file = fs.open("/a.txt", &flags).unwrap();
    match file.poll_write(&mut fs, b"hello") {
        Poll::Ready(r) => assert_eq!(r.unwrap(), 5),
        Poll::Pending => panic!("a write never pends"),
    }
    let id = file.handle;
    file.close(&mut fs);
    assert!(!fs.callbacks.is_open(id));

    let mut file = fs.open("/a.txt", &OpenFlags::new().read(true)).unwrap();
    match file.poll_read(&mut fs, 5) {
        Poll::Ready(r) => assert_eq!(r.unwrap(), b"hello"),
        Poll::Pending => panic!("a read never pends"),
    }
    assert_eq!(fs.metadata("/a.txt").unwrap().len, 5);
}

#[test]
fn round_trip_write_file_then_read() {
    let mut fs = make_test_fs();
    let bytes = vec![0u8, 1, 2, 255, 254, 7];
    fs.write_file("/p", &bytes).unwrap();
    let file = fs.open("/p", &OpenFlags::new().read(true)).unwrap();
    assert_eq!(fs.handle_read(file.handle, 100).unwrap(), bytes);
    assert_eq!(fs.handle_read(file.handle, 100).unwrap(), Vec::<u8>::new());
    assert_eq!(fs.read_file("/p").unwrap(), bytes);
}

#[test]
fn write_through_is_seen_by_new_handles_only() {
    let mut fs = make_test_fs();
    fs.write_file("/p", b"old").unwrap();
    let before = fs.open("/p", &OpenFlags::new().read(true)).unwrap().handle;
    let writer = fs.open("/p", &OpenFlags::new().write(true)).unwrap().handle;
    assert_eq!(fs.handle_write(writer, b"NEWER").unwrap(), 5);
    let after = fs.open("/p", &OpenFlags::new().read(true)).unwrap().handle;
    assert_eq!(fs.handle_read(after, 16).unwrap(), b"NEWER");
    assert_eq!(fs.handle_read(before, 16).unwrap(), b"old");
    let reopened = fs.open("/p", &OpenFlags::new().read(true)).unwrap().handle;
    assert_eq!(fs.handle_read(reopened, 16).unwrap(), b"NEWER");
}

#[test]
fn seek_arithmetic() {
    let mut fs = make_test_fs();
    fs.write_file("/ten", b"0123456789").unwrap();
    let h = fs.open("/ten", &OpenFlags::new().read(true)).unwrap().handle;
    assert_eq!(fs.handle_seek(h, SeekFrom::Start(4)).unwrap(), 4);
    assert_eq!(fs.handle_seek(h, SeekFrom::Current(2)).unwrap(), 6);
    assert_eq!(fs.handle_seek(h, SeekFrom::Start(4)).unwrap(), 4);
    assert_eq!(fs.handle_seek(h, SeekFrom::End(-3)).unwrap(), 7);
    assert_eq!(fs.handle_seek(h, SeekFrom::Start(0)).unwrap(), 0);
    assert_eq!(fs.callbacks.cursor(h), Some(0));
}

#[test]
fn seek_below_zero_wraps() {
    let mut fs = make_test_fs();
    fs.write_file("/ten", b"0123456789").unwrap();
    let h = fs.open("/ten", &OpenFlags::new()).unwrap().handle;
    assert_eq!(fs.handle_seek(h, SeekFrom::End(-11)).unwrap(), u64::MAX);
    assert_eq!(fs.handle_seek(h, SeekFrom::Current(1)).unwrap(), 0);
    assert_eq!(fs.handle_seek(h, SeekFrom::Current(i64::MIN)).unwrap(), 1u64 << 63);
    assert_eq!(fs.handle_seek(h, SeekFrom::Start(u64::MAX)).unwrap(), u64::MAX);
    assert_eq!(fs.handle_seek(h, SeekFrom::Current(2)).unwrap(), 1);
}

#[test]
fn read_clamps_to_buffer() {
    let mut fs = make_test_fs();
    fs.write_file("/f", b"abcdef").unwrap();
    let h = fs.open("/f", &OpenFlags::new()).unwrap().handle;
    assert_eq!(fs.handle_read(h, 4).unwrap(), b"abcd");
    assert_eq!(fs.handle_read(h, 4).unwrap(), b"ef");
    assert_eq!(fs.callbacks.cursor(h), Some(6));
    assert_eq!(fs.handle_read(h, usize::MAX).unwrap(), b"");
    fs.handle_seek(h, SeekFrom::Start(100)).unwrap();
    assert_eq!(fs.handle_read(h, 4).unwrap(), b"");
    assert_eq!(fs.callbacks.cursor(h), Some(100));
    fs.handle_seek(h, SeekFrom::Start(2)).unwrap();
    assert_eq!(fs.handle_read(h, 0).unwrap(), b"");
    assert_eq!(fs.handle_read(h, usize::MAX).unwrap(), b"cdef");
}

#[test]
fn write_past_end_fills_gap_with_zeros() {
    let mut fs = make_test_fs();
    fs.write_file("/f", b"ab").unwrap();
    let h = fs.open("/f", &OpenFlags::new()).unwrap().handle;
    fs.handle_seek(h, SeekFrom::Start(4)).unwrap();
    assert_eq!(fs.handle_write(h, b"xy").unwrap(), 2);
    assert_eq!(fs.read_file("/f").unwrap(), b"ab\0\0xy");
    assert_eq!(fs.callbacks.cursor(h), Some(6));
    fs.handle_seek(h, SeekFrom::Start(1)).unwrap();
    assert_eq!(fs.handle_write(h, b"Q").unwrap(), 1);
    assert_eq!(fs.read_file("/f").unwrap(), b"aQ\0\0xy");
    fs.handle_seek(h, SeekFrom::Start(8)).unwrap();
    assert_eq!(fs.handle_write(h, b"").unwrap(), 0);
    assert_eq!(fs.read_file("/f").unwrap(), b"aQ\0\0xy\0\0");
}

#[test]
fn write_that_does_not_fit_changes_nothing() {
    let mut fs = make_test_fs();
    fs.write_file("/f", b"ab").unwrap();
    let h = fs.open("/f", &OpenFlags::new()).unwrap().handle;
    fs.handle_seek(h, SeekFrom::Start(u64::MAX)).unwrap();
    match fs.handle_write(h, b"x") {
        Err(FsError::BackendError(msg)) => assert_eq!(msg, "write reaches past the addressable range"),
        other => panic!("unexpected: {:?}", other),
    }
    assert_eq!(fs.read_file("/f").unwrap(), b"ab");
    assert_eq!(fs.callbacks.cursor(h), Some(u64::MAX));
}

#[test]
fn closed_or_unknown_handle_is_invalid() {
    let mut fs = make_test_fs();
    let h = fs.open("/f", &OpenFlags::new()).unwrap().handle;
    assert!(matches!(fs.handle_read(77, 1), Err(FsError::InvalidHandle)));
    assert!(fs.handle_close(h).is_ok());
    assert!(matches!(fs.handle_close(h), Err(FsError::InvalidHandle)));
    assert!(matches!(fs.handle_read(h, 1), Err(FsError::InvalidHandle)));
    assert!(matches!(fs.handle_write(h, b"x"), Err(FsError::InvalidHandle)));
    assert!(matches!(fs.handle_seek(h, SeekFrom::Start(0)), Err(FsError::InvalidHandle)));
}

#[test]
fn handles_are_distinct_and_never_reused() {
    let mut fs = make_test_fs();
    let a = fs.open("/a", &OpenFlags::new()).unwrap().handle;
    let b = fs.open("/a", &OpenFlags::new()).unwrap().handle;
    fs.handle_close(a).unwrap();
    fs.handle_close(b).unwrap();
    let c = fs.open("/b", &OpenFlags::new()).unwrap().handle;
    assert_eq!((a, b, c), (1, 2, 3));
}

#[test]
fn remove_then_metadata_is_not_found() {
    let mut fs = make_test_fs();
    fs.write_file("/p", b"x").unwrap();
    assert!(fs.remove_file("/p").is_ok());
    assert!(matches!(fs.metadata("/p"), Err(FsError::NotFound)));
    assert!(matches!(fs.remove_file("/p"), Err(FsError::NotFound)));
    assert!(matches!(fs.read_file("/p"), Err(FsError::NotFound)));
}

#[test]
fn rename_moves_the_data() {
    let mut fs = make_test_fs();
    fs.write_file("/a", b"payload").unwrap();
    fs.write_file("/b", b"old").unwrap();
    assert!(fs.rename("/a", "/b").is_ok());
    assert!(matches!(fs.metadata("/a"), Err(FsError::NotFound)));
    assert_eq!(fs.metadata("/b").unwrap().len, 7);
    assert_eq!(fs.read_file("/b").unwrap(), b"payload");
    assert!(matches!(fs.rename("/a", "/c"), Err(FsError::NotFound)));
    assert!(fs.rename("/b", "/b").is_ok());
    assert_eq!(fs.read_file("/b").unwrap(), b"payload");
}

#[test]
fn unsupported_operations() {
    let mut fs = make_test_fs();
    assert!(matches!(fs.readlink("/x"), Err(FsError::Unsupported)));
    assert!(matches!(fs.mount("m".to_string(), "/mnt", 0u8), Err(FsError::Unsupported)));
    let mut file = fs.open("/f", &OpenFlags::new()).unwrap();
    assert!(matches!(file.set_len(3), Err(FsError::Unsupported)));
    assert!(matches!(file.unlink(), Err(FsError::Unsupported)));
    assert_eq!(file.size(), 0);
    assert_eq!(file.last_accessed(), 0);
    assert_eq!(file.last_modified(), 0);
    assert_eq!(file.created_time(), 0);
}

#[test]
fn file_object_completes_at_once() {
    let mut fs = make_test_fs();
    fs.write_file("/f", b"abc").unwrap();
    let mut file = fs.open("/f", &OpenFlags::new()).unwrap();
    assert!(matches!(file.poll_read_ready(), Poll::Ready(Ok(0))));
    assert!(matches!(file.poll_write_ready(), Poll::Ready(Ok(0))));
    assert!(matches!(file.poll_flush(), Poll::Ready(Ok(()))));
    assert!(matches!(file.poll_shutdown(), Poll::Ready(Ok(()))));
    assert!(matches!(file.poll_complete(), Poll::Ready(Ok(0))));
    assert!(file.start_seek(&mut fs, SeekFrom::End(-1)).is_ok());
    assert!(matches!(file.poll_complete(), Poll::Ready(Ok(2))));
    match file.poll_read(&mut fs, 8) {
        Poll::Ready(r) => assert_eq!(r.unwrap(), b"c"),
        Poll::Pending => panic!("a read never pends"),
    }
    let id = file.handle;
    file.close(&mut fs);
    assert!(matches!(fs.handle_close(id), Err(FsError::InvalidHandle)));
}

#[test]
fn symlink_metadata_is_metadata() {
    let mut fs = make_test_fs();
    fs.write_file("/f", b"abc").unwrap();
    assert_eq!(fs.symlink_metadata("/f").unwrap(), fs.metadata("/f").unwrap());
    assert!(matches!(fs.symlink_metadata("/g"), Err(FsError::NotFound)));
}

#[test]
fn file_object_seek_reports_the_new_position() {
    let mut fs = make_test_fs();
    fs.write_file("/ten", b"0123456789").unwrap();
    let mut file = fs.open("/ten", &OpenFlags::new().read(true)).unwrap();
    assert_eq!(file.position, 0);
    assert!(file.start_seek(&mut fs, SeekFrom::Start(4)).is_ok());
    assert!(matches!(file.poll_complete(), Poll::Ready(Ok(4))));
    assert!(file.start_seek(&mut fs, SeekFrom::Current(2)).is_ok());
    assert!(matches!(file.poll_complete(), Poll::Ready(Ok(6))));
    assert!(matches!(file.poll_complete(), Poll::Ready(Ok(6))));
    assert!(file.start_seek(&mut fs, SeekFrom::End(-3)).is_ok());
    assert!(matches!(file.poll_complete(), Poll::Ready(Ok(7))));
    assert!(file.start_seek(&mut fs, SeekFrom::Start(0)).is_ok());
    assert!(matches!(file.poll_complete(), Poll::Ready(Ok(0))));
    assert_eq!(fs.callbacks.cursor(file.handle), Some(0));
}

#[test]
fn failed_seek_keeps_the_reported_position() {
    let mut fs = make_test_fs();
    fs.write_file("/ten", b"0123456789").unwrap();
    let mut file = fs.open("/ten", &OpenFlags::new().read(true)).unwrap();
    assert!(file.start_seek(&mut fs, SeekFrom::Start(4)).is_ok());
    fs.handle_close(file.handle).unwrap();
    assert!(matches!(file.start_seek(&mut fs, SeekFrom::Start(9)), Err(FsError::InvalidHandle)));
    assert!(matches!(file.poll_complete(), Poll::Ready(Ok(4))));
}
