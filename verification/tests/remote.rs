use proxy_fs::remote::{callback_name, check_callback, check_callbacks, Slot, CALLBACK_COUNT};

#[test]
fn callback_names_in_order() {
    let expected = [
        "fs_read_file",
        "fs_write_file",
        "fs_metadata",
        "fs_read_dir",
        "fs_create_dir",
        "fs_remove_dir",
        "fs_remove_file",
        "fs_rename",
        "fs_open",
        "fs_handle_read",
        "fs_handle_write",
        "fs_handle_seek",
        "fs_handle_close",
    ];
    assert_eq!(CALLBACK_COUNT, 13);
    for (i, name) in expected.iter().enumerate() {
        assert_eq!(callback_name(i), Some(*name));
    }
    assert_eq!(callback_name(13), None);
    assert_eq!(callback_name(usize::MAX), None);
}

#[test]
fn single_callback() {
    assert_eq!(check_callback("fs_open", Slot::Function), Ok(()));
    assert_eq!(check_callback("fs_open", Slot::Missing), Err("missing callback: fs_open".to_string()));
    assert_eq!(
        check_callback("fs_open", Slot::NotFunction),
        Err("callback 'fs_open' is not a function".to_string())
    );
}

#[test]
fn complete_set_passes() {
    assert_eq!(check_callbacks(&[Slot::Function; 13]), Ok(()));
}

#[test]
fn first_unusable_callback_is_reported() {
    let mut slots = [Slot::Function; 13];
    slots[12] = Slot::Missing;
    assert_eq!(check_callbacks(&slots), Err("missing callback: fs_handle_close".to_string()));
    slots[3] = Slot::NotFunction;
    assert_eq!(check_callbacks(&slots), Err("callback 'fs_read_dir' is not a function".to_string()));
    slots[0] = Slot::Missing;
    assert_eq!(check_callbacks(&slots), Err("missing callback: fs_read_file".to_string()));
}
