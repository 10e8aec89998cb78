use proxy_fs::package::{
    describe_local_package, is_wasm_module, local_package_entry, local_package_url, split_package_name,
};

fn hex(bytes: &[u8]) -> String {
    let mut out = String::new();
    for b in bytes {
        out.push_str(&format!("{:02x}", b));
    }
    out
}

#[test]
fn split_at_last_at_sign() {
    assert_eq!(
        split_package_name("wasmer/coreutils@1.0.19"),
        Ok(("wasmer/coreutils".to_string(), "1.0.19".to_string()))
    );
    assert_eq!(split_package_name("a@b@c"), Ok(("a@b".to_string(), "c".to_string())));
    assert_eq!(split_package_name("@"), Ok((String::new(), String::new())));
    assert_eq!(split_package_name("name@"), Ok(("name".to_string(), String::new())));
    assert_eq!(split_package_name("\u{e9}t\u{e9}@1"), Ok(("\u{e9}t\u{e9}".to_string(), "1".to_string())));
}

#[test]
fn split_without_version_fails() {
    assert_eq!(split_package_name("wasmer/coreutils"), Err("Expected name@version, got: wasmer/coreutils".to_string()));
    assert_eq!(split_package_name(""), Err("Expected name@version, got: ".to_string()));
}

#[test]
fn local_url() {
    assert_eq!(local_package_url("wasmer/coreutils@1.0.19"), "file:///local/wasmer/coreutils@1.0.19");
}

#[test]
fn wasm_magic() {
    assert!(is_wasm_module(b"\0asm\x01\0\0\0"));
    assert!(is_wasm_module(b"\0asm"));
    assert!(!is_wasm_module(b"\0as"));
    assert!(!is_wasm_module(b"\0webc"));
    assert!(!is_wasm_module(b""));
}

#[test]
fn describe_hashes_the_file() {
    let entry = describe_local_package("pkg@1.0.0", b"abc").unwrap();
    assert_eq!(entry.package, "pkg");
    assert_eq!(entry.version, "1.0.0");
    assert_eq!(entry.url, "file:///local/pkg@1.0.0");
    assert_eq!(hex(&entry.sha256), "ba7816bf8f01cfea414140de5dae2223b00361a396177a9cb410ff61f20015ad");
    let empty = describe_local_package("pkg@1.0.0", b"").unwrap();
    assert_eq!(hex(&empty.sha256), "e3b0c44298fc1c149afbf4c8996fb92427ae41e4649b934ca495991b7852b855");
}

#[test]
fn describe_rejects_a_bare_name() {
    assert_eq!(describe_local_package("pkg", b"abc").unwrap_err(), "Expected name@version, got: pkg");
}

#[test]
fn entry_keeps_the_digest() {
    let digest = [7u8; 32];
    let entry = local_package_entry("a/b@2", digest).unwrap();
    assert_eq!(entry.sha256, digest);
    assert_eq!((entry.package.as_str(), entry.version.as_str()), ("a/b", "2"));
    assert!(local_package_entry("a/b", digest).is_err());
}
