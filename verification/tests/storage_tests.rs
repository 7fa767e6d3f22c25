use dedicated_server_availability_watcher::json::{encode_each, frame_array, list_to_json};
use dedicated_server_availability_watcher::storage::{
    digest_of_json, fingerprint_of, to_json_sha256, CheckResultStorage, DirectoryProbe, RecordRead,
};
use dedicated_server_availability_watcher::{CheckResult, LibError};
use sha2::{Digest, Sha256};

fn strings(items: &[&str]) -> Vec<String> {
    items.iter().map(|s| s.to_string()).collect()
}

fn result_of(provider: &str, servers: &[&str]) -> CheckResult {
    CheckResult { provider_name: provider.to_string(), available_servers: strings(servers) }
}

fn storage() -> CheckResultStorage {
    CheckResultStorage::new("/var/lib/watcher", DirectoryProbe::Directory).unwrap()
}

#[test]
fn list_json_agrees_with_serde_json() {
    for sample in [vec![], vec!["a"], vec!["a", "b"], vec!["\"", "\\", "\n", "é", ""]] {
        let items = strings(&sample);
        assert_eq!(list_to_json(&items).unwrap(), serde_json::to_string(&items).unwrap());
    }
}

#[test]
fn list_json_exact_values() {
    assert_eq!(list_to_json(&strings(&[])).unwrap(), "[]");
    assert_eq!(list_to_json(&strings(&["typeA", "typeB"])).unwrap(), "[\"typeA\",\"typeB\"]");
    assert_eq!(encode_each(&strings(&["a\"b"])).unwrap(), strings(&["\"a\\\"b\""]));
    assert_eq!(frame_array(&strings(&["1", "2"])), "[1,2]");
}

#[test]
fn digest_agrees_with_sha2() {
    for text in ["", "[]", "[\"typeA\",\"typeB\"]", "é☃"] {
        assert_eq!(digest_of_json(text), format!("{:x}", Sha256::digest(text)));
    }
}

#[test]
fn digest_of_empty_text_is_known() {
    assert_eq!(
        digest_of_json(""),
        "e3b0c44298fc1c149afbf4c8996fb92427ae41e4649b934ca495991b7852b855"
    );
}

#[test]
fn to_json_sha256_hashes_the_json_of_the_list() {
    let items = strings(&["typeB", "typeA"]);
    let json = serde_json::to_string(&items).unwrap();
    assert_eq!(to_json_sha256(&items).unwrap(), format!("{:x}", Sha256::digest(&json)));
    assert_eq!(to_json_sha256(&items).unwrap().len(), 64);
}

#[test]
fn fingerprint_is_taken_over_the_sorted_list() {
    let sorted = strings(&["typeA", "typeB"]);
    assert_eq!(
        fingerprint_of(&strings(&["typeB", "typeA"])).unwrap(),
        to_json_sha256(&sorted).unwrap()
    );
    assert_ne!(
        fingerprint_of(&strings(&["typeA", "typeB"])).unwrap(),
        fingerprint_of(&strings(&["typeA", "typeC"])).unwrap()
    );
    assert_ne!(
        fingerprint_of(&strings(&["typeA"])).unwrap(),
        fingerprint_of(&strings(&["typeA", "typeA"])).unwrap()
    );
}

#[test]
fn storage_new_on_a_directory() {
    let storage = CheckResultStorage::new("/tmp/x", DirectoryProbe::Directory).unwrap();
    assert_eq!(storage.path, "/tmp/x");
}

#[test]
fn storage_new_on_something_else() {
    match CheckResultStorage::new("/etc/passwd", DirectoryProbe::NotADirectory) {
        Err(LibError::ValueError { name, value }) => {
            assert_eq!(name, "Storage directory is not an accessible directory");
            assert_eq!(value, "/etc/passwd");
        }
        other => panic!("unexpected {:?}", other),
    }
}

#[test]
fn storage_new_when_creation_failed() {
    let failure = std::io::Error::new(std::io::ErrorKind::PermissionDenied, "denied");
    match CheckResultStorage::new("/root/x", DirectoryProbe::Failed(failure)) {
        Err(LibError::IOError { source }) => {
            assert_eq!(source.kind(), std::io::ErrorKind::PermissionDenied);
        }
        other => panic!("unexpected {:?}", other),
    }
}

#[test]
fn file_name_holds_provider_and_fingerprint() {
    let servers = strings(&["typeA", "typeB"]);
    let name = CheckResultStorage::file_name("ovh", &servers).unwrap();
    assert_eq!(name.chars().count(), 3 + 72);
    assert_eq!(fingerprint_of(&servers).unwrap().len(), 64);
    assert_eq!(name, format!("ovh-{}.sha256", fingerprint_of(&servers).unwrap()));
}

#[test]
fn path_is_placed_under_the_directory() {
    let servers = strings(&["typeA"]);
    let name = CheckResultStorage::file_name("ovh", &servers).unwrap();
    assert_eq!(storage().get_path("ovh", &servers).unwrap(), format!("/var/lib/watcher/{}", name));
    let slash = CheckResultStorage::new("/data/", DirectoryProbe::Directory).unwrap();
    assert_eq!(slash.place("f"), "/data/f");
    let empty = CheckResultStorage::new("", DirectoryProbe::Directory).unwrap();
    assert_eq!(empty.place("f"), "f");
    let plain = CheckResultStorage::new("data", DirectoryProbe::Directory).unwrap();
    assert_eq!(plain.place("f"), "data/f");
}

#[test]
fn storage_key_ignores_order() {
    let ab = strings(&["A", "B"]);
    let ba = strings(&["B", "A"]);
    assert_eq!(storage().get_path("ovh", &ab).unwrap(), storage().get_path("ovh", &ba).unwrap());
    assert_ne!(
        storage().get_path("ovh", &ab).unwrap(),
        storage().get_path("scaleway", &ab).unwrap()
    );
    assert_ne!(
        storage().get_path("ovh", &ab).unwrap(),
        storage().get_path("ovh", &strings(&["A", "C"])).unwrap()
    );
}

#[test]
fn is_equal_is_false_without_a_record() {
    for servers in [vec![], vec!["typeA"], vec!["typeA", "typeB"]] {
        let result = result_of("ovh", &servers);
        assert_eq!(storage().is_equal(&result, RecordRead::Missing).unwrap(), false);
    }
}

#[test]
fn put_hash_then_is_equal_is_true() {
    let servers = strings(&["typeA", "typeB", "typeC"]);
    let result = result_of("ovh", &["typeA", "typeB"]);
    let record = storage().put_hash("ovh", &servers, &result).unwrap();
    assert_eq!(record.path, storage().get_path("ovh", &servers).unwrap());
    assert_eq!(record.hash, fingerprint_of(&result.available_servers).unwrap());
    let first = storage().is_equal(&result, RecordRead::Content(record.hash.clone())).unwrap();
    let second = storage().is_equal(&result, RecordRead::Content(record.hash.clone())).unwrap();
    assert!(first);
    assert_eq!(first, second);
}

#[test]
fn is_equal_sees_a_swap() {
    let servers = strings(&["A", "B", "C"]);
    let before = result_of("ovh", &["A", "B"]);
    let after = result_of("ovh", &["A", "C"]);
    let record = storage().put_hash("ovh", &servers, &before).unwrap();
    assert!(!storage().is_equal(&after, RecordRead::Content(record.hash)).unwrap());
}

#[test]
fn is_equal_ignores_the_order_of_available_servers() {
    let servers = strings(&["A", "B"]);
    let record = storage().put_hash("ovh", &servers, &result_of("ovh", &["A", "B"])).unwrap();
    assert!(storage()
        .is_equal(&result_of("ovh", &["B", "A"]), RecordRead::Content(record.hash))
        .unwrap());
}

#[test]
fn get_hash_trims_what_was_read() {
    assert_eq!(storage().get_hash(RecordRead::Missing).unwrap(), None);
    assert_eq!(
        storage().get_hash(RecordRead::Content(" abc123\n".to_string())).unwrap(),
        Some("abc123".to_string())
    );
    let result = result_of("ovh", &["A"]);
    let hash = fingerprint_of(&result.available_servers).unwrap();
    assert!(storage().is_equal(&result, RecordRead::Content(format!("{}\n", hash))).unwrap());
}

#[test]
fn a_failed_read_is_an_io_error() {
    let failure = || std::io::Error::new(std::io::ErrorKind::PermissionDenied, "denied");
    match storage().get_hash(RecordRead::Failed(failure())) {
        Err(LibError::IOError { source }) => {
            assert_eq!(source.kind(), std::io::ErrorKind::PermissionDenied)
        }
        other => panic!("unexpected {:?}", other),
    }
    match storage().is_equal(&result_of("ovh", &[]), RecordRead::Failed(failure())) {
        Err(LibError::IOError { .. }) => {}
        other => panic!("unexpected {:?}", other),
    }
}
