use tailscale_drive::browse::browse_response;
use tailscale_drive::models::RemoteFile;
use tailscale_drive::store::FileStore;

fn entry(name: &str, is_dir: bool) -> RemoteFile {
    RemoteFile { name: name.to_string(), is_dir, size: 10, modified: 0 }
}

#[test]
fn browse_excludes_hidden_entries() {
    let listing = browse_response(&vec![entry(".hidden", false), entry("visible.txt", false)]);
    assert_eq!(listing.len(), 1);
    assert_eq!(listing[0].name, "visible.txt");
}

#[test]
fn browse_sorts_by_name_ascending() {
    let listing = browse_response(&vec![
        entry("zeta", false),
        entry("alpha", true),
        entry("midway", false),
    ]);
    let names: Vec<&str> = listing.iter().map(|e| e.name.as_str()).collect();
    assert_eq!(names, vec!["alpha", "midway", "zeta"]);
}

#[test]
fn browse_sort_is_case_sensitive_on_raw_names() {
    // Upper-case letters order before lower-case ones by code point.
    let listing = browse_response(&vec![entry("apple", false), entry("Banana", false)]);
    let names: Vec<&str> = listing.iter().map(|e| e.name.as_str()).collect();
    assert_eq!(names, vec!["Banana", "apple"]);
}

#[test]
fn browse_does_not_separate_directories_from_files() {
    let listing = browse_response(&vec![entry("b-dir", true), entry("a-file", false)]);
    let names: Vec<&str> = listing.iter().map(|e| e.name.as_str()).collect();
    assert_eq!(names, vec!["a-file", "b-dir"]);
    assert!(!listing[0].is_dir);
    assert!(listing[1].is_dir);
}

#[test]
fn browse_keeps_duplicate_names() {
    let listing = browse_response(&vec![entry("same", false), entry("same", true)]);
    assert_eq!(listing.len(), 2);
    assert_eq!(listing[0].name, "same");
    assert_eq!(listing[1].name, "same");
}

#[test]
fn browse_of_nothing_is_empty() {
    let listing = browse_response(&vec![]);
    assert!(listing.is_empty());
}

#[test]
fn upload_then_pull_returns_same_bytes() {
    // Round trip: writing bytes to a path and reading that path back
    // yields exactly the bytes written.
    let payload = vec![0u8, 1, 2, 250, 255, 42];
    let mut store = FileStore::new();
    store.write("/desktop/data.bin".to_string(), payload.clone(), 100);
    let read = store.read("/desktop/data.bin").unwrap();
    assert_eq!(read, payload);
}

#[test]
fn later_write_shadows_earlier_one() {
    let mut store = FileStore::new();
    store.write("/p".to_string(), vec![1, 2, 3], 100);
    store.write("/p".to_string(), vec![9], 200);
    assert_eq!(store.read("/p").unwrap(), vec![9]);
    assert_eq!(store.mtime_of("/p"), Some(200));
}

#[test]
fn write_leaves_other_paths_alone() {
    let mut store = FileStore::new();
    store.write("/a".to_string(), vec![1], 100);
    store.write("/b".to_string(), vec![2], 200);
    assert_eq!(store.read("/a").unwrap(), vec![1]);
    assert_eq!(store.mtime_of("/a"), Some(100));
}

#[test]
fn reading_an_unwritten_path_returns_nothing() {
    let store = FileStore::new();
    assert!(store.read("/missing").is_none());
    assert!(store.mtime_of("/missing").is_none());
}
