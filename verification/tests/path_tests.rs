use rdpclient::path::UnixPath;

#[test]
fn from_bytes_strips_trailing_slashes() {
    let p = UnixPath::from_bytes(b"/dir/sub//".to_vec());
    assert_eq!(p.as_bytes().as_slice(), b"/dir/sub");
}

#[test]
fn from_bytes_keeps_normalized_path() {
    let p = UnixPath::from_bytes(b"/file.txt".to_vec());
    assert_eq!(p.as_bytes().as_slice(), b"/file.txt");
}

#[test]
fn root_normalizes_to_empty() {
    let p = UnixPath::from_bytes(b"/".to_vec());
    assert_eq!(p.as_bytes().len(), 0);
    assert_eq!(p.last(), None);
}

#[test]
fn last_returns_final_segment() {
    let p = UnixPath::from_bytes(b"/dir/b.txt".to_vec());
    assert_eq!(p.last(), Some(b"b.txt".to_vec()));
}

#[test]
fn last_of_single_segment() {
    let p = UnixPath::from_bytes(b"share".to_vec());
    assert_eq!(p.last(), Some(b"share".to_vec()));
}

#[test]
fn last_fails_only_on_empty_path() {
    let p = UnixPath::from_bytes(Vec::new());
    assert_eq!(p.last(), None);
}

#[test]
fn contains_nul_detects_embedded_nul() {
    let p = UnixPath::from_bytes(b"/a\0b".to_vec());
    assert!(p.contains_nul());
    let q = UnixPath::from_bytes(b"/ab".to_vec());
    assert!(!q.contains_nul());
}

#[test]
fn path_length_matches_bytes() {
    let p = UnixPath::from_bytes(b"/dir/".to_vec());
    assert_eq!(p.len(), 4);
}

#[test]
fn fso_name_is_the_final_segment() {
    let fso = rdpclient::tdp::FileSystemObject {
        last_modified: 0,
        size: 1,
        file_type: rdpclient::tdp::FileType::File,
        path: UnixPath::from_bytes(b"/dir/file.txt".to_vec()),
    };
    assert_eq!(fso.name(), Some(b"file.txt".to_vec()));
}
