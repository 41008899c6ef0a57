use job_hub::download::{flatten_entries, flatten_entry_name, unzip_flattened};
use std::io::Write;

fn zip_of(entries: &[(&str, &[u8])]) -> Vec<u8> {
    let cursor = std::io::Cursor::new(Vec::new());
    let mut writer = zip::ZipWriter::new(cursor);
    let options = zip::write::SimpleFileOptions::default()
        .compression_method(zip::CompressionMethod::Stored);
    for (name, body) in entries {
        writer.start_file(*name, options).unwrap();
        writer.write_all(body).unwrap();
    }
    writer.finish().unwrap().into_inner()
}

#[test]
fn traversal_names_flatten_to_their_basename() {
    assert_eq!(
        flatten_entry_name("../../etc/passwd"),
        Some("passwd".to_string())
    );
    assert_eq!(flatten_entry_name("a/b/c.txt"), Some("c.txt".to_string()));
    assert_eq!(flatten_entry_name("plain.log"), Some("plain.log".to_string()));
    assert_eq!(flatten_entry_name("dir/sub/"), Some("sub".to_string()));
    assert_eq!(flatten_entry_name("../evil.txt"), Some("evil.txt".to_string()));
}

#[test]
fn trailing_dot_components_name_what_precedes_them() {
    assert_eq!(flatten_entry_name("a/."), Some("a".to_string()));
    assert_eq!(flatten_entry_name("foo.txt/.//"), Some("foo.txt".to_string()));
    assert_eq!(flatten_entry_name("./a"), Some("a".to_string()));
    assert_eq!(flatten_entry_name("a."), Some("a.".to_string()));
    assert_eq!(flatten_entry_name("a/..."), Some("...".to_string()));
    assert_eq!(flatten_entry_name("./"), None);
    assert_eq!(flatten_entry_name("./."), None);
}

#[test]
fn names_with_no_usable_basename_are_rejected() {
    assert_eq!(flatten_entry_name(""), None);
    assert_eq!(flatten_entry_name("/"), None);
    assert_eq!(flatten_entry_name("////"), None);
    assert_eq!(flatten_entry_name("a/.."), None);
    assert_eq!(flatten_entry_name("a/../"), None);
    assert_eq!(flatten_entry_name("."), None);
    assert_eq!(flatten_entry_name(".."), None);
}

#[test]
fn unzip_flattens_every_entry() {
    let bytes = zip_of(&[("a/b/c.txt", b"hi"), ("../evil.txt", b"no")]);
    let out = unzip_flattened(bytes).unwrap();
    assert_eq!(out.len(), 2);
    assert_eq!(out[0].0, "c.txt");
    assert_eq!(out[0].1, b"hi".to_vec());
    assert_eq!(out[1].0, "evil.txt");
    assert_eq!(out[1].1, b"no".to_vec());
    for (name, _) in &out {
        assert!(!name.contains('/'));
        assert!(!name.is_empty());
    }
}

#[test]
fn flattening_an_entry_list() {
    let entries = vec![
        ("a/b/c.txt".to_string(), b"hi".to_vec()),
        ("../evil.txt".to_string(), b"no".to_vec()),
    ];
    let out = flatten_entries(&entries).unwrap();
    assert_eq!(
        out,
        vec![
            ("c.txt".to_string(), b"hi".to_vec()),
            ("evil.txt".to_string(), b"no".to_vec()),
        ]
    );
    let bad = vec![("ok.txt".to_string(), vec![1]), ("..".to_string(), vec![2])];
    assert_eq!(flatten_entries(&bad), Err("Invalid file name".to_string()));
    let empty: Vec<(String, Vec<u8>)> = vec![];
    assert_eq!(flatten_entries(&empty), Ok(vec![]));
}

#[test]
fn garbage_bytes_are_not_an_archive() {
    assert!(unzip_flattened(b"PK not really".to_vec()).is_err());
    assert!(unzip_flattened(Vec::new()).is_err());
}

#[test]
fn an_entry_without_a_file_name_aborts_extraction() {
    let bytes = zip_of(&[("fine.txt", b"ok"), ("..", b"sneaky")]);
    let out = unzip_flattened(bytes);
    assert_eq!(out, Err("Invalid file name".to_string()));
}

#[test]
fn an_empty_archive_extracts_to_nothing() {
    let bytes = zip_of(&[]);
    assert_eq!(unzip_flattened(bytes), Ok(vec![]));
}
