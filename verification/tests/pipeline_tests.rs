use artifact_watch::archive::{extract_archive, EntryKind, ExtractError};
use artifact_watch::config::Config;
use artifact_watch::pipeline::{plan_extraction, HandleError};

fn default_config() -> Config {
    Config::resolve(None, None, None, None).unwrap()
}

/// Builds a gzip-compressed tar stream holding the given directories and
/// files, in order.
fn make_archive(dirs: &[&str], files: &[(&str, &[u8])]) -> Vec<u8> {
    let encoder = flate2::write::GzEncoder::new(Vec::new(), flate2::Compression::default());
    let mut builder = tar::Builder::new(encoder);
    for dir in dirs {
        let mut header = tar::Header::new_gnu();
        header.set_entry_type(tar::EntryType::dir());
        header.set_size(0);
        header.set_mode(0o755);
        builder.append_data(&mut header, *dir, std::io::empty()).unwrap();
    }
    for (path, data) in files {
        let mut header = tar::Header::new_gnu();
        header.set_entry_type(tar::EntryType::file());
        header.set_size(data.len() as u64);
        header.set_mode(0o644);
        builder.append_data(&mut header, *path, *data).unwrap();
    }
    builder.into_inner().unwrap().finish().unwrap()
}

#[test]
fn extraction_reproduces_paths_and_contents() {
    let data = make_archive(
        &["site/", "site/assets/"],
        &[
            ("site/index.html", b"<html>home</html>"),
            ("site/assets/app.js", b"console.log(1);"),
        ],
    );
    let entries = extract_archive(&data).unwrap();
    assert_eq!(entries.len(), 4);
    assert_eq!(entries[0].path, "site/");
    assert_eq!(entries[0].kind, EntryKind::Directory);
    assert_eq!(entries[1].path, "site/assets/");
    assert_eq!(entries[1].kind, EntryKind::Directory);
    assert_eq!(entries[2].path, "site/index.html");
    assert_eq!(entries[2].kind, EntryKind::File);
    assert_eq!(entries[2].data, b"<html>home</html>");
    assert_eq!(entries[3].path, "site/assets/app.js");
    assert_eq!(entries[3].kind, EntryKind::File);
    assert_eq!(entries[3].data, b"console.log(1);");
}

#[test]
fn re_extraction_is_idempotent_in_content() {
    let data = make_archive(&["d/"], &[("d/index.html", b"x"), ("d/y.txt", b"y")]);
    let first = extract_archive(&data).unwrap();
    let second = extract_archive(&data).unwrap();
    assert_eq!(first.len(), second.len());
    for (a, b) in first.iter().zip(second.iter()) {
        assert_eq!(a.path, b.path);
        assert_eq!(a.kind, b.kind);
        assert_eq!(a.data, b.data);
        assert_eq!(a.link_target, b.link_target);
    }
}

#[test]
fn malformed_stream_fails_extraction() {
    let data = Vec::from(&b"this is not a gzip stream"[..]);
    assert_eq!(extract_archive(&data), Err(ExtractError::BadGzip));
}

#[test]
fn one_shot_on_a_non_archive_fails_with_extraction_error() {
    // one-shot mode applies no name-pattern check: extraction is attempted
    // and fails on the malformed stream
    let config = default_config();
    let data = Vec::from(&b"plain text, no archive"[..]);
    let r = plan_extraction(&config, "notes.txt", &data);
    assert!(matches!(r, Err(HandleError::Extraction(ExtractError::BadGzip))));
}

#[test]
fn a_name_without_room_for_the_container_extension_fails() {
    let config = default_config();
    let data = make_archive(&[], &[("index.html", b"x")]);
    let r = plan_extraction(&config, "a.gz", &data);
    assert!(matches!(r, Err(HandleError::Extraction(ExtractError::BadDestination))));
}

#[test]
fn missing_entry_file_reports_the_searched_directory() {
    let config = default_config();
    let data = make_archive(&["site/"], &[("site/readme.md", b"no entry file here")]);
    let r = plan_extraction(&config, "artifact_{build7}.tar.gz", &data);
    match r {
        Err(HandleError::NotFound(dir)) => assert_eq!(dir, "artifact_{build7}_unzipped"),
        _ => panic!("expected the locator to fail"),
    }
}

#[test]
fn end_to_end_shallowest_index_is_opened() {
    let config = default_config();
    let data = make_archive(
        &["site/", "site/assets/"],
        &[
            ("site/index.html", b"<html>root</html>"),
            ("site/assets/index.html", b"<html>assets</html>"),
        ],
    );
    let plan = plan_extraction(&config, "artifact_{build1}.tar.gz", &data).unwrap();
    assert_eq!(plan.dest_dir, "artifact_{build1}_unzipped");
    assert_eq!(plan.entry_file, "artifact_{build1}_unzipped/site/index.html");
    assert_eq!(plan.entries.len(), 4);
    assert_eq!(plan.entries[2].path, "site/index.html");
    assert_eq!(plan.entries[2].data, b"<html>root</html>");
}

#[test]
fn end_to_end_inside_a_watched_directory() {
    let config = default_config();
    let data = make_archive(&[], &[("site/index.html", b"ok")]);
    let plan = plan_extraction(&config, "watched/artifact_{b}.tar.gz", &data).unwrap();
    assert_eq!(plan.dest_dir, "watched/artifact_{b}_unzipped");
    assert_eq!(plan.entry_file, "watched/artifact_{b}_unzipped/site/index.html");
}
