use artifact_watch::paths::{extraction_destination, file_name_of, path_depth};

#[test]
fn file_name_takes_the_part_after_the_last_separator() {
    assert_eq!(file_name_of("a/b/c.tar.gz"), "c.tar.gz");
    assert_eq!(file_name_of("c.tar.gz"), "c.tar.gz");
    assert_eq!(file_name_of("a/b/"), "");
    assert_eq!(file_name_of(""), "");
}

#[test]
fn depth_counts_components() {
    assert_eq!(path_depth("index.html"), 1);
    assert_eq!(path_depth("site/index.html"), 2);
    assert_eq!(path_depth("site/assets/index.html"), 3);
    assert_eq!(path_depth("/rooted/a"), 2);
    assert_eq!(path_depth(""), 0);
    assert_eq!(path_depth("a//b"), 2);
}

#[test]
fn destination_is_sibling_with_unzipped_suffix() {
    assert_eq!(
        extraction_destination("artifact_{build1}.tar.gz").as_deref(),
        Some("artifact_{build1}_unzipped")
    );
    assert_eq!(
        extraction_destination("watched/artifact_{build1}.tar.gz").as_deref(),
        Some("watched/artifact_{build1}_unzipped")
    );
    assert_eq!(
        extraction_destination("/a/b/artifact_{x}.tar.gz").as_deref(),
        Some("/a/b/artifact_{x}_unzipped")
    );
}

#[test]
fn destination_fails_on_too_short_a_stem() {
    // the stem cannot carry a four-character container extension
    assert_eq!(extraction_destination("a.gz"), None);
    assert_eq!(extraction_destination("dir/"), None);
    assert_eq!(extraction_destination(""), None);
}

#[test]
fn destination_of_a_plain_name_drops_four_stem_characters() {
    // a name without the container extension still yields a destination:
    // one-shot mode attempts extraction of any file
    assert_eq!(extraction_destination("notes.txt").as_deref(), Some("n_unzipped"));
}
