use artifact_watch::config::Config;
use artifact_watch::locate::select_entry;

fn default_config() -> Config {
    Config::resolve(None, None, None, None).unwrap()
}

fn strings(paths: &[&str]) -> Vec<String> {
    paths.iter().map(|p| String::from(*p)).collect()
}

#[test]
fn locator_picks_the_shallowest_match() {
    let config = default_config();
    // matches at depths 3, 1 and 2: the depth-1 match wins
    let paths = strings(&[
        "a/b/index.html",
        "index.html",
        "x/index.html",
    ]);
    assert_eq!(select_entry(&config, &paths), Some(1));
}

#[test]
fn locator_breaks_depth_ties_by_first_listed() {
    let config = default_config();
    let paths = strings(&[
        "deep/er/index.html",
        "b/index.html",
        "a/index.html",
    ]);
    assert_eq!(select_entry(&config, &paths), Some(1));
}

#[test]
fn locator_ignores_non_matches() {
    let config = default_config();
    let paths = strings(&[
        "index.htm",
        "site/readme.md",
        "site/assets/index.html",
    ]);
    assert_eq!(select_entry(&config, &paths), Some(2));
}

#[test]
fn locator_finds_nothing_without_a_match() {
    let config = default_config();
    let paths = strings(&["a.txt", "site/b.png", "site/sub/c.css"]);
    assert_eq!(select_entry(&config, &paths), None);
    let empty: Vec<String> = Vec::new();
    assert_eq!(select_entry(&config, &empty), None);
}
