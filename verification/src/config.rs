//! The run configuration: the directory to watch, an optional one-shot
//! file, the archive name pattern, and the entry file glob.  The patterns
//! are validated once, when the configuration is resolved; every later
//! check relies on that.

use vstd::prelude::*;
use vstd::string::StringExecFns;

verus! {

/// Whether the regular-expression syntax of `pat` is accepted by the
/// matcher.
pub uninterp spec fn regex_syntax_ok(pat: Seq<char>) -> bool;

/// Whether the regular expression `pat` matches somewhere in `text`.
pub uninterp spec fn regex_matches(pat: Seq<char>, text: Seq<char>) -> bool;

/// Whether the glob-pattern syntax of `pat` is accepted by the matcher.
pub uninterp spec fn glob_syntax_ok(pat: Seq<char>) -> bool;

/// Whether the glob pattern `pat` matches the whole of `path`.
pub uninterp spec fn glob_matches(pat: Seq<char>, path: Seq<char>) -> bool;

/// Relies on regex::Regex::new: compiling a pattern succeeds or fails on
/// the pattern text alone.
#[verifier::external_body]
fn regex_pattern_ok(pat: &str) -> (r: bool)
    ensures
        r == regex_syntax_ok(pat@),
{
    regex::Regex::new(pat).is_ok()
}

/// Relies on regex::Regex::new and regex::Regex::is_match: whether a valid
/// pattern matches a text depends on the pattern and the text alone.
#[verifier::external_body]
fn regex_is_match(pat: &str, text: &str) -> (r: bool)
    requires
        regex_syntax_ok(pat@),
    ensures
        r == regex_matches(pat@, text@),
{
    regex::Regex::new(pat).map(|re| re.is_match(text)).unwrap_or(false)
}

/// Relies on glob::Pattern::new: compiling a pattern succeeds or fails on
/// the pattern text alone.
#[verifier::external_body]
fn glob_pattern_ok(pat: &str) -> (r: bool)
    ensures
        r == glob_syntax_ok(pat@),
{
    glob::Pattern::new(pat).is_ok()
}

/// Relies on glob::Pattern::new and glob::Pattern::matches: whether a valid
/// glob matches a path depends on the pattern and the path alone.
#[verifier::external_body]
pub(crate) fn glob_path_matches(pat: &str, path: &str) -> (r: bool)
    requires
        glob_syntax_ok(pat@),
    ensures
        r == glob_matches(pat@, path@),
{
    glob::Pattern::new(pat).map(|p| p.matches(path)).unwrap_or(false)
}

/// The archive name pattern used when none is supplied: names of the shape
/// `artifact_{anything}.tar.gz`.
pub open spec fn default_archive_pattern() -> Seq<char> {
    "^artifact_\\{.*\\}\\.tar\\.gz$"@
}

/// The entry file glob used when none is supplied: any `index.html` at any
/// depth.
pub open spec fn default_entry_glob() -> Seq<char> {
    "**/index.html"@
}

/// The directory watched when none is supplied: the current directory.
pub open spec fn default_watch_dir() -> Seq<char> {
    "."@
}

/// The value of an optional argument: what was supplied, or the default.
pub open spec fn or_default(arg: Option<Seq<char>>, default: Seq<char>) -> Seq<char> {
    match arg {
        Some(v) => v,
        None => default,
    }
}

/// Resolving the arguments fails only on a pattern whose syntax the
/// matcher refuses.
#[derive(Clone, Copy, Debug, PartialEq, Eq, Structural)]
pub enum ConfigError {
    InvalidArguments,
}

/// The resolved configuration.  Both patterns are known valid for the whole
/// of the value's lifetime.
pub struct Config {
    watch_dir: String,
    one_shot_file: Option<String>,
    archive_pattern: String,
    entry_glob: String,
}

impl Config {
    #[verifier::type_invariant]
    spec fn wf(self) -> bool {
        &&& regex_syntax_ok(self.archive_pattern@)
        &&& glob_syntax_ok(self.entry_glob@)
    }

    /// The directory being watched.
    pub closed spec fn watch_dir_spec(self) -> Seq<char> {
        self.watch_dir@
    }

    /// The one-shot file, when the run processes a single file and exits.
    pub closed spec fn one_shot_spec(self) -> Option<Seq<char>> {
        match self.one_shot_file {
            Some(f) => Some(f@),
            None => None,
        }
    }

    /// The archive name pattern.
    pub closed spec fn archive_pattern_spec(self) -> Seq<char> {
        self.archive_pattern@
    }

    /// The entry file glob.
    pub closed spec fn entry_glob_spec(self) -> Seq<char> {
        self.entry_glob@
    }

    /// Builds the configuration from the invocation arguments, filling in
    /// the defaults and validating both patterns.
    pub fn resolve(
        watch_dir: Option<String>,
        one_shot_file: Option<String>,
        archive_pattern: Option<String>,
        entry_glob: Option<String>,
    ) -> (r: Result<Config, ConfigError>)
        ensures
            r is Ok <==> regex_syntax_ok(
                or_default(archive_pattern.deep_view(), default_archive_pattern()),
            ) && glob_syntax_ok(or_default(entry_glob.deep_view(), default_entry_glob())),
            r matches Ok(c) ==> {
                &&& c.watch_dir_spec() == or_default(watch_dir.deep_view(), default_watch_dir())
                &&& c.one_shot_spec() == one_shot_file.deep_view()
                &&& c.archive_pattern_spec() == or_default(
                    archive_pattern.deep_view(),
                    default_archive_pattern(),
                )
                &&& c.entry_glob_spec() == or_default(entry_glob.deep_view(), default_entry_glob())
            },
            r matches Err(e) ==> e == ConfigError::InvalidArguments,
    {
        let pattern = match archive_pattern {
            Some(p) => p,
            None => String::from_str("^artifact_\\{.*\\}\\.tar\\.gz$"),
        };
        let glob_pat = match entry_glob {
            Some(g) => g,
            None => String::from_str("**/index.html"),
        };
        if !regex_pattern_ok(pattern.as_str()) {
            return Err(ConfigError::InvalidArguments);
        }
        if !glob_pattern_ok(glob_pat.as_str()) {
            return Err(ConfigError::InvalidArguments);
        }
        let dir = match watch_dir {
            Some(d) => d,
            None => String::from_str("."),
        };
        Ok(Config { watch_dir: dir, one_shot_file, archive_pattern: pattern, entry_glob: glob_pat })
    }

    /// Whether `name` matches the archive name pattern: the test applied to
    /// a file name to recognise an arriving archive.
    pub fn matches_archive_pattern(&self, name: &str) -> (r: bool)
        ensures
            r == regex_matches(self.archive_pattern_spec(), name@),
    {
        proof {
            use_type_invariant(self);
        }
        regex_is_match(self.archive_pattern.as_str(), name)
    }

    /// Whether the entry file glob matches the relative path `path`.
    pub fn matches_entry_glob(&self, path: &str) -> (r: bool)
        ensures
            r == glob_matches(self.entry_glob_spec(), path@),
    {
        proof {
            use_type_invariant(self);
        }
        glob_path_matches(self.entry_glob.as_str(), path)
    }

    /// The directory to watch, for the caller that subscribes to events.
    pub fn watch_dir(&self) -> (r: &String)
        ensures
            r@ == self.watch_dir_spec(),
    {
        &self.watch_dir
    }

    /// The one-shot file, when one was supplied.
    pub fn one_shot_file(&self) -> (r: &Option<String>)
        ensures
            r.deep_view() == self.one_shot_spec(),
    {
        &self.one_shot_file
    }

    /// The entry file glob, as supplied or defaulted.
    pub fn entry_glob(&self) -> (r: &String)
        ensures
            r@ == self.entry_glob_spec(),
            glob_syntax_ok(r@),
    {
        proof {
            use_type_invariant(self);
        }
        &self.entry_glob
    }
}

} // verus!
