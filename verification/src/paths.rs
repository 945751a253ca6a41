//! Path strings as sequences of characters: file names, directory prefixes,
//! component depth, and the extraction destination derived from an archive
//! file name.

use vstd::prelude::*;
use vstd::string::StrSliceExecFns;
use vstd::string::StringExecFns;

verus! {

/// Index of the last occurrence of `c` in `s`, or -1 if `c` does not occur.
pub open spec fn last_index_of(s: Seq<char>, c: char) -> int
    decreases s.len(),
{
    if s.len() == 0 {
        -1
    } else if s[s.len() - 1] == c {
        s.len() - 1
    } else {
        last_index_of(s.drop_last(), c)
    }
}

/// How appending one character changes the last occurrence of `c`.
pub proof fn lemma_last_index_of_push(s: Seq<char>, c: char, d: char)
    ensures
        last_index_of(s.push(d), c) == if d == c {
            s.len() as int
        } else {
            last_index_of(s, c)
        },
{
    let t = s.push(d);
    assert(t.len() == s.len() + 1);
    assert(t[t.len() - 1] == d);
    if d != c {
        assert(t.drop_last() =~= s);
    }
}

/// The part of `p` after its last separator: the file name (may be empty when
/// `p` ends with a separator).
pub open spec fn file_name_spec(p: Seq<char>) -> Seq<char> {
    p.subrange(last_index_of(p, '/') + 1, p.len() as int)
}

/// The part of `p` up to and including its last separator (empty when `p`
/// holds no separator).
pub open spec fn dir_prefix_spec(p: Seq<char>) -> Seq<char> {
    p.subrange(0, last_index_of(p, '/') + 1)
}

/// The file name without its final extension: everything before the last
/// dot, unless the only dot leads the name (a hidden file has no extension).
pub open spec fn stem_spec(name: Seq<char>) -> Seq<char> {
    let d = last_index_of(name, '.');
    if d > 0 {
        name.subrange(0, d)
    } else {
        name
    }
}

/// Finds the index of the last occurrence of `c` in `s`.
fn find_last(s: &str, c: char) -> (r: Option<usize>)
    ensures
        r matches Some(i) ==> i as int == last_index_of(s@, c) && i < s@.len(),
        r is None ==> last_index_of(s@, c) == -1,
        s@.len() <= usize::MAX,
{
    let n = s.unicode_len();
    let mut r: Option<usize> = None;
    let mut i: usize = 0;
    while i < n
        invariant
            i <= n,
            n == s@.len(),
            r matches Some(j) ==> j as int == last_index_of(s@.subrange(0, i as int), c) && j < i,
            r is None ==> last_index_of(s@.subrange(0, i as int), c) == -1,
        decreases n - i,
    {
        let ch = s.get_char(i);
        proof {
            assert(s@.subrange(0, i + 1) =~= s@.subrange(0, i as int).push(s@[i as int]));
            lemma_last_index_of_push(s@.subrange(0, i as int), c, s@[i as int]);
        }
        if ch == c {
            r = Some(i);
        }
        i += 1;
    }
    proof {
        assert(s@.subrange(0, n as int) =~= s@);
    }
    r
}

/// Returns the file name of `path`: the part after the last separator, or
/// the whole of `path` when it holds none.
pub fn file_name_of<'a>(path: &'a str) -> (r: &'a str)
    ensures
        r@ == file_name_spec(path@),
{
    let n = path.unicode_len();
    match find_last(path, '/') {
        Some(i) => path.substring_char(i + 1, n),
        None => {
            proof {
                assert(path@.subrange(0, n as int) =~= path@);
            }
            path.substring_char(0, n)
        },
    }
}

/// Number of path components: maximal runs of characters free of the
/// separator.
pub open spec fn seg_start(p: Seq<char>, i: int) -> bool {
    &&& 0 <= i < p.len()
    &&& p[i] != '/'
    &&& (i == 0 || p[i - 1] == '/')
}

pub open spec fn depth_upto(p: Seq<char>, n: int) -> nat
    decreases n,
{
    if n <= 0 {
        0
    } else {
        (depth_upto(p, n - 1) + (if seg_start(p, n - 1) {
            1nat
        } else {
            0nat
        })) as nat
    }
}

/// The depth of a path: how many components it holds.
pub open spec fn depth_of(p: Seq<char>) -> nat {
    depth_upto(p, p.len() as int)
}

/// Counts the components of `p`.
pub fn path_depth(p: &str) -> (r: usize)
    ensures
        r as nat == depth_of(p@),
{
    let n = p.unicode_len();
    let mut count: usize = 0;
    let mut i: usize = 0;
    let mut prev_slash = true;
    while i < n
        invariant
            i <= n,
            n == p@.len(),
            count as nat == depth_upto(p@, i as int),
            count <= i,
            prev_slash == (i == 0 || p@[i - 1] == '/'),
        decreases n - i,
    {
        let c = p.get_char(i);
        if c != '/' && prev_slash {
            count += 1;
        }
        prev_slash = c == '/';
        i += 1;
    }
    count
}

/// Destination directory for extracting the archive at `path`: the file
/// name's stem without its four-character container extension, suffixed with
/// `_unzipped`, in the same directory as the archive.  Nothing is returned
/// when the stem is too short to carry that extension.
pub open spec fn dest_of(path: Seq<char>) -> Option<Seq<char>> {
    let stem = stem_spec(file_name_spec(path));
    if stem.len() < 4 {
        None
    } else {
        Some(dir_prefix_spec(path) + stem.subrange(0, stem.len() - 4) + "_unzipped"@)
    }
}

/// Computes the extraction destination for the archive at `path`.
pub fn extraction_destination(path: &str) -> (r: Option<String>)
    ensures
        r is Some <==> dest_of(path@) is Some,
        r matches Some(s) ==> Some(s@) == dest_of(path@),
{
    let name = file_name_of(path);
    let name_len = name.unicode_len();
    let stem = match find_last(name, '.') {
        Some(d) => {
            if d > 0 {
                name.substring_char(0, d)
            } else {
                proof {
                    assert(name@.subrange(0, name_len as int) =~= name@);
                }
                name.substring_char(0, name_len)
            }
        },
        None => {
            proof {
                assert(name@.subrange(0, name_len as int) =~= name@);
            }
            name.substring_char(0, name_len)
        },
    };
    assert(stem@ == stem_spec(file_name_spec(path@)));
    let stem_len = stem.unicode_len();
    if stem_len < 4 {
        return None;
    }
    let core_part = stem.substring_char(0, stem_len - 4);
    let prefix = match find_last(path, '/') {
        Some(i) => path.substring_char(0, i + 1),
        None => {
            proof {
                reveal_strlit("");
                assert(""@ =~= dir_prefix_spec(path@));
            }
            ""
        },
    };
    let mut out = String::from_str(prefix);
    out.append(core_part);
    out.append("_unzipped");
    proof {
        assert(out@ =~= dir_prefix_spec(path@) + stem_spec(file_name_spec(path@)).subrange(
            0,
            stem_spec(file_name_spec(path@)).len() - 4,
        ) + "_unzipped"@);
    }
    Some(out)
}

} // verus!
