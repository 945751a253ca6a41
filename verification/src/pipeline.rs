//! Handling one archive: derive the extraction destination from its path,
//! decode its entries, and pick the entry file to open.  The caller writes
//! the entries to disk under the destination and opens the entry file.

use crate::archive::{
    archive_entries_spec, extract_archive, gunzip_of, tar_entries_of, ArchiveEntry, ExtractError,
};
use crate::config::{glob_matches, Config};
use crate::locate::{is_selected, select_entry};
use crate::paths::{dest_of, extraction_destination};
use vstd::prelude::*;
use vstd::string::StringExecFns;

verus! {

/// Why handling an archive failed.
#[derive(Clone, Debug, PartialEq, Eq)]
pub enum HandleError {
    /// The archive could not be extracted.
    Extraction(ExtractError),
    /// No entry of the extracted tree matches the entry glob; carries the
    /// searched directory.
    NotFound(String),
}

/// What handling an archive is to do: extract `entries` under `dest_dir`,
/// then open `entry_file`.
pub struct ExtractionPlan {
    pub dest_dir: String,
    pub entries: Vec<ArchiveEntry>,
    pub entry_file: String,
}

/// The relative paths of the raw entries, in order.
pub open spec fn entry_paths(raws: Seq<(Seq<char>, u8, Seq<u8>, Option<Seq<char>>)>) -> Seq<
    Seq<char>,
> {
    raws.map_values(|t: (Seq<char>, u8, Seq<u8>, Option<Seq<char>>)| t.0)
}

/// Plans the handling of the archive at `archive_path` whose bytes are
/// `data`: the destination directory, the decoded entries, and the entry
/// file — the destination joined with the first shallowest entry path
/// matching the entry glob.
pub fn plan_extraction(config: &Config, archive_path: &str, data: &Vec<u8>) -> (r: Result<
    ExtractionPlan,
    HandleError,
>)
    ensures
        dest_of(archive_path@) is None ==> (r matches Err(e) && e == HandleError::Extraction(
            ExtractError::BadDestination,
        )),
        dest_of(archive_path@) is Some && gunzip_of(data@) is None ==> (r matches Err(e) && e
            == HandleError::Extraction(ExtractError::BadGzip)),
        dest_of(archive_path@) is Some && gunzip_of(data@) is Some && tar_entries_of(
            gunzip_of(data@)->0,
        ) is None ==> (r matches Err(e) && e == HandleError::Extraction(ExtractError::BadArchive)),
        dest_of(archive_path@) matches Some(d) ==> archive_entries_spec(data@) matches Some(raws)
            ==> {
            let pat = config.entry_glob_spec();
            let ps = entry_paths(raws);
            if exists|k: int| 0 <= k < ps.len() && glob_matches(pat, ps[k]) {
                &&& r matches Ok(plan)
                &&& plan.dest_dir@ == d
                &&& plan.entries@.len() == raws.len()
                &&& forall|i: int| 0 <= i < raws.len() ==> plan.entries@[i].models(raws[i])
                &&& exists|j: int|
                    is_selected(pat, ps, j) && plan.entry_file@ == d + "/"@ + ps[j]
            } else {
                r matches Err(e) && e matches HandleError::NotFound(dir) && dir@ == d
            }
        },
{
    let dest_dir = match extraction_destination(archive_path) {
        Some(d) => d,
        None => {
            return Err(HandleError::Extraction(ExtractError::BadDestination));
        },
    };
    let entries = match extract_archive(data) {
        Ok(es) => es,
        Err(e) => {
            return Err(HandleError::Extraction(e));
        },
    };
    let ghost raws = archive_entries_spec(data@)->0;
    let mut rels: Vec<String> = Vec::new();
    let mut i: usize = 0;
    while i < entries.len()
        invariant
            i <= entries@.len(),
            entries@.len() == raws.len(),
            forall|j: int| 0 <= j < raws.len() ==> entries@[j].models(raws[j]),
            rels@.len() == i,
            forall|j: int| 0 <= j < i ==> rels@[j]@ == raws[j].0,
        decreases entries@.len() - i,
    {
        let rel = entries[i].path.clone();
        proof {
            assert(entries@[i as int].models(raws[i as int]));
        }
        rels.push(rel);
        i += 1;
    }
    proof {
        assert forall|j: int| 0 <= j < raws.len() implies rels.deep_view()[j] == entry_paths(
            raws,
        )[j] by {
            assert(rels.deep_view()[j] == rels@[j]@);
        }
        assert(rels.deep_view() =~= entry_paths(raws));
    }
    match select_entry(config, &rels) {
        Some(j) => {
            proof {
                assert(glob_matches(config.entry_glob_spec(), entry_paths(raws)[j as int]));
            }
            let rel = &rels[j];
            let mut entry_file = dest_dir.clone();
            entry_file.append("/");
            entry_file.append(rel.as_str());
            proof {
                assert(entry_file@ =~= dest_dir@ + "/"@ + entry_paths(raws)[j as int]);
            }
            Ok(ExtractionPlan { dest_dir, entries, entry_file })
        },
        None => Err(HandleError::NotFound(dest_dir)),
    }
}

} // verus!
