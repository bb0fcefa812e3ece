//! Which folders hold a model.
//!
//! The host lists a folder; this module tells from the names whether the
//! folder holds the parameter files of a model, and which of its files is the
//! manifest.

use crate::text::ends_with;
use crate::text::has_suffix;
use crate::text::str_equal;
use vstd::prelude::*;
use vstd::string::*;

verus! {

/// One entry of a folder.
#[derive(Debug)]
pub struct FolderEntry {
    /// The entry's name, without the folder's path.
    pub name: String,
    /// Whether the entry is a regular file.
    pub is_file: bool,
}

/// A folder with its entries.
#[derive(Debug)]
pub struct Folder {
    pub path: String,
    /// Whether the path leads to a folder at all.
    pub is_dir: bool,
    pub entries: Vec<FolderEntry>,
}

/// A folder that holds a model, and its manifest.
#[derive(Debug, Clone, Copy, PartialEq, Eq, Structural)]
pub struct ModelFolder {
    /// Position of the folder in the list of folders.
    pub folder: usize,
    /// Position of the manifest among the folder's entries.
    pub manifest: usize,
}

/// Whether a file of this name is a manifest: its extension is `toml`.
pub open spec fn spec_is_manifest_name(name: Seq<char>) -> bool {
    has_suffix(name, ".toml"@) && name.len() > 5
}

/// Whether an entry of this name is among `entries`.
pub open spec fn holds(entries: Seq<FolderEntry>, name: Seq<char>) -> bool {
    exists|i: int| 0 <= i < entries.len() && (#[trigger] entries[i]).name@ == name
}

/// Whether the entry at `i` is the first manifest among `entries`.
pub open spec fn is_first_manifest(entries: Seq<FolderEntry>, i: int) -> bool {
    &&& 0 <= i < entries.len()
    &&& entries[i].is_file
    &&& spec_is_manifest_name(entries[i].name@)
    &&& forall|j: int|
        0 <= j < i ==> !((#[trigger] entries[j]).is_file && spec_is_manifest_name(
            entries[j].name@,
        ))
}

/// Whether `entries` has a manifest.
pub open spec fn has_manifest(entries: Seq<FolderEntry>) -> bool {
    exists|i: int|
        0 <= i < entries.len() && (#[trigger] entries[i]).is_file && spec_is_manifest_name(
            entries[i].name@,
        )
}

/// Whether the folder holds the parameter files of the first two generations.
pub open spec fn spec_has_earlier_files(entries: Seq<FolderEntry>) -> bool {
    &&& holds(entries, "formant_shift_embeddings.bin"@)
    &&& holds(entries, "phone_extractor.bin"@)
    &&& holds(entries, "pitch_estimator.bin"@)
    &&& holds(entries, "speaker_embeddings.bin"@)
    &&& holds(entries, "waveform_generator.bin"@)
}

/// Whether the folder holds the parameter files by which the newest
/// generation is told.
pub open spec fn spec_has_newest_files(entries: Seq<FolderEntry>) -> bool {
    &&& holds(entries, "speaker_embeddings.bin"@)
    &&& holds(entries, "waveform_generator.bin"@)
    &&& holds(entries, "embedding_setter.bin"@)
    &&& holds(entries, "pitch_estimator.bin"@)
}

/// Whether the folder holds the parameter files of a model of any generation.
pub open spec fn spec_is_model_folder(entries: Seq<FolderEntry>) -> bool {
    spec_has_earlier_files(entries) || spec_has_newest_files(entries)
}

/// Whether a file of this name is a manifest: its extension is `toml`.
pub fn is_manifest_name(name: &str) -> (b: bool)
    ensures
        b == spec_is_manifest_name(name@),
{
    ends_with(name, ".toml") && name.unicode_len() > 5
}

/// Whether an entry of this name is among `entries`.
pub fn has_entry(entries: &Vec<FolderEntry>, name: &str) -> (b: bool)
    ensures
        b == holds(entries@, name@),
{
    let mut i: usize = 0;
    while i < entries.len()
        invariant
            i <= entries.len(),
            forall|j: int| 0 <= j < i ==> (#[trigger] entries@[j]).name@ != name@,
        decreases entries.len() - i,
    {
        if str_equal(entries[i].name.as_str(), name) {
            return true;
        }
        i = i + 1;
    }
    false
}

/// Whether the folder holds the parameter files of a model of any generation.
pub fn is_model_folder(entries: &Vec<FolderEntry>) -> (b: bool)
    ensures
        b == spec_is_model_folder(entries@),
{
    let earlier = has_entry(entries, "formant_shift_embeddings.bin") && has_entry(
        entries,
        "phone_extractor.bin",
    ) && has_entry(entries, "pitch_estimator.bin") && has_entry(entries, "speaker_embeddings.bin")
        && has_entry(entries, "waveform_generator.bin");
    let newest = has_entry(entries, "speaker_embeddings.bin") && has_entry(
        entries,
        "waveform_generator.bin",
    ) && has_entry(entries, "embedding_setter.bin") && has_entry(entries, "pitch_estimator.bin");
    earlier || newest
}

/// The first regular file among `entries` whose extension is `toml`.
pub fn find_manifest(entries: &Vec<FolderEntry>) -> (r: Option<usize>)
    ensures
        r is Some <==> has_manifest(entries@),
        r is Some ==> is_first_manifest(entries@, r->0 as int),
{
    let mut i: usize = 0;
    while i < entries.len()
        invariant
            i <= entries.len(),
            forall|j: int|
                0 <= j < i ==> !((#[trigger] entries@[j]).is_file && spec_is_manifest_name(
                    entries@[j].name@,
                )),
        decreases entries.len() - i,
    {
        if entries[i].is_file && is_manifest_name(entries[i].name.as_str()) {
            return Some(i);
        }
        i = i + 1;
    }
    None
}

/// The manifest of a folder that holds a model: `None` where the folder
/// lacks the parameter files or has no manifest.
pub fn model_manifest(entries: &Vec<FolderEntry>) -> (r: Option<usize>)
    ensures
        r is Some <==> spec_is_model_folder(entries@) && has_manifest(entries@),
        r is Some ==> is_first_manifest(entries@, r->0 as int),
{
    if !is_model_folder(entries) {
        return None;
    }
    find_manifest(entries)
}

/// Whether the folder at `k` holds a model.
pub open spec fn holds_model(folders: Seq<Folder>, k: int) -> bool {
    &&& folders[k].is_dir
    &&& spec_is_model_folder(folders[k].entries@)
    &&& has_manifest(folders[k].entries@)
}

/// The folders among the first `n` that hold a model, in their order.
pub open spec fn spec_model_folders(folders: Seq<Folder>, n: nat) -> Seq<int>
    decreases n,
{
    if n == 0 {
        Seq::empty()
    } else if holds_model(folders, n - 1) {
        spec_model_folders(folders, (n - 1) as nat).push(n - 1)
    } else {
        spec_model_folders(folders, (n - 1) as nat)
    }
}

/// Picks the folders that hold a model, in their order, each with its
/// manifest. A path that is no folder, a folder without the parameter files
/// and a folder without a manifest are passed over.
pub fn search_model_folders(folders: &Vec<Folder>) -> (found: Vec<ModelFolder>)
    ensures
        found@.len() == spec_model_folders(folders@, folders@.len()).len(),
        forall|i: int|
            0 <= i < found@.len() ==> {
                &&& (#[trigger] found@[i]).folder == spec_model_folders(
                    folders@,
                    folders@.len(),
                )[i]
                &&& found@[i].folder < folders@.len()
                &&& is_first_manifest(
                    folders@[found@[i].folder as int].entries@,
                    found@[i].manifest as int,
                )
            },
{
    let mut found: Vec<ModelFolder> = Vec::new();
    let mut k: usize = 0;
    while k < folders.len()
        invariant
            k <= folders.len(),
            found@.len() == spec_model_folders(folders@, k as nat).len(),
            forall|i: int|
                0 <= i < found@.len() ==> {
                    &&& (#[trigger] found@[i]).folder == spec_model_folders(folders@, k as nat)[i]
                    &&& found@[i].folder < folders@.len()
                    &&& is_first_manifest(
                        folders@[found@[i].folder as int].entries@,
                        found@[i].manifest as int,
                    )
                },
        decreases folders.len() - k,
    {
        let folder = &folders[k];
        if folder.is_dir {
            match model_manifest(&folder.entries) {
                Some(manifest) => {
                    found.push(ModelFolder { folder: k, manifest });
                },
                None => {},
            }
        }
        k = k + 1;
    }
    found
}

/// A folder that lacks a manifest or the parameter files is never picked.
pub proof fn lemma_only_model_folders_found(folders: Seq<Folder>, n: nat, i: int)
    requires
        n <= folders.len(),
        0 <= i < spec_model_folders(folders, n).len(),
    ensures
        0 <= spec_model_folders(folders, n)[i] < n,
        holds_model(folders, spec_model_folders(folders, n)[i]),
    decreases n,
{
    if n > 0 {
        if i < spec_model_folders(folders, (n - 1) as nat).len() {
            lemma_only_model_folders_found(folders, (n - 1) as nat, i);
        }
    }
}

} // verus!
