//! The model browser: which models a folder offers.
//!
//! The host lists the folders and reads the files; what is picked of them
//! and what is shown of each model is decided here.

use crate::folder::find_manifest;
use crate::folder::has_manifest;
use crate::folder::is_first_manifest;
use crate::folder::is_model_folder;
use crate::folder::search_model_folders;
use crate::folder::spec_is_model_folder;
use crate::folder::spec_model_folders;
use crate::folder::Folder;
use crate::folder::FolderEntry;
use crate::folder::ModelFolder;
use crate::manifest::model_info_of;
use crate::manifest::parse_model_toml;
use crate::manifest::spec_listed_voices;
use crate::manifest::spec_model_info;
use crate::manifest::BeatriceModelInfo;
use crate::manifest::BeatriceToml;
use crate::manifest::ModelInfoView;
use crate::toml_tree::toml_document;
use vstd::prelude::*;

verus! {

/// What is shown of the model in a folder whose manifest has this text:
/// nothing where the text is no TOML document or the document lacks what a
/// manifest must have.
pub open spec fn spec_shown(model_path: Seq<char>, text: Seq<char>) -> Option<ModelInfoView> {
    match toml_document(text) {
        None => None,
        Some(document) => match spec_model_info(model_path, document) {
            Ok(info) => Some(info),
            Err(_) => None,
        },
    }
}

/// What is shown of the models in the picked folders whose manifests have
/// these texts, in the order of the folders; a folder whose manifest shows
/// nothing is passed over.
pub open spec fn spec_shown_models(
    folders: Seq<Folder>,
    picked: Seq<ModelFolder>,
    texts: Seq<String>,
) -> Seq<ModelInfoView>
    decreases texts.len(),
{
    if texts.len() == 0 {
        Seq::empty()
    } else {
        let before = spec_shown_models(folders, picked, texts.drop_last());
        let last = texts.len() - 1;
        match spec_shown(folders[picked[last].folder as int].path@, texts.last()@) {
            Some(info) => before.push(info),
            None => before,
        }
    }
}

/// Whether `read` gave `answer` for the manifest of the picked folder at `k`.
pub open spec fn is_read<F: Fn(&String, &String) -> Result<String, String>>(
    read: F,
    folders: Seq<Folder>,
    picked: Seq<ModelFolder>,
    k: int,
    answer: Result<String, String>,
) -> bool {
    call_ensures(
        read,
        (
            &folders[picked[k].folder as int].path,
            &folders[picked[k].folder as int].entries@[picked[k].manifest as int].name,
        ),
        answer,
    )
}

/// The content of a list of models.
pub open spec fn models_view(models: Seq<BeatriceModelInfo>) -> Seq<ModelInfoView> {
    Seq::new(models.len(), |i: int| models[i]@)
}

/// Lists the models in the folders directly under the folder that the user
/// chose. `folders` is what lies under that folder. The folders that hold a
/// model are picked in their order; `read` reads the manifest of each, given
/// the folder's path and the manifest's name. A manifest that cannot be read
/// ends the search with the reader's message; one that can be read but says
/// nothing of a model is passed over.
pub fn beatrice_search_model<F: Fn(&String, &String) -> Result<String, String>>(
    folders: &Vec<Folder>,
    read: F,
) -> (r: Result<Vec<BeatriceModelInfo>, String>)
    requires
        forall|path: String, name: String| call_requires(read, (&path, &name)),
    ensures
        exists|picked: Seq<ModelFolder>, texts: Seq<String>|
            {
                &&& are_picked(folders@, picked)
                &&& #[trigger] are_read(read, folders@, picked, texts)
                &&& r is Ok ==> texts.len() == picked.len() && models_view(r->Ok_0@)
                    == spec_shown_models(folders@, picked, texts)
                &&& r is Err ==> texts.len() < picked.len() && is_read(
                    read,
                    folders@,
                    picked,
                    texts.len() as int,
                    Err(r->Err_0),
                )
            },
{
    let picked = search_model_folders(folders);
    let mut models: Vec<BeatriceModelInfo> = Vec::new();
    let ghost mut texts: Seq<String> = Seq::empty();
    let mut k: usize = 0;
    while k < picked.len()
        invariant
            k <= picked.len(),
            texts.len() == k,
            are_picked(folders@, picked@),
            forall|path: String, name: String| call_requires(read, (&path, &name)),
            forall|h: int|
                0 <= h < k ==> #[trigger] is_read(read, folders@, picked@, h, Ok(texts[h])),
            models_view(models@) == spec_shown_models(folders@, picked@, texts),
        decreases picked.len() - k,
    {
        let found = picked[k];
        let folder = &folders[found.folder];
        let text = match read(&folder.path, &folder.entries[found.manifest].name) {
            Ok(text) => text,
            Err(message) => {
                proof {
                    assert(are_read(read, folders@, picked@, texts));
                }
                return Err(message);
            },
        };
        let ghost before = texts;
        proof {
            texts = before.push(text);
            assert(texts.drop_last() =~= before);
        }
        match parse_model_toml(folder.path.as_str(), text.as_str()) {
            Ok(info) => {
                models.push(info);
            },
            Err(_) => {},
        }
        k = k + 1;
    }
    proof {
        assert(are_read(read, folders@, picked@, texts));
    }
    Ok(models)
}

/// Whether `picked` are the folders among `folders` that hold a model, in
/// their order and each with its first manifest.
pub open spec fn are_picked(folders: Seq<Folder>, picked: Seq<ModelFolder>) -> bool {
    &&& picked.len() == spec_model_folders(folders, folders.len()).len()
    &&& forall|i: int|
        0 <= i < picked.len() ==> {
            &&& (#[trigger] picked[i]).folder == spec_model_folders(folders, folders.len())[i]
            &&& picked[i].folder < folders.len()
            &&& is_first_manifest(folders[picked[i].folder as int].entries@, picked[i].manifest as int)
        }
}

/// Whether `texts` are what `read` gave for the manifests of the first of
/// the picked folders, one after the other.
pub open spec fn are_read<F: Fn(&String, &String) -> Result<String, String>>(
    read: F,
    folders: Seq<Folder>,
    picked: Seq<ModelFolder>,
    texts: Seq<String>,
) -> bool {
    &&& texts.len() <= picked.len()
    &&& forall|k: int|
        0 <= k < texts.len() ==> #[trigger] is_read(read, folders, picked, k, Ok(texts[k]))
}

/// Tells what is shown of the model in one folder. `entries` are the
/// folder's entries; `load` reads the manifest with the given name. Nothing
/// is shown of a folder that lacks the parameter files of a model or a
/// manifest, or whose manifest cannot be read.
pub fn beatrice_get_model_from_path<F: Fn(&String) -> Option<BeatriceToml>>(
    model_folder: &str,
    entries: &Vec<FolderEntry>,
    load: F,
) -> (r: Option<BeatriceModelInfo>)
    requires
        forall|name: String| call_requires(load, (&name,)),
    ensures
        !(spec_is_model_folder(entries@) && has_manifest(entries@)) ==> r is None,
        spec_is_model_folder(entries@) && has_manifest(entries@) ==> exists|
            i: int,
            manifest: Option<BeatriceToml>,
        |
            {
                &&& #[trigger] is_first_manifest(entries@, i)
                &&& #[trigger] call_ensures(load, (&entries@[i].name,), manifest)
                &&& r is Some <==> manifest is Some
                &&& r is Some ==> r->0@ == (ModelInfoView {
                    model_path: model_folder@,
                    version: manifest->0.model.version@,
                    name: manifest->0.model.name@,
                    description: manifest->0.model.description@,
                    voices: spec_listed_voices(manifest->0.voice@, 0, Seq::empty()),
                })
            },
{
    if !is_model_folder(entries) {
        return None;
    }
    let i = match find_manifest(entries) {
        Some(i) => i,
        None => return None,
    };
    let manifest = load(&entries[i].name);
    let r = match &manifest {
        Some(toml) => Some(model_info_of(model_folder, toml)),
        None => None,
    };
    r
}

} // verus!
