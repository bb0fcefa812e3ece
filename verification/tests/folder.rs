use beatrice_lib::browse::beatrice_get_model_from_path;
use beatrice_lib::browse::beatrice_search_model;
use beatrice_lib::folder::find_manifest;
use beatrice_lib::folder::has_entry;
use beatrice_lib::folder::is_manifest_name;
use beatrice_lib::folder::is_model_folder;
use beatrice_lib::folder::model_manifest;
use beatrice_lib::folder::search_model_folders;
use beatrice_lib::folder::Folder;
use beatrice_lib::folder::FolderEntry;
use beatrice_lib::folder::ModelFolder;
use beatrice_lib::manifest::BeatriceToml;
use beatrice_lib::manifest::ModelInfo;
use std::collections::HashMap;

fn entries(names: &[&str]) -> Vec<FolderEntry> {
    names.iter().map(|n| FolderEntry { name: n.to_string(), is_file: true }).collect()
}

const EARLIER: [&str; 5] = [
    "formant_shift_embeddings.bin",
    "phone_extractor.bin",
    "pitch_estimator.bin",
    "speaker_embeddings.bin",
    "waveform_generator.bin",
];

const NEWEST: [&str; 4] =
    ["speaker_embeddings.bin", "waveform_generator.bin", "embedding_setter.bin", "pitch_estimator.bin"];

#[test]
fn manifest_names() {
    assert!(is_manifest_name("beatrice.toml"));
    assert!(is_manifest_name("a.toml"));
    assert!(is_manifest_name("a.b.toml"));
    assert!(is_manifest_name("..toml"));
    assert!(!is_manifest_name(".toml"));
    assert!(!is_manifest_name("toml"));
    assert!(!is_manifest_name("a.TOML"));
    assert!(!is_manifest_name("a.toml.bak"));
    assert!(!is_manifest_name("atoml"));
    assert!(!is_manifest_name(""));
}

#[test]
fn first_manifest_file_is_found() {
    let mut list = entries(&["readme.md", "b.toml", "a.toml"]);
    assert_eq!(find_manifest(&list), Some(1));
    list[1].is_file = false;
    assert_eq!(find_manifest(&list), Some(2));
    list[2].is_file = false;
    assert_eq!(find_manifest(&list), None);
    assert_eq!(find_manifest(&Vec::new()), None);
}

#[test]
fn model_folder_needs_the_files_of_a_generation() {
    assert!(is_model_folder(&entries(&EARLIER)));
    assert!(is_model_folder(&entries(&NEWEST)));
    for skip in 0..5 {
        let partial: Vec<&str> =
            EARLIER.iter().enumerate().filter(|(i, _)| *i != skip).map(|(_, n)| *n).collect();
        // without the formant shift file or the phone extractor the rest is still no model of
        // the newest generation: the embedding setter is missing
        assert!(!is_model_folder(&entries(&partial)));
    }
    for skip in 0..4 {
        let partial: Vec<&str> =
            NEWEST.iter().enumerate().filter(|(i, _)| *i != skip).map(|(_, n)| *n).collect();
        assert!(!is_model_folder(&entries(&partial)));
    }
    assert!(!is_model_folder(&Vec::new()));
    assert!(has_entry(&entries(&EARLIER), "phone_extractor.bin"));
    assert!(!has_entry(&entries(&NEWEST), "phone_extractor.bin"));
}

#[test]
fn model_manifest_needs_files_and_manifest() {
    let mut with = entries(&NEWEST);
    with.push(FolderEntry { name: "m.toml".to_string(), is_file: true });
    assert_eq!(model_manifest(&with), Some(4));
    assert_eq!(model_manifest(&entries(&NEWEST)), None);
    assert_eq!(model_manifest(&entries(&["m.toml"])), None);
}

#[test]
fn search_picks_model_folders_in_order() {
    let mut newest = entries(&NEWEST);
    newest.insert(0, FolderEntry { name: "x.toml".to_string(), is_file: true });
    let mut earlier = entries(&EARLIER);
    earlier.push(FolderEntry { name: "y.toml".to_string(), is_file: true });
    let folders = vec![
        Folder { path: "a".to_string(), is_dir: true, entries: entries(&["x.toml"]) },
        Folder { path: "b".to_string(), is_dir: true, entries: newest },
        Folder { path: "c".to_string(), is_dir: false, entries: entries(&EARLIER) },
        Folder { path: "d".to_string(), is_dir: true, entries: entries(&EARLIER) },
        Folder { path: "e".to_string(), is_dir: true, entries: earlier },
    ];
    assert_eq!(
        search_model_folders(&folders),
        vec![ModelFolder { folder: 1, manifest: 0 }, ModelFolder { folder: 4, manifest: 5 }]
    );
    assert!(search_model_folders(&Vec::new()).is_empty());
}

fn model_folder(path: &str, manifest: &str) -> Folder {
    let mut list = entries(&NEWEST);
    list.push(FolderEntry { name: manifest.to_string(), is_file: true });
    Folder { path: path.to_string(), is_dir: true, entries: list }
}

const GOOD: &str = "[model]\nversion = \"2.0.0-rc.0\"\nname = \"n\"\ndescription = \"d\"\n[voice]\n";

#[test]
fn search_lists_the_models_of_readable_manifests() {
    let folders = vec![
        model_folder("a", "a.toml"),
        Folder { path: "junk".to_string(), is_dir: true, entries: entries(&["x.toml"]) },
        model_folder("b", "b.toml"),
        model_folder("c", "c.toml"),
    ];
    let models = beatrice_search_model(&folders, |folder: &String, manifest: &String| {
        assert_eq!(format!("{folder}.toml"), *manifest);
        if folder == "b" {
            Ok("no manifest at all".to_string())
        } else {
            Ok(GOOD.to_string())
        }
    })
    .unwrap();
    assert_eq!(models.len(), 2);
    assert_eq!(models[0].model_path, "a");
    assert_eq!(models[1].model_path, "c");
    assert_eq!(models[0].version, "2.0.0-rc.0");
}

#[test]
fn search_ends_at_a_manifest_that_cannot_be_read() {
    let folders = vec![model_folder("a", "a.toml"), model_folder("b", "b.toml"), model_folder("c", "c.toml")];
    let r = beatrice_search_model(&folders, |folder: &String, _manifest: &String| {
        if folder == "b" {
            Err("permission denied".to_string())
        } else if folder == "c" {
            panic!("the search has ended before")
        } else {
            Ok(GOOD.to_string())
        }
    });
    assert_eq!(r.err(), Some("permission denied".to_string()));
}

#[test]
fn model_of_one_folder() {
    let folder = model_folder("m", "beatrice.toml");
    let info = beatrice_get_model_from_path("m", &folder.entries, |name: &String| {
        assert_eq!(name, "beatrice.toml");
        Some(BeatriceToml {
            model: ModelInfo {
                version: "2.0.0-rc.0".to_string(),
                name: "name".to_string(),
                description: "description".to_string(),
            },
            voice: HashMap::new(),
        })
    })
    .unwrap();
    assert_eq!(info.model_path, "m");
    assert_eq!(info.name, "name");
    assert!(info.voices.is_empty());
    assert!(beatrice_get_model_from_path("m", &folder.entries, |_name: &String| None).is_none());
    assert!(beatrice_get_model_from_path("m", &entries(&NEWEST), |_name: &String| panic!("no manifest"))
        .is_none());
    assert!(beatrice_get_model_from_path("m", &entries(&["a.toml"]), |_name: &String| panic!("no model"))
        .is_none());
}
