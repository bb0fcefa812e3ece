//! What a model's manifest tells about the model and its voices.

use crate::errors::BeatriceError;
use crate::sample::Scalar;
use crate::text::decimal;
use crate::text::decimal_string;
use crate::toml_tree::toml_document;
use crate::toml_tree::TomlValue;
use std::collections::HashMap;
use vstd::prelude::*;
use vstd::string::*;

verus! {

/// The `model` table of a manifest.
#[derive(Debug)]
pub struct ModelInfo {
    pub version: String,
    pub name: String,
    pub description: String,
}

/// The `portrait` table of a voice.
#[derive(Debug)]
pub struct Portrait {
    pub path: String,
    pub description: String,
}

/// One entry of the `voice` table of a manifest.
#[derive(Debug)]
pub struct Voice {
    pub name: String,
    pub description: String,
    /// Average pitch of the voice, as a bit pattern.
    pub average_pitch: Scalar,
    pub portrait: Option<Portrait>,
}

/// A manifest.
#[derive(Debug)]
pub struct BeatriceToml {
    pub model: ModelInfo,
    /// The voices by their index.
    pub voice: HashMap<u32, Voice>,
}

/// What the model browser shows of one voice.
#[derive(Debug)]
pub struct BeatriceVoiceInfo {
    pub name: String,
    pub description: String,
    /// Average pitch of the voice, as a bit pattern.
    pub average_pitch: Scalar,
    pub portrait_path: Option<String>,
    pub portrait_description: Option<String>,
}

/// What the model browser shows of one model.
#[derive(Debug)]
pub struct BeatriceModelInfo {
    pub model_path: String,
    pub version: String,
    pub name: String,
    pub description: String,
    pub voices: Vec<BeatriceVoiceInfo>,
}

/// Why a manifest tells nothing of a model.
#[derive(Debug)]
pub enum ManifestError {
    /// The text is no TOML document; the text is the parser's message.
    Syntax(String),
    /// The document has no `model` table.
    MissingModel,
    /// The document has no `voice` table.
    MissingVoice,
    /// A table lacks a key.
    MissingKey(String),
}

/// The content of a `BeatriceVoiceInfo`.
pub struct VoiceInfoView {
    pub name: Seq<char>,
    pub description: Seq<char>,
    pub average_pitch: Scalar,
    pub portrait_path: Option<Seq<char>>,
    pub portrait_description: Option<Seq<char>>,
}

/// The content of a `BeatriceModelInfo`.
pub struct ModelInfoView {
    pub model_path: Seq<char>,
    pub version: Seq<char>,
    pub name: Seq<char>,
    pub description: Seq<char>,
    pub voices: Seq<VoiceInfoView>,
}

/// The content of a `ManifestError`, but for the parser's message.
pub enum ManifestFault {
    Syntax,
    MissingModel,
    MissingVoice,
    MissingKey(Seq<char>),
}

impl View for BeatriceVoiceInfo {
    type V = VoiceInfoView;

    open spec fn view(&self) -> VoiceInfoView {
        VoiceInfoView {
            name: self.name@,
            description: self.description@,
            average_pitch: self.average_pitch,
            portrait_path: match self.portrait_path {
                Some(p) => Some(p@),
                None => None,
            },
            portrait_description: match self.portrait_description {
                Some(p) => Some(p@),
                None => None,
            },
        }
    }
}

impl View for BeatriceModelInfo {
    type V = ModelInfoView;

    open spec fn view(&self) -> ModelInfoView {
        ModelInfoView {
            model_path: self.model_path@,
            version: self.version@,
            name: self.name@,
            description: self.description@,
            voices: Seq::new(self.voices@.len(), |i: int| self.voices@[i]@),
        }
    }
}

impl View for ManifestError {
    type V = ManifestFault;

    open spec fn view(&self) -> ManifestFault {
        match self {
            ManifestError::Syntax(_) => ManifestFault::Syntax,
            ManifestError::MissingModel => ManifestFault::MissingModel,
            ManifestError::MissingVoice => ManifestFault::MissingVoice,
            ManifestError::MissingKey(key) => ManifestFault::MissingKey(key@),
        }
    }
}

impl ManifestError {
    /// The text shown for this error.
    pub open spec fn spec_message(self) -> Seq<char> {
        match self {
            ManifestError::Syntax(m) => m@,
            ManifestError::MissingModel => "key: 'model' not found"@,
            ManifestError::MissingVoice => "key: 'voice' not found"@,
            ManifestError::MissingKey(key) => "Key: '"@ + key@ + "' not found"@,
        }
    }

    /// The text shown for this error.
    pub fn to_string(&self) -> (s: String)
        ensures
            s@ == self.spec_message(),
    {
        match self {
            ManifestError::Syntax(m) => m.clone(),
            ManifestError::MissingModel => String::from_str("key: 'model' not found"),
            ManifestError::MissingVoice => String::from_str("key: 'voice' not found"),
            ManifestError::MissingKey(key) => String::from_str("Key: '").concat(
                key.as_str(),
            ).concat("' not found"),
        }
    }
}

/// The text under a key of a table: the key must be there; a value that is
/// no string counts as the empty text.
pub open spec fn spec_text(table: TomlValue, key: Seq<char>) -> Result<Seq<char>, ManifestFault> {
    match table.spec_get(key) {
        None => Err(ManifestFault::MissingKey(key)),
        Some(value) => Ok(
            match value.spec_as_str() {
                Some(text) => text,
                None => Seq::empty(),
            },
        ),
    }
}

/// What a voice's table tells of the voice. Name, description and average
/// pitch must be there; an average pitch that is no float counts as zero.
/// The portrait is optional, but a portrait must have a path and a
/// description.
pub open spec fn spec_voice(voice: TomlValue) -> Result<VoiceInfoView, ManifestFault> {
    match spec_text(voice, "name"@) {
        Err(fault) => Err(fault),
        Ok(name) => match spec_text(voice, "description"@) {
            Err(fault) => Err(fault),
            Ok(description) => match spec_portrait(voice) {
                Err(fault) => Err(fault),
                Ok(portrait) => match voice.spec_get("average_pitch"@) {
                    None => Err(ManifestFault::MissingKey("average_pitch"@)),
                    Some(pitch) => Ok(
                        VoiceInfoView {
                            name,
                            description,
                            average_pitch: match pitch.spec_as_float() {
                                Some(bits) => bits,
                                None => 0,
                            },
                            portrait_path: match portrait {
                                Some(p) => Some(p.0),
                                None => None,
                            },
                            portrait_description: match portrait {
                                Some(p) => Some(p.1),
                                None => None,
                            },
                        },
                    ),
                },
            },
        },
    }
}

/// Path and description of a voice's portrait, if the voice has one.
pub open spec fn spec_portrait(voice: TomlValue) -> Result<
    Option<(Seq<char>, Seq<char>)>,
    ManifestFault,
> {
    match voice.spec_get("portrait"@) {
        None => Ok(None),
        Some(portrait) => match spec_text(portrait, "path"@) {
            Err(fault) => Err(fault),
            Ok(path) => match spec_text(portrait, "description"@) {
                Err(fault) => Err(fault),
                Ok(description) => Ok(Some((path, description))),
            },
        },
    }
}

/// The voices of a voice table from index `from` on, after `found`: the
/// voices under the keys `from`, `from + 1` and so on in decimal digits, up
/// to the first key that the table lacks, and no more than `limit` in all.
pub open spec fn spec_collect_voices(
    table: TomlValue,
    from: nat,
    limit: nat,
    found: Seq<VoiceInfoView>,
) -> Result<Seq<VoiceInfoView>, ManifestFault>
    decreases limit - from,
{
    if from >= limit {
        Ok(found)
    } else {
        match table.spec_get(decimal(from)) {
            None => Ok(found),
            Some(voice) => match spec_voice(voice) {
                Err(fault) => Err(fault),
                Ok(info) => spec_collect_voices(table, from + 1, limit, found.push(info)),
            },
        }
    }
}

/// The voices of a voice table: those under the keys 0, 1, 2 and so on, up
/// to the first that the table lacks.
pub open spec fn spec_voices(table: TomlValue) -> Result<Seq<VoiceInfoView>, ManifestFault> {
    spec_collect_voices(table, 0, table.spec_entry_count(), Seq::empty())
}

/// What a manifest's document tells of the model in `model_path`.
pub open spec fn spec_model_info(model_path: Seq<char>, document: TomlValue) -> Result<
    ModelInfoView,
    ManifestFault,
> {
    match document.spec_get("model"@) {
        None => Err(ManifestFault::MissingModel),
        Some(model) => match spec_text(model, "version"@) {
            Err(fault) => Err(fault),
            Ok(version) => match spec_text(model, "name"@) {
                Err(fault) => Err(fault),
                Ok(name) => match spec_text(model, "description"@) {
                    Err(fault) => Err(fault),
                    Ok(description) => match document.spec_get("voice"@) {
                        None => Err(ManifestFault::MissingVoice),
                        Some(voice_table) => match spec_voices(voice_table) {
                            Err(fault) => Err(fault),
                            Ok(voices) => Ok(
                                ModelInfoView { model_path, version, name, description, voices },
                            ),
                        },
                    },
                },
            },
        },
    }
}

/// The version that a manifest's document gives for its model: the value of
/// `version` in the `model` table, or the word `None` where that value is no
/// string. A document without it cannot be loaded.
pub open spec fn spec_model_version(document: TomlValue) -> Option<Seq<char>> {
    match document.spec_get("model"@) {
        None => None,
        Some(model) => match model.spec_get("version"@) {
            None => None,
            Some(version) => Some(
                match version.spec_as_str() {
                    Some(text) => text,
                    None => "None"@,
                },
            ),
        },
    }
}

/// The text under a key of a table.
pub fn text_of(table: &TomlValue, key: &str) -> (r: Result<String, ManifestError>)
    ensures
        r is Ok <==> spec_text(*table, key@) is Ok,
        r is Ok ==> r->Ok_0@ == spec_text(*table, key@)->Ok_0,
        r is Err ==> r->Err_0@ == spec_text(*table, key@)->Err_0,
{
    match table.get(key) {
        None => Err(ManifestError::MissingKey(String::from_str(key))),
        Some(value) => match value.as_str() {
            Some(text) => Ok(String::from_str(text)),
            None => Ok(String::new()),
        },
    }
}

/// What a voice's table tells of the voice.
pub fn voice_info(voice: &TomlValue) -> (r: Result<BeatriceVoiceInfo, ManifestError>)
    ensures
        r is Ok <==> spec_voice(*voice) is Ok,
        r is Ok ==> r->Ok_0@ == spec_voice(*voice)->Ok_0,
        r is Err ==> r->Err_0@ == spec_voice(*voice)->Err_0,
{
    let name = match text_of(voice, "name") {
        Ok(text) => text,
        Err(error) => return Err(error),
    };
    let description = match text_of(voice, "description") {
        Ok(text) => text,
        Err(error) => return Err(error),
    };
    let mut portrait_path: Option<String> = None;
    let mut portrait_description: Option<String> = None;
    match voice.get("portrait") {
        None => {},
        Some(portrait) => {
            let path = match text_of(portrait, "path") {
                Ok(text) => text,
                Err(error) => return Err(error),
            };
            let description = match text_of(portrait, "description") {
                Ok(text) => text,
                Err(error) => return Err(error),
            };
            portrait_path = Some(path);
            portrait_description = Some(description);
        },
    }
    let average_pitch: Scalar = match voice.get("average_pitch") {
        None => return Err(ManifestError::MissingKey(String::from_str("average_pitch"))),
        Some(pitch) => match pitch.as_float() {
            Some(bits) => bits,
            None => 0,
        },
    };
    Ok(BeatriceVoiceInfo { name, description, average_pitch, portrait_path, portrait_description })
}

/// The content of a list of voices.
pub open spec fn voices_view(voices: Seq<BeatriceVoiceInfo>) -> Seq<VoiceInfoView> {
    Seq::new(voices.len(), |i: int| voices[i]@)
}

/// The voices of a voice table: those under the keys 0, 1, 2 and so on, up
/// to the first that the table lacks.
pub fn voices_of(table: &TomlValue) -> (r: Result<Vec<BeatriceVoiceInfo>, ManifestError>)
    ensures
        r is Ok <==> spec_voices(*table) is Ok,
        r is Ok ==> voices_view(r->Ok_0@) == spec_voices(*table)->Ok_0,
        r is Err ==> r->Err_0@ == spec_voices(*table)->Err_0,
{
    let limit = table.entry_count();
    let mut voices: Vec<BeatriceVoiceInfo> = Vec::new();
    let mut i: usize = 0;
    assert(voices_view(voices@) =~= Seq::<VoiceInfoView>::empty());
    while i < limit
        invariant
            i <= limit,
            limit == table.spec_entry_count(),
            spec_voices(*table) == spec_collect_voices(
                *table,
                i as nat,
                limit as nat,
                voices_view(voices@),
            ),
        decreases limit - i,
    {
        let key = decimal_string(i);
        match table.get(key.as_str()) {
            None => {
                return Ok(voices);
            },
            Some(voice) => {
                match voice_info(voice) {
                    Err(error) => {
                        return Err(error);
                    },
                    Ok(info) => {
                        let ghost before = voices_view(voices@);
                        voices.push(info);
                        assert(voices_view(voices@) =~= before.push(info@));
                    },
                }
            },
        }
        i = i + 1;
    }
    Ok(voices)
}

/// What a manifest's document tells of the model in `model_path`.
pub fn model_info_from(model_path: &str, document: &TomlValue) -> (r: Result<
    BeatriceModelInfo,
    ManifestError,
>)
    ensures
        r is Ok <==> spec_model_info(model_path@, *document) is Ok,
        r is Ok ==> r->Ok_0@ == spec_model_info(model_path@, *document)->Ok_0,
        r is Err ==> r->Err_0@ == spec_model_info(model_path@, *document)->Err_0,
{
    let model = match document.get("model") {
        Some(model) => model,
        None => return Err(ManifestError::MissingModel),
    };
    let version = match text_of(model, "version") {
        Ok(text) => text,
        Err(error) => return Err(error),
    };
    let name = match text_of(model, "name") {
        Ok(text) => text,
        Err(error) => return Err(error),
    };
    let description = match text_of(model, "description") {
        Ok(text) => text,
        Err(error) => return Err(error),
    };
    let voice_table = match document.get("voice") {
        Some(table) => table,
        None => return Err(ManifestError::MissingVoice),
    };
    let voices = match voices_of(voice_table) {
        Ok(voices) => voices,
        Err(error) => return Err(error),
    };
    let info = BeatriceModelInfo {
        model_path: String::from_str(model_path),
        version,
        name,
        description,
        voices,
    };
    Ok(info)
}

/// Reads a manifest's text and tells what it says of the model in
/// `model_path`. A text that is no TOML document is a syntax error; for a
/// document the outcome is that of `model_info_from`.
pub fn parse_model_toml(model_path: &str, data: &str) -> (r: Result<
    BeatriceModelInfo,
    ManifestError,
>)
    ensures
        toml_document(data@) is None ==> r is Err && r->Err_0@ == ManifestFault::Syntax,
        toml_document(data@) is Some ==> {
            &&& r is Ok <==> spec_model_info(model_path@, toml_document(data@)->0) is Ok
            &&& r is Ok ==> r->Ok_0@ == spec_model_info(model_path@, toml_document(data@)->0)->Ok_0
            &&& r is Err ==> r->Err_0@ == spec_model_info(
                model_path@,
                toml_document(data@)->0,
            )->Err_0
        },
{
    match TomlValue::parse(data) {
        Err(message) => Err(ManifestError::Syntax(message)),
        Ok(document) => model_info_from(model_path, &document),
    }
}

/// The version that a manifest's document gives for its model. A document
/// without a `version` in a `model` table cannot be loaded.
pub fn model_version_from(document: &TomlValue) -> (r: Result<String, BeatriceError>)
    ensures
        r is Ok <==> spec_model_version(*document) is Some,
        r is Ok ==> r->Ok_0@ == spec_model_version(*document)->0,
        r is Err ==> r->Err_0 == BeatriceError::FileOpenError,
{
    let model = match document.get("model") {
        Some(model) => model,
        None => return Err(BeatriceError::FileOpenError),
    };
    let version = match model.get("version") {
        Some(version) => version,
        None => return Err(BeatriceError::FileOpenError),
    };
    match version.as_str() {
        Some(text) => Ok(String::from_str(text)),
        None => Ok(String::from_str("None")),
    }
}

/// Reads a manifest's text and gives the version of its model. A text that
/// is no TOML document is refused with the parser's message.
pub fn internal_get_model_version(data: &str) -> (r: Result<String, BeatriceError>)
    ensures
        toml_document(data@) is None ==> r is Err && r->Err_0 is TomlError,
        toml_document(data@) is Some ==> {
            &&& r is Ok <==> spec_model_version(toml_document(data@)->0) is Some
            &&& r is Ok ==> r->Ok_0@ == spec_model_version(toml_document(data@)->0)->0
            &&& r is Err ==> r->Err_0 == BeatriceError::FileOpenError
        },
{
    match TomlValue::parse(data) {
        Err(message) => Err(BeatriceError::TomlError(message)),
        Ok(document) => model_version_from(&document),
    }
}

/// What the model browser shows of a voice of a manifest.
pub open spec fn spec_voice_shown(voice: Voice) -> VoiceInfoView {
    VoiceInfoView {
        name: voice.name@,
        description: voice.description@,
        average_pitch: voice.average_pitch,
        portrait_path: match voice.portrait {
            Some(p) => Some(p.path@),
            None => None,
        },
        portrait_description: match voice.portrait {
            Some(p) => Some(p.description@),
            None => None,
        },
    }
}

/// The voices of a manifest from index `from` on, after `found`: the voices
/// with the indices `from`, `from + 1` and so on, up to the first index that
/// the manifest lacks.
pub open spec fn spec_listed_voices(
    voice: Map<u32, Voice>,
    from: nat,
    found: Seq<VoiceInfoView>,
) -> Seq<VoiceInfoView>
    decreases 0x1_0000_0000 - from,
{
    if from >= 0x1_0000_0000 || !voice.dom().contains(from as u32) {
        found
    } else {
        spec_listed_voices(voice, from + 1, found.push(spec_voice_shown(voice[from as u32])))
    }
}

/// What the model browser shows of a voice of a manifest.
pub fn voice_shown(voice: &Voice) -> (info: BeatriceVoiceInfo)
    ensures
        info@ == spec_voice_shown(*voice),
{
    let mut portrait_path: Option<String> = None;
    let mut portrait_description: Option<String> = None;
    match &voice.portrait {
        Some(portrait) => {
            portrait_path = Some(portrait.path.clone());
            portrait_description = Some(portrait.description.clone());
        },
        None => {},
    }
    BeatriceVoiceInfo {
        name: voice.name.clone(),
        description: voice.description.clone(),
        average_pitch: voice.average_pitch,
        portrait_path,
        portrait_description,
    }
}

/// The voices of a manifest in the order of their indices: those with the
/// indices 0, 1, 2 and so on, up to the first that the manifest lacks.
pub fn voices_in_order(manifest: &BeatriceToml) -> (voices: Vec<BeatriceVoiceInfo>)
    ensures
        voices_view(voices@) == spec_listed_voices(manifest.voice@, 0, Seq::empty()),
{
    broadcast use vstd::std_specs::hash::group_hash_axioms;

    let mut voices: Vec<BeatriceVoiceInfo> = Vec::new();
    let mut i: u64 = 0;
    assert(voices_view(voices@) =~= Seq::<VoiceInfoView>::empty());
    while i < 0x1_0000_0000
        invariant
            i <= 0x1_0000_0000,
            spec_listed_voices(manifest.voice@, 0, Seq::empty()) == spec_listed_voices(
                manifest.voice@,
                i as nat,
                voices_view(voices@),
            ),
        decreases 0x1_0000_0000 - i,
    {
        let key: u32 = i as u32;
        match manifest.voice.get(&key) {
            None => {
                return voices;
            },
            Some(voice) => {
                let ghost before = voices_view(voices@);
                voices.push(voice_shown(voice));
                assert(voices_view(voices@) =~= before.push(spec_voice_shown(*voice)));
            },
        }
        i = i + 1;
    }
    voices
}

/// What the model browser shows of the model in `model_path` with this
/// manifest.
pub fn model_info_of(model_path: &str, manifest: &BeatriceToml) -> (info: BeatriceModelInfo)
    ensures
        info@ == (ModelInfoView {
            model_path: model_path@,
            version: manifest.model.version@,
            name: manifest.model.name@,
            description: manifest.model.description@,
            voices: spec_listed_voices(manifest.voice@, 0, Seq::empty()),
        }),
{
    let voices = voices_in_order(manifest);
    let info = BeatriceModelInfo {
        model_path: String::from_str(model_path),
        version: manifest.model.version.clone(),
        name: manifest.model.name.clone(),
        description: manifest.model.description.clone(),
        voices,
    };
    info
}

} // verus!
