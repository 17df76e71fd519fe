//! The model store: where each recognition model lives on disk, which
//! ones are present, and the catalogue handed to the interface. Only the
//! existence probe touches the file system; every path is built and every
//! decision taken here.

use vstd::prelude::*;

use crate::types::{
    model_display_name_spec, model_file_name_spec, model_size_bytes_spec,
    parakeet_model_name_spec, vosk_model_name_spec, ModelSize, ParakeetModelSize, VoskLanguage,
};

verus! {

/// Relies on std's `Path::exists`: whether a file or directory exists at
/// this path right now. The answer depends on the disk, so nothing is
/// promised of it.
#[verifier::external_body]
pub(crate) fn file_exists(path: &str) -> bool {
    std::path::Path::new(path).exists()
}

/// `dir` and `name` joined with a single separator.
pub fn join_path(dir: &str, name: &str) -> (r: String)
    ensures
        r@ == dir@ + "/"@ + name@,
{
    let r = String::from_str(dir).concat("/").concat(name);
    proof {
        assert(r@ =~= dir@ + "/"@ + name@);
    }
    r
}

/// The catalogue position of a speech-model size.
pub open spec fn model_rank(size: ModelSize) -> int {
    match size {
        ModelSize::Tiny => 0,
        ModelSize::Small => 1,
        ModelSize::Medium => 2,
    }
}

/// The catalogue position of an offline-model language.
pub open spec fn vosk_rank(lang: VoskLanguage) -> int {
    match lang {
        VoskLanguage::En => 0, VoskLanguage::Fr => 1, VoskLanguage::De => 2,
        VoskLanguage::Es => 3, VoskLanguage::It => 4, VoskLanguage::Ru => 5,
        VoskLanguage::Zh => 6, VoskLanguage::Ja => 7, VoskLanguage::Ko => 8,
        VoskLanguage::Pt => 9, VoskLanguage::Nl => 10, VoskLanguage::Pl => 11,
        VoskLanguage::Uk => 12, VoskLanguage::Tr => 13, VoskLanguage::Vi => 14,
        VoskLanguage::Ar => 15, VoskLanguage::Hi => 16, VoskLanguage::Fa => 17,
        VoskLanguage::Ca => 18, VoskLanguage::Cs => 19,
    }
}

/// The speech-model sizes in catalogue order.
fn model_catalog_entry(k: usize) -> (r: ModelSize)
    requires
        k < 3,
    ensures
        model_rank(r) == k as int,
{
    match k {
        0 => ModelSize::Tiny,
        1 => ModelSize::Small,
        _ => ModelSize::Medium,
    }
}

/// The offline-model languages in catalogue order.
fn vosk_catalog_entry(k: usize) -> (r: VoskLanguage)
    requires
        k < 20,
    ensures
        vosk_rank(r) == k as int,
{
    match k {
        0 => VoskLanguage::En, 1 => VoskLanguage::Fr, 2 => VoskLanguage::De,
        3 => VoskLanguage::Es, 4 => VoskLanguage::It, 5 => VoskLanguage::Ru,
        6 => VoskLanguage::Zh, 7 => VoskLanguage::Ja, 8 => VoskLanguage::Ko,
        9 => VoskLanguage::Pt, 10 => VoskLanguage::Nl, 11 => VoskLanguage::Pl,
        12 => VoskLanguage::Uk, 13 => VoskLanguage::Tr, 14 => VoskLanguage::Vi,
        15 => VoskLanguage::Ar, 16 => VoskLanguage::Hi, 17 => VoskLanguage::Fa,
        18 => VoskLanguage::Ca, _ => VoskLanguage::Cs,
    }
}

/// One row of the model catalogue as handed to the interface.
#[derive(Debug, Clone)]
pub struct ModelInfo {
    pub size: ModelSize,
    pub display_name: String,
    pub available: bool,
    pub size_bytes: u64,
}

/// Knows where models live: the user's model directory, and optionally a
/// directory of models bundled with the application.
pub struct ModelManager {
    models_dir: String,
    bundled_model_path: Option<String>,
}

impl ModelManager {
    /// The directory downloaded models live in.
    pub closed spec fn models_dir_spec(&self) -> Seq<char> {
        self.models_dir@
    }

    /// The directory of bundled models, if the build carries one.
    pub closed spec fn bundled_spec(&self) -> Option<Seq<char>> {
        match self.bundled_model_path {
            Option::None => None,
            Option::Some(ref p) => Some(p@),
        }
    }

    /// A manager rooted in the application's data directory.
    pub fn new(app_data_dir: String, bundled_model_path: Option<String>) -> (m: ModelManager)
        ensures
            m.models_dir_spec() == app_data_dir@ + "/models"@,
            m.bundled_spec() == match bundled_model_path {
                Option::None => None::<Seq<char>>,
                Option::Some(p) => Some(p@),
            },
    {
        let models_dir = app_data_dir.concat("/models");
        ModelManager { models_dir, bundled_model_path }
    }

    /// The path the model of this size is stored under, if it is present:
    /// for the smallest size the bundled copy is preferred, otherwise the
    /// user's model directory is probed.
    pub fn get_model_path(&self, size: ModelSize) -> (r: Option<String>)
        ensures
            match r {
                Option::Some(p) => (size == ModelSize::Tiny && self.bundled_spec() is Some
                        && p@ == self.bundled_spec()->0 + "/"@ + model_file_name_spec(size))
                    || p@ == self.models_dir_spec() + "/"@ + model_file_name_spec(size),
                Option::None => true,
            },
    {
        if matches!(size, ModelSize::Tiny) {
            if let Option::Some(ref bundled) = self.bundled_model_path {
                let candidate = join_path(bundled.as_str(), size.file_name());
                if file_exists(candidate.as_str()) {
                    return Some(candidate);
                }
            }
        }
        let user_model = join_path(self.models_dir.as_str(), size.file_name());
        if file_exists(user_model.as_str()) {
            Some(user_model)
        } else {
            None
        }
    }

    /// Is the model of this size present on disk?
    pub fn is_model_available(&self, size: ModelSize) -> bool {
        self.get_model_path(size).is_some()
    }

    /// The sizes whose model is present, in catalogue order, without
    /// repetition; which of them appear depends on the disk.
    pub fn available_models(&self) -> (r: Vec<ModelSize>)
        ensures
            forall|a: int, b: int| 0 <= a < b < r@.len()
                ==> model_rank(r@[a]) < model_rank(r@[b]),
            r@.len() <= 3,
    {
        let mut r: Vec<ModelSize> = Vec::new();
        let mut k: usize = 0;
        while k < 3
            invariant
                k <= 3,
                r@.len() <= k,
                forall|a: int| 0 <= a < r@.len() ==> model_rank(r@[a]) < k as int,
                forall|a: int, b: int| 0 <= a < b < r@.len()
                    ==> model_rank(r@[a]) < model_rank(r@[b]),
            decreases 3 - k,
        {
            let size = model_catalog_entry(k);
            if self.is_model_available(size) {
                r.push(size);
            }
            k = k + 1;
        }
        r
    }

    /// The whole catalogue with each row's availability, in order.
    pub fn model_infos(&self) -> (r: Vec<ModelInfo>)
        ensures
            r@.len() == 3,
            forall|k: int| 0 <= k < 3 ==> model_rank((#[trigger] r@[k]).size) == k,
            forall|k: int| 0 <= k < 3
                ==> (#[trigger] r@[k]).display_name@ == model_display_name_spec(r@[k].size),
            forall|k: int| 0 <= k < 3
                ==> (#[trigger] r@[k]).size_bytes == model_size_bytes_spec(r@[k].size),
    {
        let mut r: Vec<ModelInfo> = Vec::new();
        let mut k: usize = 0;
        while k < 3
            invariant
                k <= 3,
                r@.len() == k,
                forall|q: int| 0 <= q < k ==> model_rank((#[trigger] r@[q]).size) == q,
                forall|q: int| 0 <= q < k
                    ==> (#[trigger] r@[q]).display_name@
                        == model_display_name_spec(r@[q].size),
                forall|q: int| 0 <= q < k
                    ==> (#[trigger] r@[q]).size_bytes == model_size_bytes_spec(r@[q].size),
            decreases 3 - k,
        {
            let size = model_catalog_entry(k);
            let info = ModelInfo {
                size,
                display_name: String::from_str(size.display_name()),
                available: self.is_model_available(size),
                size_bytes: size.size_bytes(),
            };
            r.push(info);
            k = k + 1;
        }
        r
    }

    /// The directory an offline model for this language is stored under,
    /// if present.
    pub fn get_vosk_model_path(&self, language: VoskLanguage) -> (r: Option<String>)
        ensures
            match r {
                Option::Some(p) => p@ == self.models_dir_spec() + "/vosk/"@
                    + vosk_model_name_spec(language),
                Option::None => true,
            },
    {
        let vosk_dir = String::from_str(self.models_dir.as_str())
            .concat("/vosk/")
            .concat(language.model_name());
        proof {
            assert(vosk_dir@ =~= self.models_dir_spec() + "/vosk/"@
                + vosk_model_name_spec(language));
        }
        if file_exists(vosk_dir.as_str()) {
            Some(vosk_dir)
        } else {
            None
        }
    }

    /// Is the offline model for this language present on disk?
    pub fn is_vosk_model_available(&self, language: VoskLanguage) -> bool {
        self.get_vosk_model_path(language).is_some()
    }

    /// The languages whose offline model is present, in catalogue order,
    /// without repetition; which of them appear depends on the disk.
    pub fn available_vosk_models(&self) -> (r: Vec<VoskLanguage>)
        ensures
            forall|a: int, b: int| 0 <= a < b < r@.len()
                ==> vosk_rank(r@[a]) < vosk_rank(r@[b]),
            r@.len() <= 20,
        {
        let mut r: Vec<VoskLanguage> = Vec::new();
        let mut k: usize = 0;
        while k < 20
            invariant
                k <= 20,
                r@.len() <= k,
                forall|a: int| 0 <= a < r@.len() ==> vosk_rank(r@[a]) < k as int,
                forall|a: int, b: int| 0 <= a < b < r@.len()
                    ==> vosk_rank(r@[a]) < vosk_rank(r@[b]),
            decreases 20 - k,
        {
            let lang = vosk_catalog_entry(k);
            if self.is_vosk_model_available(lang) {
                r.push(lang);
            }
            k = k + 1;
        }
        r
    }

    /// The directory a streaming-engine model is stored under, if present.
    pub fn get_parakeet_model_path(&self, model_size: ParakeetModelSize) -> (r: Option<String>)
        ensures
            match r {
                Option::Some(p) => p@ == self.models_dir_spec() + "/parakeet/"@
                    + parakeet_model_name_spec(model_size),
                Option::None => true,
            },
    {
        let dir = String::from_str(self.models_dir.as_str())
            .concat("/parakeet/")
            .concat(model_size.model_name());
        proof {
            assert(dir@ =~= self.models_dir_spec() + "/parakeet/"@
                + parakeet_model_name_spec(model_size));
        }
        if file_exists(dir.as_str()) {
            Some(dir)
        } else {
            None
        }
    }

    /// Is the streaming-engine model present on disk?
    pub fn is_parakeet_available(&self, model_size: ParakeetModelSize) -> bool {
        self.get_parakeet_model_path(model_size).is_some()
    }

    /// The streaming-engine models present on disk.
    pub fn available_parakeet_models(&self) -> (r: Vec<ParakeetModelSize>)
        ensures
            r@.len() <= 1,
            forall|a: int| 0 <= a < r@.len()
                ==> r@[a] == ParakeetModelSize::Tdt06bV3,
    {
        let mut r: Vec<ParakeetModelSize> = Vec::new();
        if self.is_parakeet_available(ParakeetModelSize::Tdt06bV3) {
            r.push(ParakeetModelSize::Tdt06bV3);
        }
        r
    }
}

} // verus!
