//! Shared configuration and catalogue types: dictation modes, engine
//! choices, the model catalogues with their file names, download addresses
//! and sizes, and the application settings record.

use vstd::prelude::*;

use crate::text::{chars_eq, lower, lower_chars, str_to_chars};

verus! {

/// Content context of a dictation session; decides which contextual voice
/// commands the parser recognises.
#[derive(Debug, Clone, Copy, PartialEq, Eq, Structural)]
pub enum DictationMode {
    General,
    Email,
    Code,
    Notes,
}

impl Default for DictationMode {
    fn default() -> (d: Self)
        ensures
            d == DictationMode::General,
    {
        DictationMode::General
    }
}

/// How transcripts are post-processed by a language model.
#[derive(Debug, Clone, Copy, PartialEq, Eq, Structural)]
pub enum LlmMode {
    Off,
    Basic,
    Smart,
    Contextual,
}

impl Default for LlmMode {
    fn default() -> (m: Self)
        ensures
            m == LlmMode::Off,
    {
        LlmMode::Off
    }
}

/// Which service answers language-model requests.
#[derive(Debug, Clone, Copy, PartialEq, Eq, Structural)]
pub enum LlmProvider {
    Groq,
    Local,
}

impl Default for LlmProvider {
    fn default() -> (p: Self)
        ensures
            p == LlmProvider::Groq,
    {
        LlmProvider::Groq
    }
}

/// The local language models on offer.
#[derive(Debug, Clone, Copy, PartialEq, Eq, Structural)]
pub enum LocalLlmModel {
    SmolLM2_360M,
    Phi3Mini,
    Qwen2_5_3B,
}

impl Default for LocalLlmModel {
    fn default() -> (m: Self)
        ensures
            m == LocalLlmModel::Phi3Mini,
    {
        LocalLlmModel::Phi3Mini
    }
}

impl LocalLlmModel {
    /// The file the model is stored under.
    pub fn file_name(&self) -> (r: &'static str)
        ensures
            r@ == match *self {
                LocalLlmModel::SmolLM2_360M => "SmolLM2-360M-Instruct-Q8_0.gguf"@,
                LocalLlmModel::Phi3Mini => "Phi-3-mini-4k-instruct-Q4_K_M.gguf"@,
                LocalLlmModel::Qwen2_5_3B => "qwen2.5-3b-instruct-q4_k_m.gguf"@,
            },
    {
        match self {
            LocalLlmModel::SmolLM2_360M => "SmolLM2-360M-Instruct-Q8_0.gguf",
            LocalLlmModel::Phi3Mini => "Phi-3-mini-4k-instruct-Q4_K_M.gguf",
            LocalLlmModel::Qwen2_5_3B => "qwen2.5-3b-instruct-q4_k_m.gguf",
        }
    }

    /// Where the model is downloaded from.
    pub fn download_url(&self) -> (r: &'static str)
        ensures
            r@ == match *self {
                LocalLlmModel::SmolLM2_360M => "https://huggingface.co/bartowski/SmolLM2-360M-Instruct-GGUF/resolve/main/SmolLM2-360M-Instruct-Q8_0.gguf"@,
                LocalLlmModel::Phi3Mini => "https://huggingface.co/bartowski/Phi-3-mini-4k-instruct-GGUF/resolve/main/Phi-3-mini-4k-instruct-Q4_K_M.gguf"@,
                LocalLlmModel::Qwen2_5_3B => "https://huggingface.co/Qwen/Qwen2.5-3B-Instruct-GGUF/resolve/main/qwen2.5-3b-instruct-q4_k_m.gguf"@,
            },
    {
        match self {
            LocalLlmModel::SmolLM2_360M => "https://huggingface.co/bartowski/SmolLM2-360M-Instruct-GGUF/resolve/main/SmolLM2-360M-Instruct-Q8_0.gguf",
            LocalLlmModel::Phi3Mini => "https://huggingface.co/bartowski/Phi-3-mini-4k-instruct-GGUF/resolve/main/Phi-3-mini-4k-instruct-Q4_K_M.gguf",
            LocalLlmModel::Qwen2_5_3B => "https://huggingface.co/Qwen/Qwen2.5-3B-Instruct-GGUF/resolve/main/qwen2.5-3b-instruct-q4_k_m.gguf",
        }
    }

    /// The approximate size of the model file.
    pub fn size_bytes(&self) -> (r: u64)
        ensures
            r == match *self {
                LocalLlmModel::SmolLM2_360M => 386_000_000u64,
                LocalLlmModel::Phi3Mini => 2_200_000_000u64,
                LocalLlmModel::Qwen2_5_3B => 2_000_000_000u64,
            },
    {
        match self {
            LocalLlmModel::SmolLM2_360M => 386_000_000,
            LocalLlmModel::Phi3Mini => 2_200_000_000,
            LocalLlmModel::Qwen2_5_3B => 2_000_000_000,
        }
    }

    /// The name shown in the interface.
    pub fn display_name(&self) -> (r: &'static str)
        ensures
            r@ == match *self {
                LocalLlmModel::SmolLM2_360M => "SmolLM2 360M (386 MB) - Rapide"@,
                LocalLlmModel::Phi3Mini => "Phi-3 Mini (2.2 GB) - Recommand\u{e9}"@,
                LocalLlmModel::Qwen2_5_3B => "Qwen2.5 3B (2 GB) - Qualit\u{e9}"@,
            },
    {
        match self {
            LocalLlmModel::SmolLM2_360M => "SmolLM2 360M (386 MB) - Rapide",
            LocalLlmModel::Phi3Mini => "Phi-3 Mini (2.2 GB) - Recommand\u{e9}",
            LocalLlmModel::Qwen2_5_3B => "Qwen2.5 3B (2 GB) - Qualit\u{e9}",
        }
    }

    /// The summarisation prompt in each model's own chat format, the text
    /// to summarise spliced in.
    pub fn format_prompt(&self, _instruction: &str, text: &str) -> (r: String)
        ensures
            r@ == match *self {
                LocalLlmModel::SmolLM2_360M =>
                    "<|im_start|>user\nResume ce texte en 2 phrases:\n\n"@ + text@
                        + "<|im_end|>\n<|im_start|>assistant\n"@,
                LocalLlmModel::Phi3Mini =>
                    "<|user|>\nResume ce texte en 2-3 phrases concises en francais:\n\n"@
                        + text@ + "<|end|>\n<|assistant|>\n"@,
                LocalLlmModel::Qwen2_5_3B =>
                    "<|im_start|>user\nResume ce texte en 2-3 phrases concises:\n\n"@
                        + text@ + "<|im_end|>\n<|im_start|>assistant\n"@,
            },
    {
        match self {
            LocalLlmModel::SmolLM2_360M => {
                String::from_str("<|im_start|>user\nResume ce texte en 2 phrases:\n\n")
                    .concat(text)
                    .concat("<|im_end|>\n<|im_start|>assistant\n")
            },
            LocalLlmModel::Phi3Mini => {
                String::from_str(
                    "<|user|>\nResume ce texte en 2-3 phrases concises en francais:\n\n",
                )
                    .concat(text)
                    .concat("<|end|>\n<|assistant|>\n")
            },
            LocalLlmModel::Qwen2_5_3B => {
                String::from_str(
                    "<|im_start|>user\nResume ce texte en 2-3 phrases concises:\n\n",
                )
                    .concat(text)
                    .concat("<|im_end|>\n<|im_start|>assistant\n")
            },
        }
    }
}

/// The speech-model sizes of the default engine.
#[derive(Debug, Clone, Copy, PartialEq, Eq, Structural)]
pub enum ModelSize {
    Tiny,
    Small,
    Medium,
}

impl Default for ModelSize {
    fn default() -> (m: Self)
        ensures
            m == ModelSize::Tiny,
    {
        ModelSize::Tiny
    }
}

/// The file a speech model of this size is stored under.
pub open spec fn model_file_name_spec(size: ModelSize) -> Seq<char> {
    match size {
        ModelSize::Tiny => "ggml-tiny.bin"@,
        ModelSize::Small => "ggml-small.bin"@,
        ModelSize::Medium => "ggml-medium.bin"@,
    }
}

/// The name a speech model of this size is shown under.
pub open spec fn model_display_name_spec(size: ModelSize) -> Seq<char> {
    match size {
        ModelSize::Tiny => "Tiny (75 MB)"@,
        ModelSize::Small => "Small (466 MB)"@,
        ModelSize::Medium => "Medium (1.5 GB)"@,
    }
}

/// The approximate file size of a speech model of this size.
pub open spec fn model_size_bytes_spec(size: ModelSize) -> u64 {
    match size {
        ModelSize::Tiny => 75_000_000u64,
        ModelSize::Small => 466_000_000u64,
        ModelSize::Medium => 1_500_000_000u64,
    }
}

impl ModelSize {
    /// The file the model is stored under.
    pub fn file_name(&self) -> (r: &'static str)
        ensures
            r@ == model_file_name_spec(*self),
    {
        match self {
            ModelSize::Tiny => "ggml-tiny.bin",
            ModelSize::Small => "ggml-small.bin",
            ModelSize::Medium => "ggml-medium.bin",
        }
    }

    /// Where the model is downloaded from.
    pub fn download_url(&self) -> (r: &'static str)
        ensures
            r@ == match *self {
                ModelSize::Tiny => "https://huggingface.co/ggerganov/whisper.cpp/resolve/main/ggml-tiny.bin"@,
                ModelSize::Small => "https://huggingface.co/ggerganov/whisper.cpp/resolve/main/ggml-small.bin"@,
                ModelSize::Medium => "https://huggingface.co/ggerganov/whisper.cpp/resolve/main/ggml-medium.bin"@,
            },
    {
        match self {
            ModelSize::Tiny => "https://huggingface.co/ggerganov/whisper.cpp/resolve/main/ggml-tiny.bin",
            ModelSize::Small => "https://huggingface.co/ggerganov/whisper.cpp/resolve/main/ggml-small.bin",
            ModelSize::Medium => "https://huggingface.co/ggerganov/whisper.cpp/resolve/main/ggml-medium.bin",
        }
    }

    /// The approximate size of the model file.
    pub fn size_bytes(&self) -> (r: u64)
        ensures
            r == match *self {
                ModelSize::Tiny => 75_000_000u64,
                ModelSize::Small => 466_000_000u64,
                ModelSize::Medium => 1_500_000_000u64,
            },
    {
        match self {
            ModelSize::Tiny => 75_000_000,
            ModelSize::Small => 466_000_000,
            ModelSize::Medium => 1_500_000_000,
        }
    }

    /// The name shown in the interface.
    pub fn display_name(&self) -> (r: &'static str)
        ensures
            r@ == match *self {
                ModelSize::Tiny => "Tiny (75 MB)"@,
                ModelSize::Small => "Small (466 MB)"@,
                ModelSize::Medium => "Medium (1.5 GB)"@,
            },
    {
        match self {
            ModelSize::Tiny => "Tiny (75 MB)",
            ModelSize::Small => "Small (466 MB)",
            ModelSize::Medium => "Medium (1.5 GB)",
        }
    }
}

/// The recognition engines on offer.
#[derive(Debug, Clone, Copy, PartialEq, Eq, Structural)]
pub enum EngineType {
    Whisper,
    Parakeet,
    Vosk,
}

impl Default for EngineType {
    fn default() -> (e: Self)
        ensures
            e == EngineType::Whisper,
    {
        EngineType::Whisper
    }
}

impl EngineType {
    /// The name shown in the interface.
    pub fn display_name(&self) -> (r: &'static str)
        ensures
            r@ == match *self {
                EngineType::Whisper => "Whisper"@,
                EngineType::Parakeet => "Parakeet"@,
                EngineType::Vosk => "Vosk"@,
            },
    {
        match self {
            EngineType::Whisper => "Whisper",
            EngineType::Parakeet => "Parakeet",
            EngineType::Vosk => "Vosk",
        }
    }
}

/// The model sizes of the streaming-oriented engine.
#[derive(Debug, Clone, Copy, PartialEq, Eq, Structural)]
pub enum ParakeetModelSize {
    Tdt06bV3,
}

impl Default for ParakeetModelSize {
    fn default() -> (m: Self)
        ensures
            m == ParakeetModelSize::Tdt06bV3,
    {
        ParakeetModelSize::Tdt06bV3
    }
}

/// The directory name of a streaming-engine model.
pub open spec fn parakeet_model_name_spec(size: ParakeetModelSize) -> Seq<char> {
    match size {
        ParakeetModelSize::Tdt06bV3 => "parakeet-tdt-0.6b-v3"@,
    }
}

impl ParakeetModelSize {
    /// The directory the model is stored under.
    pub fn model_name(&self) -> (r: &'static str)
        ensures
            r@ == parakeet_model_name_spec(*self),
    {
        match self {
            ParakeetModelSize::Tdt06bV3 => "parakeet-tdt-0.6b-v3",
        }
    }

    /// The name shown in the interface.
    pub fn display_name(&self) -> (r: &'static str)
        ensures
            r@ == match *self {
                ParakeetModelSize::Tdt06bV3 => "Parakeet TDT 0.6B v3 (Multilingual)"@,
            },
    {
        match self {
            ParakeetModelSize::Tdt06bV3 => "Parakeet TDT 0.6B v3 (Multilingual)",
        }
    }
}

/// The languages the offline engine has small models for.
#[derive(Debug, Clone, Copy, PartialEq, Eq, Structural, Hash)]
pub enum VoskLanguage {
    En, Fr, De, Es, It, Ru, Zh, Ja, Ko, Pt, Nl, Pl, Uk, Tr, Vi, Ar, Hi, Fa, Ca, Cs,
}

/// The directory name of an offline model.
pub open spec fn vosk_model_name_spec(lang: VoskLanguage) -> Seq<char> {
    match lang {
        VoskLanguage::En => "vosk-model-small-en-us-0.15"@,
        VoskLanguage::Fr => "vosk-model-small-fr-0.22"@,
        VoskLanguage::De => "vosk-model-small-de-0.15"@,
        VoskLanguage::Es => "vosk-model-small-es-0.42"@,
        VoskLanguage::It => "vosk-model-small-it-0.22"@,
        VoskLanguage::Ru => "vosk-model-small-ru-0.22"@,
        VoskLanguage::Zh => "vosk-model-small-cn-0.22"@,
        VoskLanguage::Ja => "vosk-model-small-ja-0.22"@,
        VoskLanguage::Ko => "vosk-model-small-ko-0.22"@,
        VoskLanguage::Pt => "vosk-model-small-pt-0.3"@,
        VoskLanguage::Nl => "vosk-model-small-nl-0.22"@,
        VoskLanguage::Pl => "vosk-model-small-pl-0.22"@,
        VoskLanguage::Uk => "vosk-model-small-uk-v3-small"@,
        VoskLanguage::Tr => "vosk-model-small-tr-0.3"@,
        VoskLanguage::Vi => "vosk-model-small-vn-0.4"@,
        VoskLanguage::Ar => "vosk-model-ar-mgb2-0.4"@,
        VoskLanguage::Hi => "vosk-model-small-hi-0.22"@,
        VoskLanguage::Fa => "vosk-model-small-fa-0.5"@,
        VoskLanguage::Ca => "vosk-model-small-ca-0.4"@,
        VoskLanguage::Cs => "vosk-model-small-cs-0.4-rhasspy"@,
    }
}

/// The language an offline model is looked up under, from a language code
/// or an English language name, case-insensitively.
pub open spec fn vosk_from_code_spec(code: Seq<char>) -> Option<VoskLanguage> {
    let l = lower(code);
    if l == "en"@ || l == "english"@ { Some(VoskLanguage::En) }
    else if l == "fr"@ || l == "french"@ { Some(VoskLanguage::Fr) }
    else if l == "de"@ || l == "german"@ { Some(VoskLanguage::De) }
    else if l == "es"@ || l == "spanish"@ { Some(VoskLanguage::Es) }
    else if l == "it"@ || l == "italian"@ { Some(VoskLanguage::It) }
    else if l == "ru"@ || l == "russian"@ { Some(VoskLanguage::Ru) }
    else if l == "zh"@ || l == "chinese"@ { Some(VoskLanguage::Zh) }
    else if l == "ja"@ || l == "japanese"@ { Some(VoskLanguage::Ja) }
    else if l == "ko"@ || l == "korean"@ { Some(VoskLanguage::Ko) }
    else if l == "pt"@ || l == "portuguese"@ { Some(VoskLanguage::Pt) }
    else if l == "nl"@ || l == "dutch"@ { Some(VoskLanguage::Nl) }
    else if l == "pl"@ || l == "polish"@ { Some(VoskLanguage::Pl) }
    else if l == "uk"@ || l == "ukrainian"@ { Some(VoskLanguage::Uk) }
    else if l == "tr"@ || l == "turkish"@ { Some(VoskLanguage::Tr) }
    else if l == "vi"@ || l == "vietnamese"@ { Some(VoskLanguage::Vi) }
    else if l == "ar"@ || l == "arabic"@ { Some(VoskLanguage::Ar) }
    else if l == "hi"@ || l == "hindi"@ { Some(VoskLanguage::Hi) }
    else if l == "fa"@ || l == "persian"@ { Some(VoskLanguage::Fa) }
    else if l == "ca"@ || l == "catalan"@ { Some(VoskLanguage::Ca) }
    else if l == "cs"@ || l == "czech"@ { Some(VoskLanguage::Cs) }
    else { None }
}

impl VoskLanguage {
    /// The directory the model is stored under.
    pub fn model_name(&self) -> (r: &'static str)
        ensures
            r@ == vosk_model_name_spec(*self),
    {
        match self {
            VoskLanguage::En => "vosk-model-small-en-us-0.15",
            VoskLanguage::Fr => "vosk-model-small-fr-0.22",
            VoskLanguage::De => "vosk-model-small-de-0.15",
            VoskLanguage::Es => "vosk-model-small-es-0.42",
            VoskLanguage::It => "vosk-model-small-it-0.22",
            VoskLanguage::Ru => "vosk-model-small-ru-0.22",
            VoskLanguage::Zh => "vosk-model-small-cn-0.22",
            VoskLanguage::Ja => "vosk-model-small-ja-0.22",
            VoskLanguage::Ko => "vosk-model-small-ko-0.22",
            VoskLanguage::Pt => "vosk-model-small-pt-0.3",
            VoskLanguage::Nl => "vosk-model-small-nl-0.22",
            VoskLanguage::Pl => "vosk-model-small-pl-0.22",
            VoskLanguage::Uk => "vosk-model-small-uk-v3-small",
            VoskLanguage::Tr => "vosk-model-small-tr-0.3",
            VoskLanguage::Vi => "vosk-model-small-vn-0.4",
            VoskLanguage::Ar => "vosk-model-ar-mgb2-0.4",
            VoskLanguage::Hi => "vosk-model-small-hi-0.22",
            VoskLanguage::Fa => "vosk-model-small-fa-0.5",
            VoskLanguage::Ca => "vosk-model-small-ca-0.4",
            VoskLanguage::Cs => "vosk-model-small-cs-0.4-rhasspy",
        }
    }

    /// Where the model archive is downloaded from.
    pub fn download_url(&self) -> (r: String)
        ensures
            r@ == "https://alphacephei.com/vosk/models/"@ + vosk_model_name_spec(*self)
                + ".zip"@,
    {
        let r = String::from_str("https://alphacephei.com/vosk/models/")
            .concat(self.model_name())
            .concat(".zip");
        proof {
            assert(r@ =~= "https://alphacephei.com/vosk/models/"@
                + vosk_model_name_spec(*self) + ".zip"@);
        }
        r
    }

    /// The language's own name, shown in the interface.
    pub fn display_name(&self) -> (r: &'static str)
        ensures
            r@ == match *self {
                VoskLanguage::En => "English"@,
                VoskLanguage::Fr => "Fran\u{e7}ais"@,
                VoskLanguage::De => "Deutsch"@,
                VoskLanguage::Es => "Espa\u{f1}ol"@,
                VoskLanguage::It => "Italiano"@,
                VoskLanguage::Ru => "\u{420}\u{443}\u{441}\u{441}\u{43a}\u{438}\u{439}"@,
                VoskLanguage::Zh => "\u{4e2d}\u{6587}"@,
                VoskLanguage::Ja => "\u{65e5}\u{672c}\u{8a9e}"@,
                VoskLanguage::Ko => "\u{d55c}\u{ad6d}\u{c5b4}"@,
                VoskLanguage::Pt => "Portugu\u{ea}s"@,
                VoskLanguage::Nl => "Nederlands"@,
                VoskLanguage::Pl => "Polski"@,
                VoskLanguage::Uk => "\u{423}\u{43a}\u{440}\u{430}\u{457}\u{43d}\u{441}\u{44c}\u{43a}\u{430}"@,
                VoskLanguage::Tr => "T\u{fc}rk\u{e7}e"@,
                VoskLanguage::Vi => "Ti\u{1ebf}ng Vi\u{1ec7}t"@,
                VoskLanguage::Ar => "\u{627}\u{644}\u{639}\u{631}\u{628}\u{64a}\u{629}"@,
                VoskLanguage::Hi => "\u{939}\u{93f}\u{928}\u{94d}\u{926}\u{940}"@,
                VoskLanguage::Fa => "\u{641}\u{627}\u{631}\u{633}\u{6cc}"@,
                VoskLanguage::Ca => "Catal\u{e0}"@,
                VoskLanguage::Cs => "\u{10c}e\u{161}tina"@,
            },
    {
        match self {
            VoskLanguage::En => "English",
            VoskLanguage::Fr => "Fran\u{e7}ais",
            VoskLanguage::De => "Deutsch",
            VoskLanguage::Es => "Espa\u{f1}ol",
            VoskLanguage::It => "Italiano",
            VoskLanguage::Ru => "\u{420}\u{443}\u{441}\u{441}\u{43a}\u{438}\u{439}",
            VoskLanguage::Zh => "\u{4e2d}\u{6587}",
            VoskLanguage::Ja => "\u{65e5}\u{672c}\u{8a9e}",
            VoskLanguage::Ko => "\u{d55c}\u{ad6d}\u{c5b4}",
            VoskLanguage::Pt => "Portugu\u{ea}s",
            VoskLanguage::Nl => "Nederlands",
            VoskLanguage::Pl => "Polski",
            VoskLanguage::Uk => "\u{423}\u{43a}\u{440}\u{430}\u{457}\u{43d}\u{441}\u{44c}\u{43a}\u{430}",
            VoskLanguage::Tr => "T\u{fc}rk\u{e7}e",
            VoskLanguage::Vi => "Ti\u{1ebf}ng Vi\u{1ec7}t",
            VoskLanguage::Ar => "\u{627}\u{644}\u{639}\u{631}\u{628}\u{64a}\u{629}",
            VoskLanguage::Hi => "\u{939}\u{93f}\u{928}\u{94d}\u{926}\u{940}",
            VoskLanguage::Fa => "\u{641}\u{627}\u{631}\u{633}\u{6cc}",
            VoskLanguage::Ca => "Catal\u{e0}",
            VoskLanguage::Cs => "\u{10c}e\u{161}tina",
        }
    }

    /// Look a language up by code or English name, case-insensitively.
    pub fn from_language_code(code: &str) -> (r: Option<VoskLanguage>)
        ensures
            r == vosk_from_code_spec(code@),
    {
        let cv = str_to_chars(code);
        let l = lower_chars(cv.as_slice());
        if lang_tok(l.as_slice(), "en") || lang_tok(l.as_slice(), "english") {
            Some(VoskLanguage::En)
        } else if lang_tok(l.as_slice(), "fr") || lang_tok(l.as_slice(), "french") {
            Some(VoskLanguage::Fr)
        } else if lang_tok(l.as_slice(), "de") || lang_tok(l.as_slice(), "german") {
            Some(VoskLanguage::De)
        } else if lang_tok(l.as_slice(), "es") || lang_tok(l.as_slice(), "spanish") {
            Some(VoskLanguage::Es)
        } else if lang_tok(l.as_slice(), "it") || lang_tok(l.as_slice(), "italian") {
            Some(VoskLanguage::It)
        } else if lang_tok(l.as_slice(), "ru") || lang_tok(l.as_slice(), "russian") {
            Some(VoskLanguage::Ru)
        } else if lang_tok(l.as_slice(), "zh") || lang_tok(l.as_slice(), "chinese") {
            Some(VoskLanguage::Zh)
        } else if lang_tok(l.as_slice(), "ja") || lang_tok(l.as_slice(), "japanese") {
            Some(VoskLanguage::Ja)
        } else if lang_tok(l.as_slice(), "ko") || lang_tok(l.as_slice(), "korean") {
            Some(VoskLanguage::Ko)
        } else if lang_tok(l.as_slice(), "pt") || lang_tok(l.as_slice(), "portuguese") {
            Some(VoskLanguage::Pt)
        } else if lang_tok(l.as_slice(), "nl") || lang_tok(l.as_slice(), "dutch") {
            Some(VoskLanguage::Nl)
        } else if lang_tok(l.as_slice(), "pl") || lang_tok(l.as_slice(), "polish") {
            Some(VoskLanguage::Pl)
        } else if lang_tok(l.as_slice(), "uk") || lang_tok(l.as_slice(), "ukrainian") {
            Some(VoskLanguage::Uk)
        } else if lang_tok(l.as_slice(), "tr") || lang_tok(l.as_slice(), "turkish") {
            Some(VoskLanguage::Tr)
        } else if lang_tok(l.as_slice(), "vi") || lang_tok(l.as_slice(), "vietnamese") {
            Some(VoskLanguage::Vi)
        } else if lang_tok(l.as_slice(), "ar") || lang_tok(l.as_slice(), "arabic") {
            Some(VoskLanguage::Ar)
        } else if lang_tok(l.as_slice(), "hi") || lang_tok(l.as_slice(), "hindi") {
            Some(VoskLanguage::Hi)
        } else if lang_tok(l.as_slice(), "fa") || lang_tok(l.as_slice(), "persian") {
            Some(VoskLanguage::Fa)
        } else if lang_tok(l.as_slice(), "ca") || lang_tok(l.as_slice(), "catalan") {
            Some(VoskLanguage::Ca)
        } else if lang_tok(l.as_slice(), "cs") || lang_tok(l.as_slice(), "czech") {
            Some(VoskLanguage::Cs)
        } else {
            None
        }
    }
}

/// Does this lowercased token spell the given name?
fn lang_tok(l: &[char], name: &str) -> (r: bool)
    ensures
        r == (l@ == name@),
{
    let nv = str_to_chars(name);
    chars_eq(l, nv.as_slice())
}

/// An input device as shown to the user.
#[derive(Debug, Clone)]
pub struct AudioDevice {
    pub id: String,
    pub name: String,
    pub is_default: bool,
}

/// The user's personal dictionary.
#[derive(Debug, Clone)]
pub struct DictionaryData {
    pub words: Vec<String>,
}

/// Progress of a batch file transcription.
#[derive(Debug, Clone)]
pub struct FileTranscriptionProgress {
    pub current: usize,
    pub total: usize,
    pub file_name: String,
    pub status: String,
}

/// The whole settings record, persisted by the host.
#[derive(Debug, Clone)]
pub struct AppSettings {
    pub microphone_id: Option<String>,
    pub hotkey_push_to_talk: String,
    pub hotkey_toggle_record: String,
    pub transcription_language: String,
    pub auto_detect_language: bool,
    pub theme: String,
    pub minimize_to_tray: bool,
    pub auto_copy_to_clipboard: bool,
    pub notification_on_complete: bool,
    pub whisper_model: ModelSize,
    pub llm_enabled: bool,
    pub llm_mode: LlmMode,
    pub voice_commands_enabled: bool,
    pub dictation_mode: DictationMode,
    pub streaming_enabled: bool,
    pub auto_paste_enabled: bool,
    pub floating_window_enabled: bool,
    pub floating_window_position: Option<(i32, i32)>,
    pub translation_enabled: bool,
    pub translation_target_language: String,
    pub hotkey_translate: String,
    pub hotkey_voice_action: String,
    pub engine_type: EngineType,
    pub vosk_language: Option<VoskLanguage>,
    pub parakeet_model: ParakeetModelSize,
    pub groq_api_key: Option<String>,
    pub llm_provider: LlmProvider,
    pub local_llm_model: LocalLlmModel,
    pub onboarding_completed: bool,
}

/// The default of every boolean setting that starts switched on.
pub fn default_true() -> (r: bool)
    ensures
        r == true,
{
    true
}

/// The default target language of the translate flow.
pub fn default_translation_language() -> (r: String)
    ensures
        r@ == "en"@,
{
    String::from_str("en")
}

/// The default translate shortcut.
pub fn default_hotkey_translate() -> (r: String)
    ensures
        r@ == "Control+Alt+T"@,
{
    String::from_str("Control+Alt+T")
}

/// The default voice-action shortcut.
pub fn default_hotkey_voice_action() -> (r: String)
    ensures
        r@ == "Control+Alt+A"@,
{
    String::from_str("Control+Alt+A")
}

impl Default for AppSettings {
    /// The out-of-the-box settings.
    fn default() -> (s: Self)
        ensures
            s.microphone_id is None,
            s.hotkey_push_to_talk@ == "Control+Space"@,
            s.hotkey_toggle_record@ == "Control+Shift+R"@,
            s.transcription_language@ == "fr"@,
            s.auto_detect_language == false,
            s.theme@ == "system"@,
            s.minimize_to_tray == true,
            s.auto_copy_to_clipboard == true,
            s.notification_on_complete == true,
            s.whisper_model == ModelSize::Tiny,
            s.llm_enabled == false,
            s.llm_mode == LlmMode::Off,
            s.voice_commands_enabled == true,
            s.dictation_mode == DictationMode::General,
            s.streaming_enabled == true,
            s.auto_paste_enabled == true,
            s.floating_window_enabled == false,
            s.floating_window_position is None,
            s.translation_enabled == true,
            s.translation_target_language@ == "en"@,
            s.hotkey_translate@ == "Control+Alt+T"@,
            s.hotkey_voice_action@ == "Control+Alt+A"@,
            s.engine_type == EngineType::Whisper,
            s.vosk_language is None,
            s.parakeet_model == ParakeetModelSize::Tdt06bV3,
            s.groq_api_key is None,
            s.llm_provider == LlmProvider::Groq,
            s.local_llm_model == LocalLlmModel::Phi3Mini,
            s.onboarding_completed == false,
    {
        AppSettings {
            microphone_id: None,
            hotkey_push_to_talk: String::from_str("Control+Space"),
            hotkey_toggle_record: String::from_str("Control+Shift+R"),
            transcription_language: String::from_str("fr"),
            auto_detect_language: false,
            theme: String::from_str("system"),
            minimize_to_tray: true,
            auto_copy_to_clipboard: true,
            notification_on_complete: true,
            whisper_model: ModelSize::Tiny,
            llm_enabled: false,
            llm_mode: LlmMode::Off,
            voice_commands_enabled: true,
            dictation_mode: DictationMode::General,
            streaming_enabled: true,
            auto_paste_enabled: true,
            floating_window_enabled: false,
            floating_window_position: None,
            translation_enabled: true,
            translation_target_language: String::from_str("en"),
            hotkey_translate: String::from_str("Control+Alt+T"),
            hotkey_voice_action: String::from_str("Control+Alt+A"),
            engine_type: EngineType::Whisper,
            vosk_language: None,
            parakeet_model: ParakeetModelSize::Tdt06bV3,
            groq_api_key: None,
            llm_provider: LlmProvider::Groq,
            local_llm_model: LocalLlmModel::Phi3Mini,
            onboarding_completed: false,
        }
    }
}

} // verus!
