//! The streaming-oriented recognition engine's verified shell: loading
//! checks that the model directory is present and keeps its path and the
//! configured language; the inference itself is native code the host
//! links in separately.

use vstd::prelude::*;

use crate::models::file_exists;
use crate::types::ParakeetModelSize;

verus! {

/// The streaming-oriented engine: a model directory and a language hint.
pub struct ParakeetEngine {
    model_path: String,
    language: Option<String>,
    model_size: ParakeetModelSize,
}

impl ParakeetEngine {
    /// The directory the engine was loaded from.
    pub closed spec fn model_path_spec(&self) -> Seq<char> {
        self.model_path@
    }

    /// The language hint handed to transcription, if any.
    pub closed spec fn language_spec(&self) -> Option<Seq<char>> {
        match self.language {
            Option::None => None,
            Option::Some(ref l) => Some(l@),
        }
    }

    /// The model the engine runs.
    pub closed spec fn model_size_spec(&self) -> ParakeetModelSize {
        self.model_size
    }

    /// Load the engine: succeeds exactly when the model directory is
    /// present on disk, and then remembers its path with no language
    /// hint; otherwise the error names the missing path.
    pub fn new(model_path: &str, model_size: ParakeetModelSize)
        -> (r: Result<ParakeetEngine, String>)
        ensures
            match r {
                Result::Ok(e) => e.model_path_spec() == model_path@
                    && e.language_spec() is None
                    && e.model_size_spec() == model_size,
                Result::Err(m) => m@ == "Parakeet model not found: "@ + model_path@,
            },
    {
        if !file_exists(model_path) {
            return Err(String::from_str("Parakeet model not found: ").concat(model_path));
        }
        Ok(ParakeetEngine {
            model_path: String::from_str(model_path),
            language: None,
            model_size,
        })
    }

    /// The model the engine runs.
    pub fn model_size(&self) -> (r: ParakeetModelSize)
        ensures
            r == self.model_size_spec(),
    {
        self.model_size
    }

    /// Set or clear the language hint; nothing else changes.
    pub fn set_language(&mut self, language: Option<String>)
        ensures
            final(self).language_spec() == match language {
                Option::None => None::<Seq<char>>,
                Option::Some(l) => Some(l@),
            },
            final(self).model_path_spec() == old(self).model_path_spec(),
            final(self).model_size_spec() == old(self).model_size_spec(),
    {
        self.language = language;
    }
}

} // verus!
