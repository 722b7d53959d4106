//! The catalog of voices the tool knows how to install, and where an
//! installed voice's files lie.

use vstd::prelude::*;
use crate::layout::{join_path, path_join};
use crate::text::{contains, eq_ignore_ascii_case, has_infix, lower_of, same_ignoring_ascii_case, to_lower};

verus! {

/// One neural voice model of the catalog.
#[derive(Clone, Copy, Debug)]
pub struct Voice {
    /// Short identifier, matched without regard to ASCII case.
    pub id: &'static str,
    pub name: &'static str,
    pub lang: &'static str,
    pub gender: char,
    pub quality: &'static str,
    /// Approximate download size in megabytes.
    pub size_mb: u32,
    /// Directory the model's archive unpacks to.
    pub model_dir: &'static str,
    /// Where the model's archive is published.
    pub download_url: &'static str,
}

/// Number of voices in the catalog.
pub const CATALOG_LEN: usize = 17;

/// The catalog, in the order in which it is shown and numbered.
pub open spec fn catalog() -> Seq<Voice> {
    seq![
        Voice {
            id: "melo",
            name: "MeloTTS",
            lang: "zh_en",
            gender: 'F',
            quality: "high",
            size_mb: 150,
            model_dir: "vits-melo-tts-zh_en",
            download_url: "https://github.com/k2-fsa/sherpa-onnx/releases/download/tts-models/vits-melo-tts-zh_en.tar.bz2",
        },
        Voice {
            id: "huayan",
            name: "Huayan",
            lang: "zh_CN",
            gender: 'F',
            quality: "medium",
            size_mb: 60,
            model_dir: "vits-piper-zh_CN-huayan-medium",
            download_url: "https://github.com/k2-fsa/sherpa-onnx/releases/download/tts-models/vits-piper-zh_CN-huayan-medium.tar.bz2",
        },
        Voice {
            id: "aishell3",
            name: "AIShell3",
            lang: "zh_CN",
            gender: 'F',
            quality: "high",
            size_mb: 100,
            model_dir: "vits-zh-aishell3",
            download_url: "https://github.com/k2-fsa/sherpa-onnx/releases/download/tts-models/vits-zh-aishell3.tar.bz2",
        },
        Voice {
            id: "kss",
            name: "KSS",
            lang: "ko_KR",
            gender: 'F',
            quality: "low",
            size_mb: 30,
            model_dir: "vits-mimic3-ko_KO-kss_low",
            download_url: "https://github.com/k2-fsa/sherpa-onnx/releases/download/tts-models/vits-mimic3-ko_KO-kss_low.tar.bz2",
        },
        Voice {
            id: "amy",
            name: "Amy",
            lang: "en_US",
            gender: 'F',
            quality: "medium",
            size_mb: 60,
            model_dir: "vits-piper-en_US-amy-medium",
            download_url: "https://github.com/k2-fsa/sherpa-onnx/releases/download/tts-models/vits-piper-en_US-amy-medium.tar.bz2",
        },
        Voice {
            id: "lessac",
            name: "Lessac",
            lang: "en_US",
            gender: 'F',
            quality: "high",
            size_mb: 120,
            model_dir: "vits-piper-en_US-lessac-high",
            download_url: "https://github.com/k2-fsa/sherpa-onnx/releases/download/tts-models/vits-piper-en_US-lessac-high.tar.bz2",
        },
        Voice {
            id: "ryan",
            name: "Ryan",
            lang: "en_US",
            gender: 'M',
            quality: "high",
            size_mb: 120,
            model_dir: "vits-piper-en_US-ryan-high",
            download_url: "https://github.com/k2-fsa/sherpa-onnx/releases/download/tts-models/vits-piper-en_US-ryan-high.tar.bz2",
        },
        Voice {
            id: "joe",
            name: "Joe",
            lang: "en_US",
            gender: 'M',
            quality: "medium",
            size_mb: 60,
            model_dir: "vits-piper-en_US-joe-medium",
            download_url: "https://github.com/k2-fsa/sherpa-onnx/releases/download/tts-models/vits-piper-en_US-joe-medium.tar.bz2",
        },
        Voice {
            id: "ljspeech",
            name: "LJSpeech",
            lang: "en_US",
            gender: 'F',
            quality: "high",
            size_mb: 80,
            model_dir: "vits-ljs",
            download_url: "https://github.com/k2-fsa/sherpa-onnx/releases/download/tts-models/vits-ljs.tar.bz2",
        },
        Voice {
            id: "alan",
            name: "Alan",
            lang: "en_GB",
            gender: 'M',
            quality: "medium",
            size_mb: 45,
            model_dir: "vits-piper-en_GB-alan-medium",
            download_url: "https://github.com/k2-fsa/sherpa-onnx/releases/download/tts-models/vits-piper-en_GB-alan-medium.tar.bz2",
        },
        Voice {
            id: "alba",
            name: "Alba",
            lang: "en_GB",
            gender: 'F',
            quality: "medium",
            size_mb: 45,
            model_dir: "vits-piper-en_GB-alba-medium",
            download_url: "https://github.com/k2-fsa/sherpa-onnx/releases/download/tts-models/vits-piper-en_GB-alba-medium.tar.bz2",
        },
        Voice {
            id: "thorsten",
            name: "Thorsten",
            lang: "de_DE",
            gender: 'M',
            quality: "high",
            size_mb: 120,
            model_dir: "vits-piper-de_DE-thorsten-high",
            download_url: "https://github.com/k2-fsa/sherpa-onnx/releases/download/tts-models/vits-piper-de_DE-thorsten-high.tar.bz2",
        },
        Voice {
            id: "siwis",
            name: "Siwis",
            lang: "fr_FR",
            gender: 'F',
            quality: "medium",
            size_mb: 60,
            model_dir: "vits-piper-fr_FR-siwis-medium",
            download_url: "https://github.com/k2-fsa/sherpa-onnx/releases/download/tts-models/vits-piper-fr_FR-siwis-medium.tar.bz2",
        },
        Voice {
            id: "davefx",
            name: "DaveFX",
            lang: "es_ES",
            gender: 'M',
            quality: "medium",
            size_mb: 60,
            model_dir: "vits-piper-es_ES-davefx-medium",
            download_url: "https://github.com/k2-fsa/sherpa-onnx/releases/download/tts-models/vits-piper-es_ES-davefx-medium.tar.bz2",
        },
        Voice {
            id: "irina",
            name: "Irina",
            lang: "ru_RU",
            gender: 'F',
            quality: "medium",
            size_mb: 60,
            model_dir: "vits-piper-ru_RU-irina-medium",
            download_url: "https://github.com/k2-fsa/sherpa-onnx/releases/download/tts-models/vits-piper-ru_RU-irina-medium.tar.bz2",
        },
        Voice {
            id: "ruslan",
            name: "Ruslan",
            lang: "ru_RU",
            gender: 'M',
            quality: "medium",
            size_mb: 60,
            model_dir: "vits-piper-ru_RU-ruslan-medium",
            download_url: "https://github.com/k2-fsa/sherpa-onnx/releases/download/tts-models/vits-piper-ru_RU-ruslan-medium.tar.bz2",
        },
        Voice {
            id: "vais",
            name: "VAIS1000",
            lang: "vi_VN",
            gender: 'F',
            quality: "low",
            size_mb: 30,
            model_dir: "vits-mimic3-vi_VN-vais1000_low",
            download_url: "https://github.com/k2-fsa/sherpa-onnx/releases/download/tts-models/vits-mimic3-vi_VN-vais1000_low.tar.bz2",
        },
    ]
}

/// The `i`-th voice of the catalog (counting from zero).
pub fn catalog_voice(i: usize) -> (v: Voice)
    requires
        i < CATALOG_LEN,
    ensures
        v == catalog()[i as int],
{
    match i {
        0 => Voice {
            id: "melo",
            name: "MeloTTS",
            lang: "zh_en",
            gender: 'F',
            quality: "high",
            size_mb: 150,
            model_dir: "vits-melo-tts-zh_en",
            download_url: "https://github.com/k2-fsa/sherpa-onnx/releases/download/tts-models/vits-melo-tts-zh_en.tar.bz2",
        },
        1 => Voice {
            id: "huayan",
            name: "Huayan",
            lang: "zh_CN",
            gender: 'F',
            quality: "medium",
            size_mb: 60,
            model_dir: "vits-piper-zh_CN-huayan-medium",
            download_url: "https://github.com/k2-fsa/sherpa-onnx/releases/download/tts-models/vits-piper-zh_CN-huayan-medium.tar.bz2",
        },
        2 => Voice {
            id: "aishell3",
            name: "AIShell3",
            lang: "zh_CN",
            gender: 'F',
            quality: "high",
            size_mb: 100,
            model_dir: "vits-zh-aishell3",
            download_url: "https://github.com/k2-fsa/sherpa-onnx/releases/download/tts-models/vits-zh-aishell3.tar.bz2",
        },
        3 => Voice {
            id: "kss",
            name: "KSS",
            lang: "ko_KR",
            gender: 'F',
            quality: "low",
            size_mb: 30,
            model_dir: "vits-mimic3-ko_KO-kss_low",
            download_url: "https://github.com/k2-fsa/sherpa-onnx/releases/download/tts-models/vits-mimic3-ko_KO-kss_low.tar.bz2",
        },
        4 => Voice {
            id: "amy",
            name: "Amy",
            lang: "en_US",
            gender: 'F',
            quality: "medium",
            size_mb: 60,
            model_dir: "vits-piper-en_US-amy-medium",
            download_url: "https://github.com/k2-fsa/sherpa-onnx/releases/download/tts-models/vits-piper-en_US-amy-medium.tar.bz2",
        },
        5 => Voice {
            id: "lessac",
            name: "Lessac",
            lang: "en_US",
            gender: 'F',
            quality: "high",
            size_mb: 120,
            model_dir: "vits-piper-en_US-lessac-high",
            download_url: "https://github.com/k2-fsa/sherpa-onnx/releases/download/tts-models/vits-piper-en_US-lessac-high.tar.bz2",
        },
        6 => Voice {
            id: "ryan",
            name: "Ryan",
            lang: "en_US",
            gender: 'M',
            quality: "high",
            size_mb: 120,
            model_dir: "vits-piper-en_US-ryan-high",
            download_url: "https://github.com/k2-fsa/sherpa-onnx/releases/download/tts-models/vits-piper-en_US-ryan-high.tar.bz2",
        },
        7 => Voice {
            id: "joe",
            name: "Joe",
            lang: "en_US",
            gender: 'M',
            quality: "medium",
            size_mb: 60,
            model_dir: "vits-piper-en_US-joe-medium",
            download_url: "https://github.com/k2-fsa/sherpa-onnx/releases/download/tts-models/vits-piper-en_US-joe-medium.tar.bz2",
        },
        8 => Voice {
            id: "ljspeech",
            name: "LJSpeech",
            lang: "en_US",
            gender: 'F',
            quality: "high",
            size_mb: 80,
            model_dir: "vits-ljs",
            download_url: "https://github.com/k2-fsa/sherpa-onnx/releases/download/tts-models/vits-ljs.tar.bz2",
        },
        9 => Voice {
            id: "alan",
            name: "Alan",
            lang: "en_GB",
            gender: 'M',
            quality: "medium",
            size_mb: 45,
            model_dir: "vits-piper-en_GB-alan-medium",
            download_url: "https://github.com/k2-fsa/sherpa-onnx/releases/download/tts-models/vits-piper-en_GB-alan-medium.tar.bz2",
        },
        10 => Voice {
            id: "alba",
            name: "Alba",
            lang: "en_GB",
            gender: 'F',
            quality: "medium",
            size_mb: 45,
            model_dir: "vits-piper-en_GB-alba-medium",
            download_url: "https://github.com/k2-fsa/sherpa-onnx/releases/download/tts-models/vits-piper-en_GB-alba-medium.tar.bz2",
        },
        11 => Voice {
            id: "thorsten",
            name: "Thorsten",
            lang: "de_DE",
            gender: 'M',
            quality: "high",
            size_mb: 120,
            model_dir: "vits-piper-de_DE-thorsten-high",
            download_url: "https://github.com/k2-fsa/sherpa-onnx/releases/download/tts-models/vits-piper-de_DE-thorsten-high.tar.bz2",
        },
        12 => Voice {
            id: "siwis",
            name: "Siwis",
            lang: "fr_FR",
            gender: 'F',
            quality: "medium",
            size_mb: 60,
            model_dir: "vits-piper-fr_FR-siwis-medium",
            download_url: "https://github.com/k2-fsa/sherpa-onnx/releases/download/tts-models/vits-piper-fr_FR-siwis-medium.tar.bz2",
        },
        13 => Voice {
            id: "davefx",
            name: "DaveFX",
            lang: "es_ES",
            gender: 'M',
            quality: "medium",
            size_mb: 60,
            model_dir: "vits-piper-es_ES-davefx-medium",
            download_url: "https://github.com/k2-fsa/sherpa-onnx/releases/download/tts-models/vits-piper-es_ES-davefx-medium.tar.bz2",
        },
        14 => Voice {
            id: "irina",
            name: "Irina",
            lang: "ru_RU",
            gender: 'F',
            quality: "medium",
            size_mb: 60,
            model_dir: "vits-piper-ru_RU-irina-medium",
            download_url: "https://github.com/k2-fsa/sherpa-onnx/releases/download/tts-models/vits-piper-ru_RU-irina-medium.tar.bz2",
        },
        15 => Voice {
            id: "ruslan",
            name: "Ruslan",
            lang: "ru_RU",
            gender: 'M',
            quality: "medium",
            size_mb: 60,
            model_dir: "vits-piper-ru_RU-ruslan-medium",
            download_url: "https://github.com/k2-fsa/sherpa-onnx/releases/download/tts-models/vits-piper-ru_RU-ruslan-medium.tar.bz2",
        },
        _ => Voice {
            id: "vais",
            name: "VAIS1000",
            lang: "vi_VN",
            gender: 'F',
            quality: "low",
            size_mb: 30,
            model_dir: "vits-mimic3-vi_VN-vais1000_low",
            download_url: "https://github.com/k2-fsa/sherpa-onnx/releases/download/tts-models/vits-mimic3-vi_VN-vais1000_low.tar.bz2",
        },
    }
}

/// The first voice of the catalog from index `i` on whose identifier
/// equals `id` up to ASCII case.
pub open spec fn lookup_from(id: Seq<char>, i: int) -> Option<Voice>
    decreases CATALOG_LEN - i,
{
    if i < 0 || i >= CATALOG_LEN {
        None
    } else if same_ignoring_ascii_case(catalog()[i].id@, id) {
        Some(catalog()[i])
    } else {
        lookup_from(id, i + 1)
    }
}

/// The voice that identifier `id` names, if any.
pub open spec fn lookup(id: Seq<char>) -> Option<Voice> {
    lookup_from(id, 0)
}

/// No voice of the catalog is named `id`.
pub open spec fn unknown_id(id: Seq<char>) -> bool {
    forall|i: int| 0 <= i < CATALOG_LEN ==> !same_ignoring_ascii_case(#[trigger] catalog()[i].id@, id)
}

proof fn lemma_lookup_from_unknown(id: Seq<char>, i: int)
    requires
        0 <= i,
        unknown_id(id),
    ensures
        lookup_from(id, i) is None,
    decreases CATALOG_LEN - i,
{
    if i < CATALOG_LEN {
        lemma_lookup_from_unknown(id, i + 1);
    }
}

/// An identifier that no voice of the catalog carries (up to ASCII case)
/// resolves to nothing; one that a voice carries resolves to a voice.
pub proof fn lemma_unknown_not_found(id: Seq<char>)
    ensures
        unknown_id(id) ==> lookup(id) is None,
        !unknown_id(id) ==> lookup(id) is Some,
{
    if unknown_id(id) {
        lemma_lookup_from_unknown(id, 0);
    } else {
        let k = choose|k: int| 0 <= k < CATALOG_LEN && same_ignoring_ascii_case(#[trigger] catalog()[k].id@, id);
        lemma_lookup_from_known(id, 0, k);
    }
}

proof fn lemma_lookup_from_known(id: Seq<char>, i: int, k: int)
    requires
        0 <= i <= k < CATALOG_LEN,
        same_ignoring_ascii_case(catalog()[k].id@, id),
    ensures
        lookup_from(id, i) is Some,
    decreases k - i,
{
    if i < k && !same_ignoring_ascii_case(catalog()[i].id@, id) {
        lemma_lookup_from_known(id, i + 1, k);
    }
}

/// Name of the model file inside a voice's directory.
pub open spec fn model_file() -> Seq<char> {
    "model.onnx"@
}

impl Voice {
    /// `<base>/<model_dir>`.
    pub open spec fn dir_in(&self, base: Seq<char>) -> Seq<char> {
        path_join(base, self.model_dir@)
    }

    /// `<base>/<model_dir>/<file>`.
    pub open spec fn file_in(&self, base: Seq<char>, file: Seq<char>) -> Seq<char> {
        path_join(self.dir_in(base), file)
    }

    /// The voice's directory under the models directory `base`.
    pub fn model_dir_path(&self, base: &str) -> (r: String)
        ensures
            r@ == self.dir_in(base@),
    {
        join_path(base, self.model_dir)
    }

    /// The voice's model file.
    pub fn model_path(&self, base: &str) -> (r: String)
        ensures
            r@ == self.file_in(base@, model_file()),
    {
        let d = self.model_dir_path(base);
        join_path(d.as_str(), "model.onnx")
    }

    /// The voice's token table.
    pub fn tokens_path(&self, base: &str) -> (r: String)
        ensures
            r@ == self.file_in(base@, "tokens.txt"@),
    {
        let d = self.model_dir_path(base);
        join_path(d.as_str(), "tokens.txt")
    }

    /// The voice's lexicon, which only some models have.
    pub fn lexicon_path(&self, base: &str) -> (r: String)
        ensures
            r@ == self.file_in(base@, "lexicon.txt"@),
    {
        let d = self.model_dir_path(base);
        join_path(d.as_str(), "lexicon.txt")
    }

    /// The voice's dictionary directory, which the Chinese models have.
    pub fn dict_dir(&self, base: &str) -> (r: String)
        ensures
            r@ == self.file_in(base@, "dict"@),
    {
        let d = self.model_dir_path(base);
        join_path(d.as_str(), "dict")
    }

    /// The voice's phonemizer data directory, which the piper models have.
    pub fn data_dir(&self, base: &str) -> (r: String)
        ensures
            r@ == self.file_in(base@, "espeak-ng-data"@),
    {
        let d = self.model_dir_path(base);
        join_path(d.as_str(), "espeak-ng-data")
    }

    /// A MeloTTS model (Chinese and English).
    pub open spec fn melo(&self) -> bool {
        has_infix(self.model_dir@, "melo"@)
    }

    /// Whether this is a MeloTTS model (Chinese and English).
    pub fn is_melo(&self) -> (r: bool)
        ensures
            r == self.melo(),
    {
        contains(self.model_dir, "melo")
    }
}

/// What exists on disk of one voice's files.
#[derive(Clone, Copy, Debug, Default)]
pub struct VoiceFiles {
    /// The voice's directory.
    pub dir: bool,
    /// The model file.
    pub model: bool,
    /// The token table.
    pub tokens: bool,
    /// The lexicon.
    pub lexicon: bool,
    /// The dictionary directory.
    pub dict: bool,
    /// The phonemizer data directory.
    pub data: bool,
}

/// Operations on the catalog.
pub struct VoiceCatalog;

impl VoiceCatalog {
    /// The directory that holds installed voices, under the tool's directory.
    pub fn models_dir(root: &str) -> (r: String)
        ensures
            r@ == path_join(root@, "models"@),
    {
        join_path(root, "models")
    }

    /// The voice whose identifier equals `id` up to ASCII case.
    pub fn find(id: &str) -> (r: Option<Voice>)
        ensures
            r == lookup(id@),
            r is None <==> unknown_id(id@),
    {
        let mut i: usize = 0;
        while i < CATALOG_LEN
            invariant
                i <= CATALOG_LEN,
                lookup(id@) == lookup_from(id@, i as int),
                forall|k: int| 0 <= k < i ==> !same_ignoring_ascii_case(#[trigger] catalog()[k].id@, id@),
            decreases CATALOG_LEN - i,
        {
            let v = catalog_voice(i);
            if eq_ignore_ascii_case(v.id, id) {
                return Some(v);
            }
            i = i + 1;
        }
        None
    }

    /// The voice used when none is asked for: MeloTTS, the first of the catalog.
    pub fn default_voice() -> (r: Voice)
        ensures
            r == catalog()[0],
    {
        match Self::find("melo") {
            Some(v) => v,
            None => catalog_voice(0),
        }
    }

    /// Whether voice `id` is installed, given the names of the directories
    /// under the models directory that hold a model file.
    pub fn is_installed(id: &str, installed: &Vec<String>) -> (r: bool)
        ensures
            r == installed_in(id@, installed.deep_view()),
    {
        match Self::find(id) {
            Some(v) => {
                let mut i: usize = 0;
                while i < installed.len()
                    invariant
                        lookup(id@) == Some(v),
                        i <= installed.len(),
                        forall|k: int| 0 <= k < i ==> installed.deep_view()[k] != v.model_dir@,
                    decreases installed.len() - i,
                {
                    assert(installed.deep_view()[i as int] == installed@[i as int]@);
                    if crate::text::same_text(installed[i].as_str(), v.model_dir) {
                        assert(installed.deep_view().contains(v.model_dir@));
                        return true;
                    }
                    i = i + 1;
                }
                false
            },
            None => {
                let mut i: usize = 0;
                while i < installed.len()
                    invariant
                        lookup(id@) is None,
                        i <= installed.len(),
                        forall|k: int| 0 <= k < i ==> !has_infix(lower_of(#[trigger] installed.deep_view()[k]), lower_of(id@)),
                    decreases installed.len() - i,
                {
                    assert(installed.deep_view()[i as int] == installed@[i as int]@);
                    if mentions(installed[i].as_str(), id) {
                        return true;
                    }
                    i = i + 1;
                }
                false
            },
        }
    }

    /// For each voice of the catalog, in order, whether one of the
    /// `installed` directory names mentions its model directory.
    pub fn install_status(installed: &Vec<String>) -> (r: Vec<bool>)
        ensures
            r.len() == CATALOG_LEN,
            forall|i: int| 0 <= i < CATALOG_LEN ==> r[i] == exists|k: int| 0 <= k < installed.len()
                && has_infix(lower_of(#[trigger] installed.deep_view()[k]), lower_of(catalog()[i].model_dir@)),
    {
        let mut out: Vec<bool> = Vec::new();
        let mut i: usize = 0;
        while i < CATALOG_LEN
            invariant
                i <= CATALOG_LEN,
                out.len() == i,
                forall|j: int| 0 <= j < i ==> out[j] == exists|k: int| 0 <= k < installed.len()
                    && has_infix(lower_of(#[trigger] installed.deep_view()[k]), lower_of(catalog()[j].model_dir@)),
            decreases CATALOG_LEN - i,
        {
            let v = catalog_voice(i);
            let mut found = false;
            let mut k: usize = 0;
            while k < installed.len()
                invariant
                    k <= installed.len(),
                    v == catalog()[i as int],
                    found == exists|m: int| 0 <= m < k && has_infix(lower_of(#[trigger] installed.deep_view()[m]), lower_of(v.model_dir@)),
                decreases installed.len() - k,
            {
                assert(installed.deep_view()[k as int] == installed@[k as int]@);
                if mentions(installed[k].as_str(), v.model_dir) {
                    found = true;
                }
                k = k + 1;
            }
            out.push(found);
            i = i + 1;
        }
        out
    }

    /// The directory of voice `id`, when the catalog knows it and the
    /// directory exists.
    pub fn model_dir_path(id: &str, models_dir: &str, files: &VoiceFiles) -> (r: Option<String>)
        ensures
            r.deep_view() == match lookup(id@) {
                Some(v) => if files.dir { Some(v.dir_in(models_dir@)) } else { None },
                None => None,
            },
    {
        match Self::find(id) {
            Some(v) => if files.dir {
                Some(v.model_dir_path(models_dir))
            } else {
                None
            },
            None => None,
        }
    }
}

/// Whether `name` contains `id`, both in lower case: how a directory name
/// is matched against a voice identifier.
pub fn mentions(name: &str, id: &str) -> (r: bool)
    ensures
        r == has_infix(lower_of(name@), lower_of(id@)),
{
    let a = to_lower(name);
    let b = to_lower(id);
    contains(a.as_str(), b.as_str())
}

/// Whether voice `id` counts as installed when `installed` lists the
/// directories that hold a model file: a catalog voice by its own directory,
/// any other name by a directory whose lower-case name contains it.
pub open spec fn installed_in(id: Seq<char>, installed: Seq<Seq<char>>) -> bool {
    match lookup(id) {
        Some(v) => installed.contains(v.model_dir@),
        None => exists|k: int| 0 <= k < installed.len() && has_infix(lower_of(#[trigger] installed[k]), lower_of(id)),
    }
}

} // verus!
