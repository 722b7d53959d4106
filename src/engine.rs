//! The synthesis engine for one installed voice: the checks made before any
//! process is started, and the command line handed to the engine.

use vstd::prelude::*;
use crate::cli::{scale_text, Speed};
use crate::error::BiboError;
use crate::layout::{join_path, path_join};
use crate::text::concat;
use crate::voice::{lookup, model_file, Voice, VoiceCatalog, VoiceFiles};

verus! {

/// What the engine needs to synthesize with one voice.
pub struct TtsEngine {
    model_dir: String,
    voice: Voice,
    voice_id: String,
    files: VoiceFiles,
}

/// The engine's arguments: the model's files, the output, the length scale,
/// and the text itself as the last argument.
pub open spec fn engine_args(
    model_dir: Seq<char>,
    files: VoiceFiles,
    text: Seq<char>,
    speed: Speed,
    output: Seq<char>,
) -> Seq<Seq<char>> {
    seq!["--vits-model="@ + path_join(model_dir, model_file())] + (if files.tokens {
        seq!["--vits-tokens="@ + path_join(model_dir, "tokens.txt"@)]
    } else {
        seq![]
    }) + (if files.lexicon {
        seq!["--vits-lexicon="@ + path_join(model_dir, "lexicon.txt"@)]
    } else {
        seq![]
    }) + (if files.dict {
        seq!["--vits-dict-dir="@ + path_join(model_dir, "dict"@)]
    } else {
        seq![]
    }) + (if files.data {
        seq!["--vits-data-dir="@ + path_join(model_dir, "espeak-ng-data"@)]
    } else {
        seq![]
    }) + seq![
        "--output-filename="@ + output,
        "--vits-length-scale="@ + scale_text(speed.scale()),
        text,
    ]
}

fn push_arg(v: &mut Vec<String>, s: String)
    ensures
        final(v).deep_view() == old(v).deep_view().push(s@),
{
    v.push(s);
    assert(v.deep_view() =~= old(v).deep_view().push(s@));
}

impl TtsEngine {
    /// The voice's directory.
    pub closed spec fn dir(&self) -> Seq<char> {
        self.model_dir@
    }

    /// The voice.
    pub closed spec fn voice_spec(&self) -> Voice {
        self.voice
    }

    /// The identifier the engine was asked for.
    pub closed spec fn id(&self) -> Seq<char> {
        self.voice_id@
    }

    /// What exists of the voice's optional files.
    pub closed spec fn files_spec(&self) -> VoiceFiles {
        self.files
    }

    /// Prepares the engine for voice `voice_id`, whose files under
    /// `models_dir` are as `files` says. An unknown voice is reported as not
    /// found whatever `files` says; a known voice whose directory or decisive
    /// model file is absent as not installed.
    pub fn new(voice_id: &str, models_dir: &str, files: &VoiceFiles) -> (r: Result<
        TtsEngine,
        BiboError,
    >)
        ensures
            match lookup(voice_id@) {
                None => r matches Err(BiboError::VoiceNotFound(s)) && s@ == voice_id@,
                Some(v) => if !files.dir || !files.model {
                    r matches Err(BiboError::VoiceNotInstalled(s)) && s@ == voice_id@
                } else {
                    r matches Ok(e) && e.dir() == v.dir_in(models_dir@) && e.voice_spec() == v
                        && e.id() == voice_id@ && e.files_spec() == *files
                },
            },
    {
        let voice = match VoiceCatalog::find(voice_id) {
            Some(v) => v,
            None => {
                return Err(BiboError::VoiceNotFound(String::from_str(voice_id)));
            },
        };
        if !files.dir || !files.model {
            return Err(BiboError::VoiceNotInstalled(String::from_str(voice_id)));
        }
        Ok(TtsEngine {
            model_dir: voice.model_dir_path(models_dir),
            voice,
            voice_id: String::from_str(voice_id),
            files: *files,
        })
    }

    /// The engine's arguments for synthesizing `text` at `speed` into the
    /// WAV file `output_path`. The text travels as an argument of its own,
    /// never inside a script, so no character of it needs escaping.
    pub fn synthesis_args(&self, text: &str, speed: Speed, output_path: &str) -> (r: Vec<String>)
        ensures
            r.deep_view() == engine_args(self.dir(), self.files_spec(), text@, speed, output_path@),
    {
        let md = self.model_dir.as_str();
        let mut v: Vec<String> = Vec::new();
        assert(v.deep_view() =~= Seq::<Seq<char>>::empty());
        let model = join_path(md, "model.onnx");
        push_arg(&mut v, concat("--vits-model=", model.as_str()));
        let ghost base = v.deep_view();
        if self.files.tokens {
            let p = join_path(md, "tokens.txt");
            push_arg(&mut v, concat("--vits-tokens=", p.as_str()));
        }
        let ghost t = v.deep_view();
        if self.files.lexicon {
            let p = join_path(md, "lexicon.txt");
            push_arg(&mut v, concat("--vits-lexicon=", p.as_str()));
        }
        let ghost l = v.deep_view();
        if self.files.dict {
            let p = join_path(md, "dict");
            push_arg(&mut v, concat("--vits-dict-dir=", p.as_str()));
        }
        let ghost d = v.deep_view();
        if self.files.data {
            let p = join_path(md, "espeak-ng-data");
            push_arg(&mut v, concat("--vits-data-dir=", p.as_str()));
        }
        push_arg(&mut v, concat("--output-filename=", output_path));
        push_arg(&mut v, concat("--vits-length-scale=", speed.length_scale_text()));
        push_arg(&mut v, String::from_str(text));
        assert(v.deep_view() =~= engine_args(
            self.dir(),
            self.files_spec(),
            text@,
            speed,
            output_path@,
        ));
        v
    }

    /// The sample rate of the voice's output: MeloTTS writes 44100 Hz, the
    /// other models 22050 Hz.
    pub fn sample_rate(&self) -> (r: u32)
        ensures
            r == (if self.voice_spec().melo() { 44100u32 } else { 22050u32 }),
    {
        if self.voice.is_melo() {
            44100
        } else {
            22050
        }
    }

    /// The voice the engine speaks with.
    pub fn voice(&self) -> (r: Voice)
        ensures
            r == self.voice_spec(),
    {
        self.voice
    }
}

} // verus!
