use bibo::cli::{Cli, Mode, Speed};
use bibo::engine::TtsEngine;
use bibo::error::BiboError;
use bibo::voice::VoiceFiles;

fn cli() -> Cli {
    Cli {
        text: None,
        voice: "melo".to_string(),
        speed: Speed::Normal,
        fast: false,
        input: None,
        output: None,
        quiet: false,
        list: false,
        download: None,
    }
}

#[test]
fn speed_scales_are_exact() {
    assert_eq!(Speed::Slow.length_scale_hundredths(), 120);
    assert_eq!(Speed::Normal.length_scale_hundredths(), 100);
    assert_eq!(Speed::Fast.length_scale_hundredths(), 80);
    assert_eq!(Speed::Slow.length_scale_text(), "1.20");
    assert_eq!(Speed::Normal.length_scale_text(), "1.00");
    assert_eq!(Speed::Fast.length_scale_text(), "0.80");
    assert_eq!(Speed::Fast.name(), "fast");
    assert_eq!(Speed::default(), Speed::Normal);
}

#[test]
fn speed_scale_is_monotonic() {
    let s = [Speed::Slow, Speed::Normal, Speed::Fast];
    for w in s.windows(2) {
        assert!(w[0].length_scale_hundredths() > w[1].length_scale_hundredths());
    }
}

#[test]
fn fast_flag_overrides_speed() {
    let mut c = cli();
    c.speed = Speed::Slow;
    assert_eq!(c.effective_speed(), Speed::Slow);
    c.fast = true;
    assert_eq!(c.effective_speed(), Speed::Fast);
    c.speed = Speed::Normal;
    assert_eq!(c.effective_speed(), Speed::Fast);
}

#[test]
fn mode_follows_dispatch_order() {
    let mut c = cli();
    assert_eq!(c.mode(), Mode::Speak);
    c.list = true;
    assert_eq!(c.mode(), Mode::ListInstalled);
    c.download = Some("amy".to_string());
    assert_eq!(c.mode(), Mode::Download("amy".to_string()));
}

fn all_files() -> VoiceFiles {
    VoiceFiles { dir: true, model: true, tokens: true, lexicon: true, dict: true, data: true }
}

#[test]
fn engine_for_unknown_voice() {
    let r = TtsEngine::new("nobody", "/m", &all_files());
    assert_eq!(r.err(), Some(BiboError::VoiceNotFound("nobody".to_string())));
}

#[test]
fn engine_for_absent_voice_is_not_installed() {
    let r = TtsEngine::new("amy", "/m", &VoiceFiles::default());
    assert_eq!(r.err(), Some(BiboError::VoiceNotInstalled("amy".to_string())));
}

#[test]
fn engine_without_model_file_is_not_installed() {
    let files = VoiceFiles { dir: true, tokens: true, ..VoiceFiles::default() };
    let r = TtsEngine::new("amy", "/m", &files);
    assert_eq!(r.err(), Some(BiboError::VoiceNotInstalled("amy".to_string())));
}

#[test]
fn engine_arguments() {
    let files = VoiceFiles { dir: true, model: true, tokens: true, lexicon: false, dict: false, data: true };
    let e = TtsEngine::new("Amy", "/m", &files).unwrap();
    let args = e.synthesis_args("Hello \"world\" -x", Speed::Fast, "/tmp/out.wav");
    assert_eq!(
        args,
        vec![
            "--vits-model=/m/vits-piper-en_US-amy-medium/model.onnx".to_string(),
            "--vits-tokens=/m/vits-piper-en_US-amy-medium/tokens.txt".to_string(),
            "--vits-data-dir=/m/vits-piper-en_US-amy-medium/espeak-ng-data".to_string(),
            "--output-filename=/tmp/out.wav".to_string(),
            "--vits-length-scale=0.80".to_string(),
            "Hello \"world\" -x".to_string(),
        ]
    );
    assert_eq!(e.voice().id, "amy");
}

#[test]
fn engine_arguments_for_melo() {
    let e = TtsEngine::new("melo", "/m", &all_files()).unwrap();
    let args = e.synthesis_args("你好", Speed::Slow, "o.wav");
    assert_eq!(args.len(), 8);
    assert_eq!(args[2], "--vits-lexicon=/m/vits-melo-tts-zh_en/lexicon.txt");
    assert_eq!(args[3], "--vits-dict-dir=/m/vits-melo-tts-zh_en/dict");
    assert_eq!(args[6], "--vits-length-scale=1.20");
    assert_eq!(args[7], "你好");
}

#[test]
fn sample_rate_depends_on_voice() {
    let e = TtsEngine::new("melo", "/m", &all_files()).unwrap();
    assert_eq!(e.sample_rate(), 44100);
    let e = TtsEngine::new("ryan", "/m", &all_files()).unwrap();
    assert_eq!(e.sample_rate(), 22050);
}
