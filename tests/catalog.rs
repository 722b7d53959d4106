use bibo::layout::{app_root_from, join_path};
use bibo::voice::{catalog_voice, mentions, VoiceCatalog, VoiceFiles, CATALOG_LEN};

#[test]
fn unknown_id_is_not_found() {
    assert!(VoiceCatalog::find("nonexistent").is_none());
    assert!(VoiceCatalog::find("").is_none());
    assert!(VoiceCatalog::find("mel").is_none());
    assert!(VoiceCatalog::find("melo ").is_none());
}

#[test]
fn find_ignores_ascii_case() {
    let v = VoiceCatalog::find("MeLo").unwrap();
    assert_eq!(v.id, "melo");
    assert_eq!(v.name, "MeloTTS");
    let v = VoiceCatalog::find("AMY").unwrap();
    assert_eq!(v.model_dir, "vits-piper-en_US-amy-medium");
    assert_eq!(v.gender, 'F');
    assert_eq!(v.size_mb, 60);
}

#[test]
fn catalog_order_and_size() {
    assert_eq!(CATALOG_LEN, 17);
    assert_eq!(catalog_voice(0).id, "melo");
    assert_eq!(catalog_voice(2).id, "aishell3");
    assert_eq!(catalog_voice(16).id, "vais");
    assert_eq!(
        catalog_voice(16).download_url,
        "https://github.com/k2-fsa/sherpa-onnx/releases/download/tts-models/vits-mimic3-vi_VN-vais1000_low.tar.bz2"
    );
}

#[test]
fn default_voice_is_melo() {
    assert_eq!(VoiceCatalog::default_voice().id, "melo");
}

#[test]
fn voice_paths() {
    let v = VoiceCatalog::find("amy").unwrap();
    let base = "/data/bibo/models";
    assert_eq!(v.model_dir_path(base), "/data/bibo/models/vits-piper-en_US-amy-medium");
    assert_eq!(v.model_path(base), "/data/bibo/models/vits-piper-en_US-amy-medium/model.onnx");
    assert_eq!(v.tokens_path(base), "/data/bibo/models/vits-piper-en_US-amy-medium/tokens.txt");
    assert_eq!(v.lexicon_path(base), "/data/bibo/models/vits-piper-en_US-amy-medium/lexicon.txt");
    assert_eq!(v.dict_dir(base), "/data/bibo/models/vits-piper-en_US-amy-medium/dict");
    assert_eq!(v.data_dir(base), "/data/bibo/models/vits-piper-en_US-amy-medium/espeak-ng-data");
    assert_eq!(v.model_path("/m/"), "/m/vits-piper-en_US-amy-medium/model.onnx");
}

#[test]
fn melo_models() {
    assert!(VoiceCatalog::find("melo").unwrap().is_melo());
    assert!(!VoiceCatalog::find("amy").unwrap().is_melo());
}

#[test]
fn installed_check_for_catalog_voice() {
    let listing = vec!["vits-piper-en_US-amy-medium".to_string()];
    assert!(VoiceCatalog::is_installed("amy", &listing));
    assert!(VoiceCatalog::is_installed("AMY", &listing));
    assert!(!VoiceCatalog::is_installed("ryan", &listing));
    assert!(!VoiceCatalog::is_installed("amy", &vec![]));
    let partial = vec!["vits-piper-en_US-amy-medium-old".to_string()];
    assert!(!VoiceCatalog::is_installed("amy", &partial));
}

#[test]
fn installed_check_for_other_names() {
    let listing = vec!["My-Custom-Voice".to_string()];
    assert!(VoiceCatalog::is_installed("custom", &listing));
    assert!(VoiceCatalog::is_installed("CUSTOM-voice", &listing));
    assert!(!VoiceCatalog::is_installed("other", &listing));
}

#[test]
fn install_status_marks_listed_voices() {
    let listing = vec!["VITS-LJS".to_string(), "vits-zh-aishell3".to_string()];
    let status = VoiceCatalog::install_status(&listing);
    assert_eq!(status.len(), 17);
    assert!(status[2]);
    assert!(status[8]);
    assert!(!status[0]);
    assert_eq!(status.iter().filter(|b| **b).count(), 2);
}

#[test]
fn mentions_compares_in_lower_case() {
    assert!(mentions("Vits-MELO-tts", "melo"));
    assert!(!mentions("vits-ljs", "melo"));
}

#[test]
fn model_dir_path_needs_directory() {
    let present = VoiceFiles { dir: true, ..VoiceFiles::default() };
    assert_eq!(
        VoiceCatalog::model_dir_path("kss", "/m", &present),
        Some("/m/vits-mimic3-ko_KO-kss_low".to_string())
    );
    assert_eq!(VoiceCatalog::model_dir_path("kss", "/m", &VoiceFiles::default()), None);
    assert_eq!(VoiceCatalog::model_dir_path("nope", "/m", &present), None);
}

#[test]
fn layout_paths() {
    assert_eq!(join_path("", "x"), "x");
    assert_eq!(join_path("a", "x"), "a/x");
    assert_eq!(join_path("a/", "x"), "a/x");
    assert_eq!(app_root_from(None), "./bibo");
    assert_eq!(app_root_from(Some("/home/u/.local/share".to_string())), "/home/u/.local/share/bibo");
    assert_eq!(VoiceCatalog::models_dir("/home/u/.local/share/bibo"), "/home/u/.local/share/bibo/models");
}

#[test]
fn app_root_ends_in_tool_directory() {
    let root = bibo::layout::app_root();
    assert!(root.ends_with("/bibo"));
}
