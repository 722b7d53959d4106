use bibo::error::BiboError;
use bibo::sherpa::{
    binary_candidates, locate_binary, sherpa_available, sherpa_bin_dir, sherpa_download_url, sherpa_env,
    sherpa_lib_dir, sherpa_tts_path, sherpa_tts_play_path, Platform, SHERPA_VERSION,
};

#[test]
fn download_urls_per_platform() {
    assert_eq!(
        sherpa_download_url(Platform::LinuxX64),
        "https://github.com/k2-fsa/sherpa-onnx/releases/download/v1.12.20/sherpa-onnx-v1.12.20-linux-x64-shared.tar.bz2"
    );
    assert_eq!(
        sherpa_download_url(Platform::LinuxAarch64),
        "https://github.com/k2-fsa/sherpa-onnx/releases/download/v1.12.20/sherpa-onnx-v1.12.20-linux-aarch64-shared.tar.bz2"
    );
    assert!(sherpa_download_url(Platform::MacOs).ends_with("osx-universal2-shared.tar.bz2"));
    assert!(sherpa_download_url(Platform::MacOs).contains(SHERPA_VERSION));
}

#[test]
fn engine_paths() {
    let root = "/d/bibo";
    assert_eq!(sherpa_bin_dir(root), "/d/bibo/sherpa");
    assert_eq!(sherpa_tts_path(root), "/d/bibo/sherpa/bin/sherpa-onnx-offline-tts");
    assert_eq!(sherpa_tts_play_path(root), "/d/bibo/sherpa/bin/sherpa-onnx-offline-tts-play");
    assert_eq!(sherpa_lib_dir(root), "/d/bibo/sherpa/lib");
}

#[test]
fn engine_environment() {
    let env = sherpa_env("/d/bibo", Platform::LinuxX64, "");
    assert_eq!(env, vec![("LD_LIBRARY_PATH".to_string(), "/d/bibo/sherpa/lib".to_string())]);
    let env = sherpa_env("/d/bibo", Platform::MacOs, "/usr/lib");
    assert_eq!(env, vec![("DYLD_LIBRARY_PATH".to_string(), "/d/bibo/sherpa/lib:/usr/lib".to_string())]);
}

#[test]
fn candidate_order() {
    let c = binary_candidates(
        Some("/env/tts".to_string()),
        vec!["/opt/homebrew/tts".to_string()],
        "/user/tts".to_string(),
    );
    assert_eq!(c, vec!["/env/tts".to_string(), "/opt/homebrew/tts".to_string(), "/user/tts".to_string()]);
    let c = binary_candidates(None, vec![], "/user/tts".to_string());
    assert_eq!(c, vec!["/user/tts".to_string()]);
}

#[test]
fn first_present_candidate_wins() {
    let c = vec!["/a".to_string(), "/b".to_string(), "/c".to_string()];
    assert_eq!(locate_binary(&c, &vec![false, true, true], Some("/usr/bin/x\n".to_string())), Ok("/b".to_string()));
    assert_eq!(locate_binary(&c, &vec![false, false, false], Some("  /usr/bin/x\n".to_string())), Ok("/usr/bin/x".to_string()));
    assert_eq!(locate_binary(&c, &vec![false, false, false], Some(" \n".to_string())), Err(BiboError::SherpaNotFound));
    assert_eq!(locate_binary(&c, &vec![false, false, false], None), Err(BiboError::SherpaNotFound));
    assert!(sherpa_available(&c, &vec![false, false, true], None));
    assert!(!sherpa_available(&c, &vec![false, false, false], None));
}
