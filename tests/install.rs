use bibo::error::BiboError;
use bibo::install::{
    progress_total, tar_args, InstallAction, InstallFailure, InstallJob, InstallTarget, SherpaDownloader,
    VoiceDownloader,
};
use bibo::sherpa::Platform;

fn amy_job() -> InstallJob {
    InstallJob::new(VoiceDownloader::plan("amy", "/m").unwrap())
}

#[test]
fn voice_plan_paths() {
    let p = VoiceDownloader::plan("AMY", "/m").unwrap();
    assert_eq!(p.target, InstallTarget::Voice);
    assert_eq!(p.label, "Amy");
    assert_eq!(p.dest_dir, "/m");
    assert_eq!(p.archive, "/m/vits-piper-en_US-amy-medium.tar.bz2");
    assert_eq!(p.decisive, "/m/vits-piper-en_US-amy-medium/model.onnx");
    assert_eq!(
        p.url,
        "https://github.com/k2-fsa/sherpa-onnx/releases/download/tts-models/vits-piper-en_US-amy-medium.tar.bz2"
    );
}

#[test]
fn voice_plan_for_unknown_voice() {
    assert_eq!(VoiceDownloader::plan("zzz", "/m").err(), Some(BiboError::VoiceNotFound("zzz".to_string())));
}

#[test]
fn engine_plan_paths() {
    let p = SherpaDownloader::plan("/d/bibo", Platform::LinuxX64);
    assert_eq!(p.target, InstallTarget::Engine);
    assert_eq!(p.dest_dir, "/d/bibo/sherpa");
    assert_eq!(p.archive, "/d/bibo/sherpa/sherpa_temp.tar.bz2");
    assert_eq!(p.decisive, "/d/bibo/sherpa/bin/sherpa-onnx-offline-tts");
    assert!(SherpaDownloader::needs_download(false));
    assert!(!SherpaDownloader::needs_download(true));
}

#[test]
fn successful_install_runs_every_step() {
    let mut job = amy_job();
    assert!(matches!(job.step(Ok(true)), InstallAction::CreateDir(d) if d == "/m"));
    assert!(matches!(job.step(Ok(true)), InstallAction::CheckPresent(p) if p.ends_with("/model.onnx")));
    match job.step(Ok(false)) {
        InstallAction::Fetch { url, dest } => {
            assert!(url.ends_with("vits-piper-en_US-amy-medium.tar.bz2"));
            assert_eq!(dest, "/m/vits-piper-en_US-amy-medium.tar.bz2");
        }
        other => panic!("unexpected {:?}", other),
    }
    match job.step(Ok(true)) {
        InstallAction::Extract { archive, dest, strip_components } => {
            assert_eq!(archive, "/m/vits-piper-en_US-amy-medium.tar.bz2");
            assert_eq!(dest, "/m");
            assert!(!strip_components);
        }
        other => panic!("unexpected {:?}", other),
    }
    assert!(matches!(job.step(Ok(true)), InstallAction::RemoveFile(p) if p.ends_with(".tar.bz2")));
    assert!(matches!(job.step(Ok(true)), InstallAction::CheckPresent(p) if p.ends_with("/model.onnx")));
    assert!(matches!(job.step(Ok(true)), InstallAction::Finish(Ok(true))));
    assert!(job.is_finished());
}

#[test]
fn already_installed_voice_is_not_fetched() {
    let mut job = amy_job();
    job.step(Ok(true));
    job.step(Ok(true));
    assert!(matches!(job.step(Ok(true)), InstallAction::Finish(Ok(false))));
}

#[test]
fn failed_unpacking_still_removes_archive() {
    let mut job = amy_job();
    job.step(Ok(true));
    job.step(Ok(true));
    job.step(Ok(false));
    job.step(Ok(true));
    assert!(matches!(job.step(Err("bad archive".to_string())), InstallAction::RemoveFile(p) if p.ends_with(".tar.bz2")));
    match job.step(Ok(true)) {
        InstallAction::Finish(Err(f)) => assert_eq!(f, InstallFailure::Extract("bad archive".to_string())),
        other => panic!("unexpected {:?}", other),
    }
}

#[test]
fn missing_model_after_unpacking_fails() {
    let mut job = amy_job();
    job.step(Ok(true));
    job.step(Ok(true));
    job.step(Ok(false));
    job.step(Ok(true));
    assert!(matches!(job.step(Ok(true)), InstallAction::RemoveFile(_)));
    assert!(matches!(job.step(Ok(true)), InstallAction::CheckPresent(_)));
    match job.step(Ok(false)) {
        InstallAction::Finish(Err(f)) => assert_eq!(f, InstallFailure::Missing),
        other => panic!("unexpected {:?}", other),
    }
}

#[test]
fn failed_fetch_removes_partial_file() {
    let mut job = amy_job();
    job.step(Ok(true));
    job.step(Ok(true));
    job.step(Ok(false));
    assert!(matches!(job.step(Err("HTTP 404".to_string())), InstallAction::RemoveFile(p) if p.ends_with(".tar.bz2")));
    match job.step(Ok(true)) {
        InstallAction::Finish(Err(f)) => assert_eq!(f, InstallFailure::Fetch("HTTP 404".to_string())),
        other => panic!("unexpected {:?}", other),
    }
}

#[test]
fn failed_directory_creation_stops() {
    let mut job = amy_job();
    job.step(Ok(true));
    match job.step(Err("denied".to_string())) {
        InstallAction::Finish(Err(f)) => assert_eq!(f, InstallFailure::CreateDir("denied".to_string())),
        other => panic!("unexpected {:?}", other),
    }
}

#[test]
fn engine_install_strips_top_directory() {
    let mut job = InstallJob::new(SherpaDownloader::plan("/d", Platform::MacOs));
    job.step(Ok(true));
    job.step(Ok(true));
    job.step(Ok(false));
    assert!(matches!(job.step(Ok(true)), InstallAction::Extract { strip_components: true, .. }));
}

#[test]
fn failure_errors() {
    let p = VoiceDownloader::plan("amy", "/m").unwrap();
    assert_eq!(
        p.error_for(&InstallFailure::Missing),
        BiboError::DownloadFailed("Model file not found after extraction: Amy".to_string())
    );
    assert_eq!(
        p.error_for(&InstallFailure::Fetch("HTTP 500".to_string())),
        BiboError::DownloadFailed("Amy: HTTP 500".to_string())
    );
    assert_eq!(
        p.error_for(&InstallFailure::CreateDir("denied".to_string())),
        BiboError::Other("Failed to create models dir: denied".to_string())
    );
    assert_eq!(
        p.error_for(&InstallFailure::Extract("x".to_string())),
        BiboError::Other("tar extraction failed: x".to_string())
    );
    let e = SherpaDownloader::plan("/d", Platform::LinuxX64);
    assert_eq!(
        e.error_for(&InstallFailure::Missing),
        BiboError::Other("sherpa-onnx-offline-tts binary not found in extracted archive".to_string())
    );
    assert_eq!(
        e.error_for(&InstallFailure::CreateDir("denied".to_string())),
        BiboError::Other("Failed to create bin dir: denied".to_string())
    );
}

#[test]
fn archive_tool_arguments() {
    assert_eq!(tar_args("/m/a.tar.bz2", "/m", false), vec!["-xjf", "/m/a.tar.bz2", "-C", "/m"]);
    assert_eq!(
        tar_args("/s/t.tar.bz2", "/s", true),
        vec!["-xjf", "/s/t.tar.bz2", "-C", "/s", "--strip-components=1"]
    );
}

#[test]
fn progress_only_with_known_length() {
    assert_eq!(progress_total(false, Some(100)), Some(100));
    assert_eq!(progress_total(true, Some(100)), None);
    assert_eq!(progress_total(false, Some(0)), None);
    assert_eq!(progress_total(false, None), None);
}
