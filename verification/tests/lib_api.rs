use ava_bot::{audio_path, audio_url, image_path, image_url, AppContext, Args};

#[test]
fn audio_paths_and_urls_are_laid_out_per_session() {
    assert_eq!(audio_path("dev1", "abc"), "/tmp/ava-bot/audio/dev1/abc.mp3");
    assert_eq!(audio_url("dev1", "abc"), "/assets/audio/dev1/abc.mp3");
}

#[test]
fn image_paths_and_urls_are_laid_out_per_session() {
    assert_eq!(image_path("dev1", "abc"), "/tmp/ava-bot/image/dev1/abc.png");
    assert_eq!(image_url("dev1", "abc"), "/assets/image/dev1/abc.png");
}

#[test]
fn default_args_serve_on_8080_with_the_local_cert_dir() {
    let args = Args::default();
    assert_eq!(args.port, 8080);
    assert_eq!(args.cert_path, "./.certs");
}

#[test]
fn app_context_keeps_the_session_id() {
    let ctx = AppContext::new("device-7".to_string());
    assert_eq!(ctx.device_id, "device-7");
}
