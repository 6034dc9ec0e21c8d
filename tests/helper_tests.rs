use nvdec_pipeline::helper::{
    build_config, detect_hw_accel, get_deno_args, get_ytdlp_command, is_path_allowed, CacheStats, CachedFrame,
};

#[test]
fn path_allow_list() {
    let allowed = vec!["/tmp".to_string(), "/home/u/Downloads".to_string()];
    assert!(is_path_allowed("/tmp/x.mp4", &allowed));
    assert!(is_path_allowed("/home/u/Downloads/a/b.mkv", &allowed));
    assert!(!is_path_allowed("/etc/passwd", &allowed));
    assert!(!is_path_allowed("/tm", &allowed));
    assert!(!is_path_allowed("/tmp/x", &Vec::<String>::new()));
    assert!(is_path_allowed("/tmp", &allowed));
    assert!(!is_path_allowed("/tmpx", &allowed));
    assert!(!is_path_allowed("/tmp/../etc/passwd", &allowed));
    assert!(!is_path_allowed("/tmp/..", &allowed));
    assert!(is_path_allowed("/tmp/a..b/c", &allowed));
    assert!(is_path_allowed("/tmp/sub/x", &vec!["/tmp/".to_string()]));
}

#[test]
fn hw_accel_list() {
    assert_eq!(detect_hw_accel(true, true, true), vec!["vaapi", "nvdec", "v4l2m2m"]);
    assert_eq!(detect_hw_accel(false, true, false), vec!["nvdec"]);
    assert!(detect_hw_accel(false, false, false).is_empty());
}

#[test]
fn downloader_discovery() {
    assert_eq!(get_ytdlp_command(None), "yt-dlp");
    assert_eq!(get_ytdlp_command(Some("/opt/yt-dlp".to_string())), "/opt/yt-dlp");
    assert_eq!(get_deno_args(Some("/bin/deno".to_string())), vec!["--js-runtimes", "deno:/bin/deno"]);
    assert!(get_deno_args(None).is_empty());
}

#[test]
fn cache_sizes() {
    let f = CachedFrame { data: vec![0u8; 4096], width: 32, height: 32, timestamp_ms: 0 };
    assert_eq!(f.size(), 4096);
    let s = CacheStats { used_bytes: 3 * 1024 * 1024 + 5, max_bytes: 512 * 1024 * 1024, frame_count: 1 };
    assert_eq!(s.used_mb(), 3);
    assert_eq!(s.max_mb(), 512);
}

#[test]
fn config_with_given_origins() {
    let c = build_config(9876, 2048, 8, Some(" http://a.test , http://b.test,\u{3000}x\t,"));
    assert_eq!(c.port, 9876);
    assert_eq!(c.cache_mb, 2048);
    assert_eq!(c.max_decoders, 8);
    assert_eq!(c.allowed_origins, vec!["http://a.test", "http://b.test", "x", ""]);
}

#[test]
fn config_with_default_origins() {
    let c = build_config(1, 2, 3, None);
    assert_eq!(c.allowed_origins.len(), 6);
    assert_eq!(c.allowed_origins[0], "https://masterselects.app");
    assert_eq!(c.allowed_origins[5], "http://127.0.0.1:3000");
    assert_eq!(build_config(1, 2, 3, Some("")).allowed_origins, vec![""]);
}
