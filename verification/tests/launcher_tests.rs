use slasshy::launcher::{
    ffmpeg_binary_name, ffmpeg_candidate_paths, get_supported_platforms, yt_dlp_binary_name,
    yt_dlp_candidate_paths, Downloader, DownloadRequest,
};

const TEMPLATE: &str = "download:%(progress._percent_str)s|%(progress._speed_str)s|%(progress._eta_str)s|%(progress._downloaded_bytes_str)s|%(progress._total_bytes_str)s";

fn request() -> DownloadRequest {
    DownloadRequest {
        id: "d1".to_string(),
        url: "https://example.com/v".to_string(),
        output_path: "/tmp/out".to_string(),
        format: None,
        audio_only: false,
        quality: None,
        embed_thumbnail: false,
        embed_metadata: false,
    }
}

fn base_args() -> Vec<String> {
    vec![
        "--progress".to_string(),
        "--newline".to_string(),
        "--no-warnings".to_string(),
        "--progress-template".to_string(),
        TEMPLATE.to_string(),
    ]
}

#[test]
fn plain_request_builds_the_base_vector() {
    let d = Downloader::new("/opt/bin/yt-dlp".to_string(), None);
    let args = d.build_download_args(&request());
    let mut expected = base_args();
    expected.push("-o".to_string());
    expected.push("/tmp/out/%(title)s.%(ext)s".to_string());
    expected.push("https://example.com/v".to_string());
    assert_eq!(args, expected);
}

#[test]
fn ffmpeg_location_is_passed_when_known() {
    let d = Downloader::new("yt-dlp".to_string(), Some("/opt/ffmpeg/bin".to_string()));
    let args = d.build_download_args(&request());
    let mut expected = base_args();
    expected.push("--ffmpeg-location".to_string());
    expected.push("/opt/ffmpeg/bin".to_string());
    expected.push("-o".to_string());
    expected.push("/tmp/out/%(title)s.%(ext)s".to_string());
    expected.push("https://example.com/v".to_string());
    assert_eq!(args, expected);
}

#[test]
fn audio_only_takes_precedence_over_everything() {
    let d = Downloader::new("yt-dlp".to_string(), None);
    let mut req = request();
    req.audio_only = true;
    req.format = Some("bestvideo".to_string());
    req.quality = Some("720p".to_string());
    let args = d.build_download_args(&req);
    let mut expected = base_args();
    expected.push("-o".to_string());
    expected.push("/tmp/out/%(title)s.%(ext)s".to_string());
    expected.push("-x".to_string());
    expected.push("--audio-format".to_string());
    expected.push("mp3".to_string());
    expected.push("--audio-quality".to_string());
    expected.push("0".to_string());
    expected.push("https://example.com/v".to_string());
    assert_eq!(args, expected);
}

#[test]
fn explicit_format_is_used_verbatim() {
    let d = Downloader::new("yt-dlp".to_string(), None);
    let mut req = request();
    req.format = Some("bv*+ba/b".to_string());
    req.quality = Some("720p".to_string());
    let args = d.build_download_args(&req);
    assert!(args.contains(&"-f".to_string()));
    assert!(args.contains(&"bv*+ba/b".to_string()));
    assert!(!args.contains(&"--merge-output-format".to_string()));
}

#[test]
fn empty_format_string_selects_nothing_and_skips_the_quality_tier() {
    let d = Downloader::new("yt-dlp".to_string(), None);
    let mut req = request();
    req.format = Some(String::new());
    req.quality = Some("720p".to_string());
    let args = d.build_download_args(&req);
    assert!(!args.contains(&"-f".to_string()));
    assert!(!args.contains(&"--merge-output-format".to_string()));
}

#[test]
fn quality_tiers_map_to_height_ceilings() {
    let d = Downloader::new("yt-dlp".to_string(), None);
    for (tier, selector) in [
        ("best", "bestvideo+bestaudio/best"),
        ("4k", "bestvideo+bestaudio/best"),
        ("2160p", "bestvideo+bestaudio/best"),
        ("1080p", "bestvideo[height<=1080]+bestaudio/best[height<=1080]/best"),
        ("720p", "bestvideo[height<=720]+bestaudio/best[height<=720]/best"),
        ("480p", "bestvideo[height<=480]+bestaudio/best[height<=480]/best"),
        ("360p", "bestvideo[height<=360]+bestaudio/best[height<=360]/best"),
        ("potato", "bestvideo+bestaudio/best"),
    ] {
        let mut req = request();
        req.quality = Some(tier.to_string());
        let args = d.build_download_args(&req);
        let fpos = args.iter().position(|a| a == "-f").unwrap();
        assert_eq!(args[fpos + 1], selector);
        assert!(args.contains(&"--merge-output-format".to_string()));
        assert!(args.contains(&"mp4".to_string()));
    }
}

#[test]
fn embed_switches_come_before_the_url_which_is_last() {
    let d = Downloader::new("yt-dlp".to_string(), None);
    let mut req = request();
    req.embed_thumbnail = true;
    req.embed_metadata = true;
    let args = d.build_download_args(&req);
    let n = args.len();
    assert_eq!(args[n - 3], "--embed-thumbnail");
    assert_eq!(args[n - 2], "--embed-metadata");
    assert_eq!(args[n - 1], "https://example.com/v");
}

#[test]
fn yt_dlp_info_trims_the_version_and_detects_the_bundled_copy() {
    let d = Downloader::new("/app/binaries/yt-dlp".to_string(), None);
    let info = d.yt_dlp_info("2024.08.06\n");
    assert_eq!(info.version, "2024.08.06");
    assert_eq!(info.path, "/app/binaries/yt-dlp");
    assert!(info.is_embedded);

    let d = Downloader::new("/usr/local/bin/yt-dlp".to_string(), None);
    let info = d.yt_dlp_info("  2024.08.06  ");
    assert_eq!(info.version, "2024.08.06");
    assert!(!info.is_embedded);
}

#[test]
fn candidate_paths_per_platform() {
    assert_eq!(
        yt_dlp_candidate_paths(true, false),
        vec!["binaries/yt-dlp.exe", "yt-dlp.exe"]
    );
    assert_eq!(
        yt_dlp_candidate_paths(false, true),
        vec!["binaries/yt-dlp_macos", "yt-dlp_macos", "binaries/yt-dlp", "yt-dlp"]
    );
    assert_eq!(
        yt_dlp_candidate_paths(false, false),
        vec!["binaries/yt-dlp", "yt-dlp"]
    );
    assert_eq!(
        ffmpeg_candidate_paths(true),
        vec!["binaries/ffmpeg.exe", "ffmpeg.exe"]
    );
    assert_eq!(ffmpeg_candidate_paths(false), vec!["binaries/ffmpeg", "ffmpeg"]);
    assert_eq!(yt_dlp_binary_name(true), "yt-dlp.exe");
    assert_eq!(yt_dlp_binary_name(false), "yt-dlp");
    assert_eq!(ffmpeg_binary_name(true), "ffmpeg.exe");
    assert_eq!(ffmpeg_binary_name(false), "ffmpeg");
}

#[test]
fn supported_platforms_list_is_complete_and_ordered() {
    let p = get_supported_platforms();
    assert_eq!(p.len(), 16);
    assert_eq!(p[0], "YouTube");
    assert_eq!(p[5], "Twitter/X");
    assert_eq!(p[15], "And 1000+ more...");
}
