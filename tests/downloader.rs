use ryt::config::Config;
use ryt::downloader::{format_args, parse_percent, DownloadSession, Downloader, Phase};
use ryt::error::RytError;
use ryt::ui::{ContentType, Format, Quality};

fn config_under(dir: &str) -> Config {
    Config::with_download_dir(dir.to_string())
}

#[test]
fn format_selection_per_format_and_quality() {
    let audio = vec!["--extract-audio", "--audio-format", "best", "--audio-quality", "0"];
    assert_eq!(format_args(Format::Audio, None), audio);
    assert_eq!(format_args(Format::Audio, Some(Quality::P720)), audio);
    assert_eq!(format_args(Format::Video, Some(Quality::Best)), vec!["-f", "best"]);
    assert_eq!(
        format_args(Format::Video, Some(Quality::P1080)),
        vec!["-f", "bestvideo[height<=1080]+bestaudio/best[height<=1080]"]
    );
    assert_eq!(
        format_args(Format::Video, Some(Quality::P2160)),
        vec!["-f", "bestvideo[height<=2160]+bestaudio/best[height<=2160]"]
    );
    assert!(format_args(Format::Video, None).is_empty());
}

#[test]
fn heights_of_qualities() {
    assert_eq!(Quality::P480.to_height(), "480");
    assert_eq!(Quality::P720.to_height(), "720");
    assert_eq!(Quality::P1080.to_height(), "1080");
    assert_eq!(Quality::P1440.to_height(), "1440");
    assert_eq!(Quality::P2160.to_height(), "2160");
    assert_eq!(Quality::Best.to_height(), "best");
}

#[test]
fn progress_line_is_parsed() {
    let d = Downloader::new(config_under("/tmp/media"));
    let line = "[download]  42.5% of 10MiB";
    let p = d.parse_progress(line).unwrap();
    assert_eq!(p.whole, 42);
    assert_eq!(p.fraction, "5");
    let value: f32 = format!("{}.{}", p.whole, p.fraction).parse().unwrap();
    assert_eq!(value, 42.5);
    assert_eq!(d.extract_status(line), "42.5% of 10MiB");
}

#[test]
fn line_without_marker_gives_no_progress() {
    let d = Downloader::new(config_under("/tmp/media"));
    assert!(d.parse_progress("[youtube] abc: Downloading webpage").is_none());
    assert!(d.parse_progress("Destination: x.mp4").is_none());
    assert!(d.parse_progress("[download] 12 of").is_none());
    assert_eq!(d.extract_status("[youtube] abc: Downloading webpage"), "abc: Downloading webpage");
    assert_eq!(d.extract_status("Destination: x.mp4"), "Destination: x.mp4");
    assert_eq!(d.extract_status(""), "");
    assert_eq!(d.extract_status("[info]   x ] y"), "x ] y");
    assert_eq!(d.extract_status("a]  "), "");
    assert_eq!(d.extract_status("a]b"), "a]b");
}

#[test]
fn whole_percentages_and_later_matches() {
    let d = Downloader::new(config_under("/tmp/media"));
    let p = d.parse_progress("[download] 100% of 3.00MiB in 00:01").unwrap();
    assert_eq!(p.whole, 100);
    assert_eq!(p.fraction, "");
    let p = d.parse_progress("x [download] y [download]\t7.25%").unwrap();
    assert_eq!(p.whole, 7);
    assert_eq!(p.fraction, "25");
    assert!(d.parse_progress("[download]  150.0% of 1MiB").is_none());
}

#[test]
fn percent_texts() {
    let p = parse_percent("0").unwrap();
    assert_eq!((p.whole, p.fraction.as_str()), (0, ""));
    let p = parse_percent("007.50").unwrap();
    assert_eq!((p.whole, p.fraction.as_str()), (7, "50"));
    let p = parse_percent("100.000").unwrap();
    assert_eq!((p.whole, p.fraction.as_str()), (100, "000"));
    assert!(parse_percent("100.01").is_none());
    assert!(parse_percent("101").is_none());
    assert!(parse_percent("99999999999999999999999").is_none());
    assert!(parse_percent("").is_none());
    assert!(parse_percent(".5").is_none());
    assert!(parse_percent("5.").is_none());
    assert!(parse_percent("1.2.3").is_none());
    assert!(parse_percent("4a").is_none());
}

#[test]
fn command_line_of_a_single_video() {
    let d = Downloader::new(config_under("/home/u/Documents/ryt"));
    let args = d.command_args("https://youtu.be/x", ContentType::Single, Format::Video, Some(Quality::P720));
    assert_eq!(
        args,
        vec![
            "https://youtu.be/x",
            "-o",
            "/home/u/Documents/ryt/single-videos/%(title)s.%(ext)s",
            "-f",
            "bestvideo[height<=720]+bestaudio/best[height<=720]",
            "--newline",
        ]
    );
}

#[test]
fn command_line_of_a_playlist_of_audio() {
    let d = Downloader::new(config_under("media/"));
    let args = d.command_args("https://vimeo.com/1", ContentType::Playlist, Format::Audio, None);
    assert_eq!(
        args,
        vec![
            "https://vimeo.com/1",
            "-o",
            "media/playlists/%(playlist_title)s/%(title)s.%(ext)s",
            "--extract-audio",
            "--audio-format",
            "best",
            "--audio-quality",
            "0",
            "--newline",
        ]
    );
}

#[test]
fn program_defaults_to_yt_dlp() {
    let d = Downloader::new(config_under("/tmp"));
    assert_eq!(d.program(), "yt-dlp");
    assert_eq!(d.version_args(), vec!["--version"]);
    let mut c = config_under("/tmp");
    c.ytdlp_path = Some("/opt/bin/yt-dlp".to_string());
    let d = Downloader::new(c);
    assert_eq!(d.program(), "/opt/bin/yt-dlp");
    assert_eq!(d.config.download_dir, "/tmp");
    assert_eq!(d.current_config().ytdlp_path.as_deref(), Some("/opt/bin/yt-dlp"));
}

#[test]
fn availability_verdicts() {
    assert!(Downloader::check_outcome(true, true).is_ok());
    assert!(matches!(Downloader::check_outcome(false, false), Err(RytError::YtDlpNotFound)));
    assert!(matches!(Downloader::check_outcome(true, false), Err(RytError::YtDlpNotFound)));
}

#[test]
fn session_that_succeeds() {
    let d = Downloader::new(config_under("/tmp"));
    let mut s = DownloadSession::new();
    assert_eq!(s.phase, Phase::Spawning);
    assert!(s.spawned(true).is_ok());
    assert_eq!(s.phase, Phase::Streaming);
    assert!(!s.line(&d, "[youtube] id: Downloading"));
    assert_eq!(s.position, 0);
    assert!(s.line(&d, "[download]  42.5% of 10MiB"));
    assert_eq!(s.position, 42);
    assert_eq!(s.status, "42.5% of 10MiB");
    assert!(s.line(&d, "[download]  12.0% of 10MiB"));
    assert_eq!(s.position, 12);
    s.output_closed();
    assert_eq!(s.phase, Phase::WaitingForExit);
    assert!(s.exited(true).is_ok());
    assert_eq!(s.phase, Phase::Succeeded);
}

#[test]
fn session_that_fails() {
    let mut s = DownloadSession::new();
    assert!(matches!(s.spawned(false), Err(RytError::YtDlpNotFound)));
    assert_eq!(s.phase, Phase::Failed);
    let mut s = DownloadSession::new();
    assert!(s.spawned(true).is_ok());
    s.output_closed();
    assert!(matches!(s.exited(false), Err(RytError::DownloadFailed)));
    assert_eq!(s.phase, Phase::Failed);
}

#[test]
fn error_messages() {
    assert_eq!(RytError::YtDlpNotFound.message(), "yt-dlp is not installed or not found in PATH");
    assert_eq!(RytError::DownloadFailed.message(), "Download failed");
    assert_eq!(RytError::InvalidUrl.message(), "Invalid URL format");
    assert_eq!(RytError::IoError("denied".to_string()).message(), "IO error: denied");
}
