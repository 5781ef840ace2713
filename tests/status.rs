use moc_rs::status::parse_seconds;
use moc_rs::{parse_info, MocError, MocInfo, MocSource, MocState};

fn track(state: &str, file: &str, extra: &str) -> String {
    format!(
        "State: {}\nFile: {}\nTitle: Show Name\nArtist: DJ X\nSongTitle: Track One\nAlbum: -\nCurrentSec: 42\nBitrate: 128kbps\nAvgBitrate: 130kbps\nRate: 44100Hz\n{}",
        state, file, extra
    )
}

#[test]
fn stop_report_gives_default_snapshot() {
    let raw = "State: STOP\nFile: /music/a.ogg\nTitle: Leftover\nCurrentSec: 12\nTotalSec: 300\n";
    let info = parse_info(raw).unwrap();
    assert_eq!(info, MocInfo::default());
    assert_eq!(info.state(), MocState::Stopped);
    assert_eq!(info.total_time(), None);
    assert_eq!(info.current_time(), 0);
    assert_eq!(info.full_title(), "");
}

#[test]
fn stop_report_alone() {
    let info = parse_info("State: STOP").unwrap();
    assert_eq!(info, MocInfo::default());
}

#[test]
fn http_file_is_stream() {
    let info = parse_info(&track("PLAY", "http://example.com/stream", "")).unwrap();
    assert_eq!(info.file(), MocSource::Url("http://example.com/stream".to_string()));
}

#[test]
fn https_file_is_stream_when_paused() {
    let info = parse_info(&track("PAUSE", "https://radio.example.org:8000/live", "")).unwrap();
    assert_eq!(info.state(), MocState::Paused);
    assert_eq!(info.file(), MocSource::Url("https://radio.example.org:8000/live".to_string()));
}

#[test]
fn other_file_is_local() {
    let info = parse_info(&track("PLAY", "/home/me/music/song.flac", "TotalSec: 215\n")).unwrap();
    assert_eq!(info.file(), MocSource::File("/home/me/music/song.flac".to_string()));
}

#[test]
fn total_time_present() {
    let info = parse_info(&track("PLAY", "/a.mp3", "TotalSec: 215\n")).unwrap();
    assert_eq!(info.total_time(), Some(215));
}

#[test]
fn total_time_absent_is_unset() {
    let info = parse_info(&track("PLAY", "/a.mp3", "")).unwrap();
    assert_eq!(info.total_time(), None);
}

#[test]
fn total_time_zero_is_kept() {
    let info = parse_info(&track("PLAY", "/a.mp3", "TotalSec: 0\n")).unwrap();
    assert_eq!(info.total_time(), Some(0));
}

#[test]
fn missing_current_sec_when_playing() {
    let raw = "State: PLAY\nFile: /a.mp3\nTitle: t\n";
    assert_eq!(parse_info(raw), Err(MocError::MissingField("CurrentSec".to_string())));
}

#[test]
fn missing_current_sec_without_file() {
    assert_eq!(
        parse_info("State: PLAY\n"),
        Err(MocError::MissingField("CurrentSec".to_string()))
    );
}

#[test]
fn example_report() {
    let raw = "State: PLAY\nFile: http://example.com/stream\nTitle: Show Name\nArtist: DJ X\nSongTitle: Track One\nAlbum: -\nCurrentSec: 42\nBitrate: 128kbps\nAvgBitrate: 130kbps\nRate: 44100Hz\n";
    let info = parse_info(raw).unwrap();
    assert_eq!(info.state(), MocState::Playing);
    assert_eq!(info.file(), MocSource::Url("http://example.com/stream".to_string()));
    assert_eq!(info.full_title(), "Show Name");
    assert_eq!(info.artist(), "DJ X");
    assert_eq!(info.title(), "Track One");
    assert_eq!(info.album(), "-");
    assert_eq!(info.current_time(), 42);
    assert_eq!(info.total_time(), None);
    assert_eq!(info.bitrate(), "128kbps");
    assert_eq!(info.avg_bitrate(), "130kbps");
    assert_eq!(info.rate(), "44100Hz");
}

#[test]
fn missing_state() {
    assert_eq!(
        parse_info("File: /a.mp3\nCurrentSec: 1\n"),
        Err(MocError::MissingField("State".to_string()))
    );
    assert_eq!(parse_info(""), Err(MocError::MissingField("State".to_string())));
}

#[test]
fn unknown_state() {
    assert_eq!(
        parse_info("State: REWIND\n"),
        Err(MocError::UnknownState("REWIND".to_string()))
    );
}

#[test]
fn lower_case_state_is_unknown() {
    assert_eq!(parse_info("State: play\n"), Err(MocError::UnknownState("play".to_string())));
}

#[test]
fn invalid_current_sec() {
    let raw = "State: PLAY\nFile: /a.mp3\nCurrentSec: 4x2\n";
    assert_eq!(
        parse_info(raw),
        Err(MocError::InvalidNumber("CurrentSec".to_string(), "4x2".to_string()))
    );
}

#[test]
fn invalid_total_sec() {
    let raw = "State: PLAY\nFile: /a.mp3\nCurrentSec: 4\nTotalSec: -1\n";
    assert_eq!(
        parse_info(raw),
        Err(MocError::InvalidNumber("TotalSec".to_string(), "-1".to_string()))
    );
}

#[test]
fn missing_file_when_playing() {
    assert_eq!(
        parse_info("State: PLAY\nCurrentSec: 4\n"),
        Err(MocError::MissingField("File".to_string()))
    );
}

#[test]
fn missing_text_fields_are_empty() {
    let info = parse_info("State: PAUSE\nFile: /a.mp3\nCurrentSec: 7\n").unwrap();
    assert_eq!(info.state(), MocState::Paused);
    assert_eq!(info.current_time(), 7);
    assert_eq!(info.full_title(), "");
    assert_eq!(info.artist(), "");
    assert_eq!(info.rate(), "");
}

#[test]
fn value_keeps_later_separators() {
    let info = parse_info(&track("PLAY", "/a.mp3", "Title: Act 1: The Start\n")).unwrap();
    assert_eq!(info.full_title(), "Act 1: The Start");
}

#[test]
fn later_line_overrides_earlier() {
    let info = parse_info(&track("PLAY", "/a.mp3", "CurrentSec: 43\n")).unwrap();
    assert_eq!(info.current_time(), 43);
}

#[test]
fn bare_key_has_empty_value() {
    let info = parse_info(&track("PLAY", "/a.mp3", "Album\n")).unwrap();
    assert_eq!(info.album(), "");
}

#[test]
fn seconds_accept_plus_sign() {
    assert_eq!(parse_seconds("+15"), Some(15));
    assert_eq!(parse_seconds("007"), Some(7));
}

#[test]
fn seconds_reject_bad_text() {
    assert_eq!(parse_seconds(""), None);
    assert_eq!(parse_seconds("+"), None);
    assert_eq!(parse_seconds("-3"), None);
    assert_eq!(parse_seconds(" 3"), None);
    assert_eq!(parse_seconds("1.5"), None);
}

#[test]
fn seconds_largest_value() {
    assert_eq!(parse_seconds("18446744073709551615"), Some(u64::MAX));
    assert_eq!(parse_seconds("18446744073709551616"), None);
    assert_eq!(parse_seconds("99999999999999999999x"), None);
}

#[test]
fn httpd_relative_path_is_local() {
    let info = parse_info(&track("PLAY", "httpd/a.mp3", "")).unwrap();
    assert_eq!(info.file(), MocSource::File("httpd/a.mp3".to_string()));
}

#[test]
fn scheme_without_slashes_is_local() {
    let info = parse_info(&track("PAUSE", "http:a.mp3", "")).unwrap();
    assert_eq!(info.file(), MocSource::File("http:a.mp3".to_string()));
    let info = parse_info(&track("PLAY", "https:/x", "")).unwrap();
    assert_eq!(info.file(), MocSource::File("https:/x".to_string()));
}

#[test]
fn bare_scheme_is_stream() {
    let info = parse_info(&track("PLAY", "http://", "")).unwrap();
    assert_eq!(info.file(), MocSource::Url("http://".to_string()));
}
