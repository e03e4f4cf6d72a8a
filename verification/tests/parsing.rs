use somafm::playlist::parse_m3u_content;
use somafm::playlist::resolve_or_fallback;
use somafm::playlist::ParsingUtils;
use somafm::playlist::PlaylistError;

#[test]
fn test_parse_pls_content() {
    let content = "[playlist]\nNumberOfEntries=1\nFile1=http://example.com/stream.mp3\nTitle1=Example Stream\nLength1=-1\nVersion=2";

    let result = ParsingUtils::parse_pls_content(content).unwrap();
    assert_eq!(result, "http://example.com/stream.mp3");
}

#[test]
fn test_parse_pls_content_missing_file() {
    let content = "[playlist]\nNumberOfEntries=1\nTitle1=Example Stream\nLength1=-1\nVersion=2";

    assert!(ParsingUtils::parse_pls_content(content).is_err());
}

#[test]
fn test_is_pls_url() {
    assert!(ParsingUtils::is_pls_url("http://example.com/stream.pls"));
    assert!(!ParsingUtils::is_pls_url("http://example.com/stream.mp3"));
}

#[test]
fn test_resolve_stream_url_non_pls() {
    let url = "http://example.com/stream.mp3";
    let result = ParsingUtils::resolve_stream_url(url, None).unwrap();
    assert_eq!(result, url);
}

#[test]
fn parse_pls_content_takes_first_entry() {
    let content = "File1=http://a/one\nFile1=http://a/two\n";
    assert_eq!(ParsingUtils::parse_pls_content(content).unwrap(), "http://a/one");
}

#[test]
fn parse_pls_content_strips_carriage_return() {
    let content = "[playlist]\r\nFile1=http://a/one\r\nTitle1=X\r\n";
    assert_eq!(ParsingUtils::parse_pls_content(content).unwrap(), "http://a/one");
}

#[test]
fn parse_pls_content_empty_text() {
    assert_eq!(
        ParsingUtils::parse_pls_content(""),
        Err(PlaylistError::NoStreamUrl)
    );
}

#[test]
fn resolve_stream_url_pls_without_content() {
    let r = ParsingUtils::resolve_stream_url("http://example.com/s.pls", None);
    assert_eq!(r, Err(PlaylistError::ContentUnavailable));
}

#[test]
fn resolve_stream_url_pls_with_content() {
    let content = "[playlist]\nFile1=http://example.com/live-stream\n";
    let r = ParsingUtils::resolve_stream_url("http://example.com/s.pls", Some(content));
    assert_eq!(r.unwrap(), "http://example.com/live-stream");
}

#[test]
fn parse_m3u_content_first_entry() {
    let content = "#EXTM3U\n\n  http://x/stream-a  \nhttp://x/stream-b\n";
    assert_eq!(parse_m3u_content(content).unwrap(), "http://x/stream-a");
}

#[test]
fn parse_m3u_content_only_comments() {
    let content = "#EXTM3U\n# nothing here\n   \n";
    assert_eq!(parse_m3u_content(content), Err(PlaylistError::NoStreamUrl));
}

#[test]
fn playlist_url_resolves_to_first_file_entry() {
    let url = String::from("http://x/stream.pls");
    let body = String::from("[playlist]\nFile1=http://x/live.mp3\n");
    let resolved = resolve_or_fallback(&url, &Some(body));
    assert_eq!(resolved, "http://x/live.mp3");
}

#[test]
fn malformed_playlist_falls_back_to_original_url() {
    let url = String::from("http://x/stream.pls");
    let body = String::from("[playlist]\nNumberOfEntries=1\nTitle1=X\n");
    let resolved = resolve_or_fallback(&url, &Some(body));
    assert_eq!(resolved, "http://x/stream.pls");
}

#[test]
fn unfetched_playlist_falls_back_to_original_url() {
    let url = String::from("http://x/stream.m3u");
    let resolved = resolve_or_fallback(&url, &None);
    assert_eq!(resolved, "http://x/stream.m3u");
}

#[test]
fn direct_urls_resolve_to_themselves() {
    let url = String::from("https://ice1.example.com/groovesalad-256-mp3/live");
    let resolved = resolve_or_fallback(&url, &None);
    assert_eq!(resolved, url);

    let mp3 = String::from("http://x/a.mp3");
    assert_eq!(resolve_or_fallback(&mp3, &None), "http://x/a.mp3");
}

#[test]
fn m3u_playlist_resolves_through_first_line() {
    let url = String::from("http://x/list.m3u8");
    let body = String::from("#EXTM3U\nhttp://x/chunklist\n");
    assert_eq!(resolve_or_fallback(&url, &Some(body)), "http://x/chunklist");
}
