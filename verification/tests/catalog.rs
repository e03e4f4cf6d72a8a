use somafm::controller::next_station_index;
use somafm::controller::previous_station_index;
use somafm::controller::select_station_by_number;
use somafm::controller::should_apply_track;
use somafm::controller::should_send_track_request;
use somafm::station::current_track_of;
use somafm::station::get_stream_url;
use somafm::station::sort_stations_by_listeners;
use somafm::station::Playlist;
use somafm::station::Station;
use somafm::station::Track;
use somafm::station::TracksResponse;
use somafm::text::str_contains;
use somafm::text::str_ends_with;
use somafm::text::str_eq;
use somafm::text::truncate_string;

fn station(id: &str, listeners: u32, playlists: Vec<Playlist>) -> Station {
    Station {
        id: String::from(id),
        title: String::from(id),
        description: String::new(),
        listeners,
        image: String::new(),
        last_playing: String::new(),
        genre: Vec::new(),
        dj: String::new(),
        playlists,
    }
}

fn playlist(url: &str, format: &str, quality: &str) -> Playlist {
    Playlist {
        url: String::from(url),
        format: String::from(format),
        quality: String::from(quality),
    }
}

#[test]
fn stream_url_prefers_highest_mp3() {
    let s = station(
        "groovesalad",
        1200,
        vec![
            playlist("http://x/aac-hi", "aacp", "highest"),
            playlist("http://x/mp3-low", "mp3", "low"),
            playlist("http://x/mp3-hi", "mp3", "highest"),
        ],
    );
    assert_eq!(get_stream_url(&s), Some(String::from("http://x/mp3-hi")));
}

#[test]
fn stream_url_falls_back_to_first_mp3() {
    let s = station(
        "dronezone",
        800,
        vec![
            playlist("http://x/aac", "aacp", "highest"),
            playlist("http://x/mp3-128", "mp3", "high"),
            playlist("http://x/mp3-64", "mp3", "low"),
        ],
    );
    assert_eq!(get_stream_url(&s), Some(String::from("http://x/mp3-128")));
}

#[test]
fn stream_url_none_without_mp3() {
    let s = station("silent", 3, vec![playlist("http://x/aac", "aacp", "highest")]);
    assert_eq!(get_stream_url(&s), None);
}

#[test]
fn stations_sort_by_listeners_descending() {
    let stations = vec![
        station("a", 40, Vec::new()),
        station("b", 900, Vec::new()),
        station("c", 0, Vec::new()),
        station("d", 900, Vec::new()),
        station("e", 120, Vec::new()),
    ];
    let sorted = sort_stations_by_listeners(stations);
    let listeners: Vec<u32> = sorted.iter().map(|s| s.listeners).collect();
    assert_eq!(listeners, vec![900, 900, 120, 40, 0]);
    // The sort is stable: the tied stations keep their original order.
    let ids: Vec<String> = sorted.iter().map(|s| s.id.clone()).collect();
    assert_eq!(ids, vec!["b", "d", "e", "a", "c"]);
}

#[test]
fn current_track_is_the_most_recent() {
    let resp = TracksResponse {
        id: String::from("groovesalad"),
        songs: vec![
            Track {
                title: String::from("Now"),
                artist: String::from("A"),
                album: String::new(),
                album_art: String::new(),
                date: 2,
            },
            Track {
                title: String::from("Before"),
                artist: String::from("B"),
                album: String::new(),
                album_art: String::new(),
                date: 1,
            },
        ],
    };
    let t = current_track_of(resp).unwrap();
    assert_eq!(t.title, "Now");

    let empty = TracksResponse { id: String::from("x"), songs: Vec::new() };
    assert!(current_track_of(empty).is_none());
}

#[test]
fn station_navigation_wraps() {
    assert_eq!(next_station_index(0, 3), 1);
    assert_eq!(next_station_index(2, 3), 0);
    assert_eq!(previous_station_index(0, 3), 2);
    assert_eq!(previous_station_index(2, 3), 1);
}

#[test]
fn digit_selection() {
    assert_eq!(select_station_by_number(1, 5, 2), Some(0));
    assert_eq!(select_station_by_number(5, 5, 2), Some(4));
    // Selecting the station already selected changes nothing.
    assert_eq!(select_station_by_number(3, 5, 2), None);
    // Out-of-range digits change nothing.
    assert_eq!(select_station_by_number(0, 5, 2), None);
    assert_eq!(select_station_by_number(6, 5, 2), None);
}

#[test]
fn track_request_debounce() {
    assert!(should_send_track_request(None, 0));
    assert!(!should_send_track_request(Some(1000), 2999));
    assert!(should_send_track_request(Some(1000), 3000));
    // A clock that went backwards never passes the debounce.
    assert!(!should_send_track_request(Some(5000), 4000));
}

#[test]
fn track_updates_follow_the_playing_station() {
    let playing = Some(String::from("groovesalad"));
    let selected = Some(String::from("dronezone"));
    let id_a = String::from("groovesalad");
    let id_b = String::from("dronezone");

    // While something plays, only its own track is shown.
    assert!(should_apply_track(&playing, &selected, &id_a));
    assert!(!should_apply_track(&playing, &selected, &id_b));

    // Otherwise the selected station's track is shown.
    assert!(should_apply_track(&None, &selected, &id_b));
    assert!(!should_apply_track(&None, &selected, &id_a));
    assert!(!should_apply_track(&None, &None, &id_a));
}

#[test]
fn text_helpers() {
    assert!(str_eq("abc", "abc"));
    assert!(!str_eq("abc", "abd"));
    assert!(!str_eq("abc", "ab"));
    assert!(str_ends_with("stream.pls", ".pls"));
    assert!(!str_ends_with(".pls.txt", ".pls"));
    assert!(str_contains("http://x/live-stream", "/live"));
    assert!(!str_contains("http://x/archive", "/live"));
}

#[test]
fn truncation_pads_and_elides() {
    assert_eq!(truncate_string("abc", 5), "abc  ");
    assert_eq!(truncate_string("abcde", 5), "abcde");
    assert_eq!(truncate_string("abcdefgh", 5), "abc...");
    assert_eq!(truncate_string("abcdefgh", 3), "a...");
    assert_eq!(truncate_string("abcdefgh", 2), "...");
    assert_eq!(truncate_string("abcdefgh", 0), "...");
    assert_eq!(truncate_string("", 4), "    ");
    // Truncation counts characters, not bytes.
    assert_eq!(truncate_string("áéíóúü", 5), "áéí...");
}
