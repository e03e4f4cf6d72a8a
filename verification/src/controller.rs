//! The pure decisions of the application controller: list navigation,
//! digit selection, the track-request debounce, and whether a loaded track
//! belongs to the station the user is looking at.

use vstd::prelude::*;

verus! {

/// Minimum spacing between track-info requests for one station, in
/// milliseconds.
pub const TRACK_REQUEST_DEBOUNCE_MS: u64 = 2000;

/// The next station in the list, wrapping at the end.
pub fn next_station_index(current: usize, count: usize) -> (r: usize)
    requires
        count > 0,
        current < count,
    ensures
        current + 1 < count ==> r == current + 1,
        current + 1 == count ==> r == 0,
        r < count,
{
    if current + 1 == count {
        0
    } else {
        current + 1
    }
}

/// The previous station in the list, wrapping at the start.
pub fn previous_station_index(current: usize, count: usize) -> (r: usize)
    requires
        count > 0,
        current < count,
    ensures
        current == 0 ==> r == count - 1,
        current > 0 ==> r == current - 1,
        r < count,
{
    if current == 0 {
        count - 1
    } else {
        current - 1
    }
}

/// Maps a pressed digit to a station selection: digit `d` selects the
/// `d`-th station (one-based).  Returns the new index when it names a
/// station other than the current one, and `None` otherwise.
pub fn select_station_by_number(digit: usize, count: usize, current: usize) -> (r: Option<usize>)
    ensures
        1 <= digit <= count && digit - 1 != current ==> r == Some((digit - 1) as usize),
        !(1 <= digit <= count && digit - 1 != current) ==> r is None,
{
    if digit >= 1 && digit <= count && digit - 1 != current {
        Some(digit - 1)
    } else {
        None
    }
}

/// The per-station debounce: a track-info request goes out only when none
/// was sent for this station yet, or the last one is old enough.
pub fn should_send_track_request(last_request_ms: Option<u64>, now_ms: u64) -> (b: bool)
    ensures
        b == match last_request_ms {
            Option::None => true,
            Option::Some(last) => now_ms >= last + TRACK_REQUEST_DEBOUNCE_MS,
        },
{
    match last_request_ms {
        None => true,
        Some(last) => now_ms >= last && now_ms - last >= TRACK_REQUEST_DEBOUNCE_MS,
    }
}

/// Whether a track loaded for `station_id` should replace what the header
/// shows: only when it belongs to the station that is playing, or, when
/// nothing plays, to the station the cursor is on.
pub fn should_apply_track(
    currently_playing: &Option<String>,
    selected: &Option<String>,
    station_id: &String,
) -> (b: bool)
    ensures
        b == match *currently_playing {
            Option::Some(p) => p@ == station_id@,
            Option::None => match *selected {
                Option::Some(s) => s@ == station_id@,
                Option::None => false,
            },
        },
{
    match currently_playing {
        Some(p) => *p == *station_id,
        None => match selected {
            Some(s) => *s == *station_id,
            None => false,
        },
    }
}

} // verus!
