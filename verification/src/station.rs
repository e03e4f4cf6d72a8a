//! The station catalog data model and the pure rules applied to it: which
//! playlist of a station is streamed, how stations are ordered, and which
//! track counts as currently playing.
//!
//! Fetching the catalog is the caller's concern; the functions here work on
//! the decoded values alone.

use vstd::prelude::*;

use crate::text::str_eq;

verus! {

/// One stream offered by a station.
#[derive(Debug, Clone)]
pub struct Playlist {
    pub url: String,
    pub format: String,
    pub quality: String,
}

/// One played track.
#[derive(Debug, Clone)]
pub struct Track {
    pub title: String,
    pub artist: String,
    pub album: String,
    pub album_art: String,
    pub date: u64,
}

/// The recently played tracks of one station, newest first.
#[derive(Debug, Clone)]
pub struct TracksResponse {
    pub id: String,
    pub songs: Vec<Track>,
}

/// One station of the catalog.
#[derive(Debug, Clone)]
pub struct Station {
    pub id: String,
    pub title: String,
    pub description: String,
    pub listeners: u32,
    pub image: String,
    pub last_playing: String,
    pub genre: Vec<String>,
    pub dj: String,
    pub playlists: Vec<Playlist>,
}

/// A playlist carrying an MP3 stream.
pub open spec fn is_mp3(p: Playlist) -> bool {
    p.format@ == "mp3"@
}

/// An MP3 playlist of the highest quality tier.
pub open spec fn is_highest_mp3(p: Playlist) -> bool {
    is_mp3(p) && p.quality@ == "highest"@
}

/// Picks the stream URL of a station: the first MP3 playlist marked
/// `highest`, or failing that the first MP3 playlist of any quality;
/// `None` when the station offers no MP3 stream.
pub fn get_stream_url(station: &Station) -> (r: Option<String>)
    ensures
        (r is Some) <==> exists|i: int|
            0 <= i < station.playlists@.len() && is_mp3(#[trigger] station.playlists@[i]),
        (exists|i: int|
            0 <= i < station.playlists@.len() && is_highest_mp3(
                #[trigger] station.playlists@[i],
            )) ==> exists|i: int|
            {
                &&& 0 <= i < station.playlists@.len()
                &&& is_highest_mp3(#[trigger] station.playlists@[i])
                &&& r == Some(station.playlists@[i].url)
                &&& forall|k: int| 0 <= k < i ==> !is_highest_mp3(#[trigger] station.playlists@[k])
            },
        (!(exists|i: int|
            0 <= i < station.playlists@.len() && is_highest_mp3(#[trigger] station.playlists@[i]))
            && (exists|i: int|
            0 <= i < station.playlists@.len() && is_mp3(#[trigger] station.playlists@[i])))
            ==> exists|i: int|
            {
                &&& 0 <= i < station.playlists@.len()
                &&& is_mp3(#[trigger] station.playlists@[i])
                &&& r == Some(station.playlists@[i].url)
                &&& forall|k: int| 0 <= k < i ==> !is_mp3(#[trigger] station.playlists@[k])
            },
{
    let n: usize = station.playlists.len();
    let mut best: Option<String> = None;
    let ghost mut bi: int = 0;
    let mut i: usize = 0;
    while i < n
        invariant
            n == station.playlists@.len(),
            i <= n,
            forall|k: int| 0 <= k < i ==> !is_highest_mp3(#[trigger] station.playlists@[k]),
            best is None ==> forall|k: int|
                0 <= k < i ==> !is_mp3(#[trigger] station.playlists@[k]),
            best matches Some(u) ==> {
                &&& 0 <= bi < i
                &&& is_mp3(station.playlists@[bi])
                &&& u == station.playlists@[bi].url
                &&& forall|k: int| 0 <= k < bi ==> !is_mp3(#[trigger] station.playlists@[k])
            },
        decreases n - i,
    {
        let p: &Playlist = &station.playlists[i];
        if str_eq(p.format.as_str(), "mp3") {
            if str_eq(p.quality.as_str(), "highest") {
                return Some(p.url.clone());
            }
            if best.is_none() {
                best = Some(p.url.clone());
                proof {
                    bi = i as int;
                }
            }
        }
        i = i + 1;
    }
    best
}

/// The stations whose listener count is exactly `v`.
pub open spec fn has_listeners(v: u32) -> spec_fn(Station) -> bool {
    |st: Station| st.listeners == v
}

/// Filtering keeps nothing of a sequence no element of which satisfies the
/// predicate.
proof fn lemma_filter_all_false<A>(s: Seq<A>, pred: spec_fn(A) -> bool)
    requires
        forall|i: int| 0 <= i < s.len() ==> !pred(#[trigger] s[i]),
    ensures
        s.filter(pred) == Seq::<A>::empty(),
    decreases s.len(),
{
    reveal(Seq::filter);
    if s.len() > 0 {
        lemma_filter_all_false(s.drop_last(), pred);
    }
}

/// Filtering a one-element sequence keeps or drops that element.
proof fn lemma_filter_singleton<A>(e: A, pred: spec_fn(A) -> bool)
    ensures
        pred(e) ==> seq![e].filter(pred) == seq![e],
        !pred(e) ==> seq![e].filter(pred) == Seq::<A>::empty(),
{
    reveal(Seq::filter);
    assert(seq![e].drop_last() =~= Seq::<A>::empty());
    assert(Seq::<A>::empty().filter(pred) == Seq::<A>::empty());
    assert(seq![e].last() == e);
    if pred(e) {
        assert(seq![e].filter(pred) =~= seq![e]);
    } else {
        assert(seq![e].filter(pred) =~= Seq::<A>::empty());
    }
}

/// Orders the catalog by popularity: listener counts descending.  The
/// result holds exactly the given stations, and the sort is stable:
/// stations with equal listener counts keep their relative order.
pub fn sort_stations_by_listeners(stations: Vec<Station>) -> (r: Vec<Station>)
    ensures
        r@.to_multiset() == stations@.to_multiset(),
        r@.len() == stations@.len(),
        forall|a: int, b: int|
            0 <= a < b < r@.len() ==> #[trigger] r@[a].listeners >= #[trigger] r@[b].listeners,
        forall|v: u32| #[trigger] r@.filter(has_listeners(v)) == stations@.filter(
            has_listeners(v),
        ),
{
    broadcast use vstd::seq_lib::group_to_multiset_ensures;

    let mut rest: Vec<Station> = stations;
    let mut out: Vec<Station> = Vec::new();
    proof {
        assert(out@.to_multiset().add(rest@.to_multiset()) =~= stations@.to_multiset());
        assert forall|v: u32| #[trigger] out@.filter(has_listeners(v)) + rest@.filter(
            has_listeners(v),
        ) == stations@.filter(has_listeners(v)) by {
            lemma_filter_all_false(out@, has_listeners(v));
            assert(out@.filter(has_listeners(v)) + rest@.filter(has_listeners(v)) =~= rest@.filter(
                has_listeners(v),
            ));
        }
    }
    while rest.len() > 0
        invariant
            out@.to_multiset().add(rest@.to_multiset()) == stations@.to_multiset(),
            out@.len() + rest@.len() == stations@.len(),
            forall|a: int, b: int|
                0 <= a < b < out@.len() ==> #[trigger] out@[a].listeners >= #[trigger] out@[b].listeners,
            forall|a: int, b: int|
                0 <= a < out@.len() && 0 <= b < rest@.len() ==> #[trigger] out@[a].listeners
                    >= #[trigger] rest@[b].listeners,
            forall|v: u32| #[trigger] out@.filter(has_listeners(v)) + rest@.filter(
                has_listeners(v),
            ) == stations@.filter(has_listeners(v)),
        decreases rest@.len(),
    {
        broadcast use vstd::seq_lib::group_to_multiset_ensures;

        let mut mi: usize = 0;
        let mut k: usize = 1;
        while k < rest.len()
            invariant
                rest@.len() > 0,
                mi < k <= rest@.len(),
                forall|t: int| 0 <= t < k ==> #[trigger] rest@[t].listeners <= rest@[mi as int].listeners,
                forall|t: int| 0 <= t < mi ==> #[trigger] rest@[t].listeners < rest@[mi as int].listeners,
            decreases rest@.len() - k,
        {
            if rest[k].listeners > rest[mi].listeners {
                mi = k;
            }
            k = k + 1;
        }
        let ghost rest0: Seq<Station> = rest@;
        let ghost out0: Seq<Station> = out@;
        let s: Station = rest.remove(mi);
        out.push(s);
        proof {
            let e: Station = rest0[mi as int];
            let before: Seq<Station> = rest0.subrange(0, mi as int);
            let after: Seq<Station> = rest0.subrange(mi + 1, rest0.len() as int);
            assert(rest@ == rest0.remove(mi as int));
            assert(rest@.to_multiset() =~= rest0.to_multiset().remove(e));
            assert(out@.to_multiset() =~= out0.to_multiset().insert(e));
            assert(out@.to_multiset().add(rest@.to_multiset()) =~= out0.to_multiset().add(
                rest0.to_multiset(),
            ));
            assert forall|b: int| 0 <= b < rest@.len() implies out@[out@.len() - 1].listeners
                >= #[trigger] rest@[b].listeners by {
                if b < mi {
                    assert(rest@[b] == rest0[b]);
                } else {
                    assert(rest@[b] == rest0[b + 1]);
                }
            }
            // Stability: removing the first station of the maximal listener
            // count takes the head of that count's filtered subsequence, so
            // appending it to `out` keeps the decomposition intact.
            assert(rest0 =~= before + (seq![e] + after));
            assert(rest@ =~= before + after);
            assert(out@ =~= out0 + seq![e]);
            assert forall|v: u32| #[trigger] out@.filter(has_listeners(v)) + rest@.filter(
                has_listeners(v),
            ) == stations@.filter(has_listeners(v)) by {
                let pv = has_listeners(v);
                Seq::filter_distributes_over_add(before, seq![e] + after, pv);
                Seq::filter_distributes_over_add(seq![e], after, pv);
                Seq::filter_distributes_over_add(before, after, pv);
                Seq::filter_distributes_over_add(out0, seq![e], pv);
                lemma_filter_singleton(e, pv);
                if pv(e) {
                    lemma_filter_all_false(before, pv);
                    assert(out@.filter(pv) =~= out0.filter(pv) + seq![e]);
                    assert(rest0.filter(pv) =~= seq![e] + after.filter(pv));
                    assert(rest@.filter(pv) =~= after.filter(pv));
                    assert(out@.filter(pv) + rest@.filter(pv) =~= out0.filter(pv) + rest0.filter(
                        pv,
                    ));
                } else {
                    assert(out@.filter(pv) =~= out0.filter(pv));
                    assert(rest@.filter(pv) =~= rest0.filter(pv));
                }
            }
        }
    }
    proof {
        assert forall|v: u32| #[trigger] out@.filter(has_listeners(v)) == stations@.filter(
            has_listeners(v),
        ) by {
            lemma_filter_all_false(rest@, has_listeners(v));
            assert(out@.filter(has_listeners(v)) + rest@.filter(has_listeners(v)) =~= out@.filter(
                has_listeners(v),
            ));
        }
    }
    out
}

/// The currently playing track of a station: the first (most recent) entry
/// of its track list, if any.
pub fn current_track_of(resp: TracksResponse) -> (t: Option<Track>)
    ensures
        resp.songs@.len() > 0 ==> t == Some(resp.songs@[0]),
        resp.songs@.len() == 0 ==> t is None,
{
    let mut songs: Vec<Track> = resp.songs;
    if songs.len() > 0 {
        Some(songs.remove(0))
    } else {
        None
    }
}

} // verus!
