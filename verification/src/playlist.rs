//! Playlist resolution: turning a station URL into the real stream
//! endpoint.
//!
//! A URL that already denotes a direct stream is used as it is.  A `.pls`
//! playlist is fetched (by the caller) and its first `File1=` line names
//! the stream; a `.m3u`/`.m3u8` playlist names it on the first
//! non-comment, non-blank line.  Resolution failure is not a hard failure
//! for the engine: it falls back to the original URL.
//!
//! The parsers here are total functions on the playlist text; fetching the
//! text is the caller's concern.

use vstd::prelude::*;

use crate::text::ends_with;
use crate::text::contains_seq;
use crate::text::starts_with;
use crate::text::str_contains;
use crate::text::str_ends_with;

verus! {

/// Why a playlist failed to resolve.
#[derive(Debug, Clone, Copy, PartialEq, Eq, Structural)]
pub enum PlaylistError {
    /// No line of the playlist names a stream URL.
    NoStreamUrl,
    /// The playlist text could not be fetched, so there is nothing to
    /// parse.
    ContentUnavailable,
}

/// What kind of endpoint a station URL denotes.
#[derive(Debug, Clone, Copy, PartialEq, Eq, Structural)]
pub enum UrlKind {
    /// Use the URL as it is (direct audio stream or live endpoint).
    Direct,
    /// A `.pls` playlist that must be fetched and parsed.
    Pls,
    /// A `.m3u` or `.m3u8` playlist that must be fetched and parsed.
    M3u,
}

/// `[i, j)` delimits one line of `s`: it reaches from a line start to the
/// next newline (or the end of the text) and contains no newline itself.
pub open spec fn is_line(s: Seq<char>, i: int, j: int) -> bool {
    &&& 0 <= i <= j <= s.len()
    &&& (i == 0 || s[i - 1] == '\n')
    &&& (j == s.len() || s[j] == '\n')
    &&& forall|k: int| i <= k < j ==> s[k] != '\n'
}

/// A line body with a trailing carriage return stripped, as in a text with
/// Windows line endings.
pub open spec fn strip_cr(line: Seq<char>) -> Seq<char> {
    if line.len() > 0 && line.last() == '\r' {
        line.drop_last()
    } else {
        line
    }
}

/// The line `[i, j)` of `s` names the stream of a `.pls` playlist.
pub open spec fn pls_entry_at(s: Seq<char>, i: int, j: int) -> bool {
    is_line(s, i, j) && starts_with(strip_cr(s.subrange(i, j)), "File1="@)
}

/// The stream URL named by the line `[i, j)`: what follows `File1=`.
pub open spec fn pls_entry_value(s: Seq<char>, i: int, j: int) -> Seq<char> {
    strip_cr(s.subrange(i, j)).skip("File1="@.len() as int)
}

/// True when `c` is one of the blank characters trimmed from playlist
/// lines.
pub open spec fn is_space(c: char) -> bool {
    c == ' ' || c == '\t' || c == '\r' || c == '\n'
}

/// `line` with leading blank characters removed.
pub open spec fn trim_start(line: Seq<char>) -> Seq<char>
    decreases line.len(),
{
    if line.len() > 0 && is_space(line[0]) {
        trim_start(line.drop_first())
    } else {
        line
    }
}

/// `line` with trailing blank characters removed.
pub open spec fn trim_end(line: Seq<char>) -> Seq<char>
    decreases line.len(),
{
    if line.len() > 0 && is_space(line.last()) {
        trim_end(line.drop_last())
    } else {
        line
    }
}

/// `line` with blank characters removed from both ends.
pub open spec fn trim(line: Seq<char>) -> Seq<char> {
    trim_end(trim_start(line))
}

/// The line `[i, j)` of `s` names the stream of a `.m3u` playlist: after
/// trimming it is neither blank nor a `#` comment.
pub open spec fn m3u_entry_at(s: Seq<char>, i: int, j: int) -> bool {
    &&& is_line(s, i, j)
    &&& trim(s.subrange(i, j)).len() > 0
    &&& trim(s.subrange(i, j))[0] != '#'
}

/// The stream URL named by the `.m3u` line `[i, j)`: the trimmed line.
pub open spec fn m3u_entry_value(s: Seq<char>, i: int, j: int) -> Seq<char> {
    trim(s.subrange(i, j))
}

/// A URL that denotes a direct stream endpoint, to be used as it is.
pub open spec fn is_direct_url(u: Seq<char>) -> bool {
    ends_with(u, ".mp3"@) || ends_with(u, ".aac"@) || contains_seq(u, "/live"@)
}

/// Trimming the first `p` blank characters of `line` is a `skip` when the
/// character after them (if any) is not blank.
proof fn lemma_trim_start_skip(line: Seq<char>, p: int)
    requires
        0 <= p <= line.len(),
        forall|k: int| 0 <= k < p ==> is_space(line[k]),
        p < line.len() ==> !is_space(line[p]),
    ensures
        trim_start(line) == line.skip(p),
    decreases p,
{
    if p == 0 {
        assert(trim_start(line) =~= line.skip(0));
    } else {
        lemma_trim_start_skip(line.drop_first(), p - 1);
        assert(line.drop_first().skip(p - 1) =~= line.skip(p));
    }
}

/// Trimming blanks off the end of `line` down to length `q` is a `take`
/// when the character before them (if any) is not blank.
proof fn lemma_trim_end_take(line: Seq<char>, q: int)
    requires
        0 <= q <= line.len(),
        forall|k: int| q <= k < line.len() ==> is_space(line[k]),
        q > 0 ==> !is_space(line[q - 1]),
    ensures
        trim_end(line) == line.take(q),
    decreases line.len() - q,
{
    if q == line.len() {
        assert(trim_end(line) =~= line.take(q));
    } else {
        lemma_trim_end_take(line.drop_last(), q);
        assert(line.drop_last().take(q) =~= line.take(q));
    }
}

/// Finds the end of the line starting at `i`: the position of the next
/// newline, or the end of the text.
fn find_line_end(s: &str, i: usize) -> (j: usize)
    requires
        i <= s@.len(),
    ensures
        i <= j <= s@.len(),
        forall|k: int| i <= k < j ==> s@[k] != '\n',
        j < s@.len() ==> s@[j as int] == '\n',
{
    let n: usize = s.unicode_len();
    let mut j: usize = i;
    loop
        invariant
            n == s@.len(),
            i <= j <= n,
            forall|k: int| i <= k < j ==> s@[k] != '\n',
        ensures
            i <= j <= n,
            forall|k: int| i <= k < j ==> s@[k] != '\n',
            j < n ==> s@[j as int] == '\n',
        decreases n - j,
    {
        if j >= n {
            break;
        }
        if s.get_char(j) == '\n' {
            break;
        }
        j = j + 1;
    }
    j
}

/// Whether the line `[i, j)` starts with `File1=` once a trailing carriage
/// return is stripped.
fn line_is_pls_entry(s: &str, i: usize, j: usize) -> (b: bool)
    requires
        i <= j <= s@.len(),
    ensures
        b == pls_entry_at(s@, i as int, j as int) || !is_line(s@, i as int, j as int),
        b == starts_with(strip_cr(s@.subrange(i as int, j as int)), "File1="@),
{
    proof {
        reveal_strlit("File1=");
    }
    let lit: &str = "File1=";
    let end: usize = if j > i && s.get_char(j - 1) == '\r' {
        j - 1
    } else {
        j
    };
    let ghost line: Seq<char> = s@.subrange(i as int, j as int);
    proof {
        assert(strip_cr(line) =~= s@.subrange(i as int, end as int));
    }
    if end - i < 6 {
        return false;
    }
    let mut m: usize = 0;
    while m < 6
        invariant
            i + 6 <= end <= j <= s@.len(),
            m <= 6,
            strip_cr(s@.subrange(i as int, j as int)) == s@.subrange(i as int, end as int),
            "File1="@.len() == 6,
            lit@ == "File1="@,
            forall|t: int| 0 <= t < m ==> s@[i + t] == "File1="@[t],
        decreases 6 - m,
    {
        if s.get_char(i + m) != lit.get_char(m) {
            proof {
                assert(strip_cr(s@.subrange(i as int, j as int)).take(6)[m as int] != "File1="@[m
                    as int]);
            }
            return false;
        }
        m = m + 1;
    }
    proof {
        assert(strip_cr(s@.subrange(i as int, j as int)).take(6) =~= "File1="@);
    }
    true
}

/// Whether `c` is one of the blank characters trimmed from playlist lines.
fn char_is_space(c: char) -> (b: bool)
    ensures
        b == is_space(c),
{
    c == ' ' || c == '\t' || c == '\r' || c == '\n'
}

/// Parses `.m3u`/`.m3u8` playlist text and extracts the first stream URL:
/// the first line that, after trimming, is neither blank nor a `#`
/// comment.  Fails if and only if no such line exists.
pub fn parse_m3u_content(content: &str) -> (r: Result<String, PlaylistError>)
    ensures
        r is Ok <==> exists|i: int, j: int| m3u_entry_at(content@, i, j),
        r matches Ok(url) ==> exists|i: int, j: int|
            {
                &&& #[trigger] m3u_entry_at(content@, i, j)
                &&& url@ == m3u_entry_value(content@, i, j)
                &&& forall|i2: int, j2: int| m3u_entry_at(content@, i2, j2) ==> i2 >= i
            },
        r is Err ==> r == Err::<String, PlaylistError>(PlaylistError::NoStreamUrl),
{
    let n: usize = content.unicode_len();
    let mut i: usize = 0;
    while i < n
        invariant
            n == content@.len(),
            i <= n,
            i == 0 || content@[i - 1] == '\n',
            forall|i2: int, j2: int| m3u_entry_at(content@, i2, j2) ==> i2 >= i,
        decreases n - i,
    {
        let j: usize = find_line_end(content, i);
        let ghost s: Seq<char> = content@;
        let ghost line: Seq<char> = s.subrange(i as int, j as int);
        proof {
            assert(is_line(s, i as int, j as int));
        }
        let mut a: usize = i;
        loop
            invariant
                n == content@.len(),
                i <= a <= j <= n,
                forall|k: int| i <= k < a ==> is_space(content@[k]),
            ensures
                i <= a <= j,
                forall|k: int| i <= k < a ==> is_space(content@[k]),
                a < j ==> !is_space(content@[a as int]),
            decreases j - a,
        {
            if a >= j {
                break ;
            }
            if !char_is_space(content.get_char(a)) {
                break ;
            }
            a = a + 1;
        }
        if a < j {
            let mut b: usize = j;
            loop
                invariant
                    n == content@.len(),
                    a < j <= n,
                    a < b <= j,
                    !is_space(content@[a as int]),
                    forall|k: int| b <= k < j ==> is_space(content@[k]),
                ensures
                    a < b <= j,
                    forall|k: int| b <= k < j ==> is_space(content@[k]),
                    !is_space(content@[b - 1]),
                decreases b,
            {
                if !char_is_space(content.get_char(b - 1)) {
                    break ;
                }
                b = b - 1;
            }
            proof {
                lemma_trim_start_skip(line, a - i);
                assert(line.skip(a - i) =~= s.subrange(a as int, j as int));
                lemma_trim_end_take(s.subrange(a as int, j as int), b - a);
                assert(s.subrange(a as int, j as int).take(b - a) =~= s.subrange(
                    a as int,
                    b as int,
                ));
                assert(trim(line) == s.subrange(a as int, b as int));
            }
            if content.get_char(a) != '#' {
                let url: &str = content.substring_char(a, b);
                proof {
                    assert(trim(line)[0] == s[a as int]);
                    assert(m3u_entry_at(s, i as int, j as int));
                    assert(url@ == m3u_entry_value(s, i as int, j as int));
                }
                return Ok(String::from_str(url));
            }
            proof {
                assert(trim(line)[0] == '#');
            }
        } else {
            proof {
                lemma_trim_start_skip(line, j - i);
                assert(line.skip(j - i) =~= Seq::<char>::empty());
                assert(trim(line).len() == 0);
            }
        }
        proof {
            assert(!m3u_entry_at(s, i as int, j as int));
            assert forall|i2: int, j2: int| m3u_entry_at(s, i2, j2) implies i2 >= j + 1 by {
                if i2 <= j {
                    if i2 == i {
                        assert(is_line(s, i2, j2));
                        if j2 < j {
                            assert(s[j2] == '\n');
                        } else if j2 > j {
                            assert(s[j as int] != '\n');
                            assert(j < s.len());
                        }
                        assert(j2 == j);
                        assert(m3u_entry_at(s, i as int, j as int));
                    } else {
                        assert(i < i2 <= j);
                        assert(s[i2 - 1] == '\n');
                    }
                }
            }
        }
        if j >= n {
            proof {
                assert forall|i2: int, j2: int| !m3u_entry_at(content@, i2, j2) by {
                    if m3u_entry_at(content@, i2, j2) {
                        assert(i2 >= j + 1);
                        assert(i2 <= content@.len());
                    }
                }
            }
            return Err(PlaylistError::NoStreamUrl);
        }
        i = j + 1;
    }
    proof {
        assert forall|i2: int, j2: int| !m3u_entry_at(content@, i2, j2) by {
            if m3u_entry_at(content@, i2, j2) {
                assert(i2 >= n);
                assert(j2 == i2);
                assert(content@.subrange(i2, j2) =~= Seq::<char>::empty());
                assert(trim_start(content@.subrange(i2, j2)).len() == 0);
                assert(trim(content@.subrange(i2, j2)).len() == 0);
            }
        }
    }
    Err(PlaylistError::NoStreamUrl)
}

/// Classifies a station URL: direct stream endpoints are used as they
/// are; `.pls` and `.m3u`/`.m3u8` URLs name playlists that must be
/// fetched and parsed.  An unrecognized URL is treated as direct.
pub fn classify_stream_url(url: &str) -> (k: UrlKind)
    ensures
        is_direct_url(url@) ==> k == UrlKind::Direct,
        !is_direct_url(url@) && ends_with(url@, ".pls"@) ==> k == UrlKind::Pls,
        !is_direct_url(url@) && !ends_with(url@, ".pls"@) && (ends_with(url@, ".m3u"@)
            || ends_with(url@, ".m3u8"@)) ==> k == UrlKind::M3u,
        !is_direct_url(url@) && !ends_with(url@, ".pls"@) && !ends_with(url@, ".m3u"@)
            && !ends_with(url@, ".m3u8"@) ==> k == UrlKind::Direct,
{
    if str_ends_with(url, ".mp3") || str_ends_with(url, ".aac") || str_contains(url, "/live") {
        UrlKind::Direct
    } else if str_ends_with(url, ".pls") {
        UrlKind::Pls
    } else if str_ends_with(url, ".m3u") || str_ends_with(url, ".m3u8") {
        UrlKind::M3u
    } else {
        UrlKind::Direct
    }
}

/// The engine's resolution step: given the station URL and the playlist
/// text the caller fetched for it (when the URL names a playlist), returns
/// the stream URL the session will use.  Resolution failure — missing
/// text or a playlist naming no stream — falls back to the original URL
/// rather than failing the session.
pub fn resolve_or_fallback(url: &String, playlist_text: &Option<String>) -> (u: String)
    ensures
        is_direct_url(url@) ==> u@ == url@,
        !is_direct_url(url@) && ends_with(url@, ".pls"@) ==> (match *playlist_text {
            Some(c) => {
                if exists|i: int, j: int| pls_entry_at(c@, i, j) {
                    exists|i: int, j: int|
                        {
                            &&& #[trigger] pls_entry_at(c@, i, j)
                            &&& u@ == pls_entry_value(c@, i, j)
                            &&& forall|i2: int, j2: int| pls_entry_at(c@, i2, j2) ==> i2 >= i
                        }
                } else {
                    u@ == url@
                }
            },
            None => u@ == url@,
        }),
        !is_direct_url(url@) && !ends_with(url@, ".pls"@) && (ends_with(url@, ".m3u"@)
            || ends_with(url@, ".m3u8"@)) ==> (match *playlist_text {
            Some(c) => {
                if exists|i: int, j: int| m3u_entry_at(c@, i, j) {
                    exists|i: int, j: int|
                        {
                            &&& #[trigger] m3u_entry_at(c@, i, j)
                            &&& u@ == m3u_entry_value(c@, i, j)
                            &&& forall|i2: int, j2: int| m3u_entry_at(c@, i2, j2) ==> i2 >= i
                        }
                } else {
                    u@ == url@
                }
            },
            None => u@ == url@,
        }),
        !is_direct_url(url@) && !ends_with(url@, ".pls"@) && !ends_with(url@, ".m3u"@)
            && !ends_with(url@, ".m3u8"@) ==> u@ == url@,
{
    match classify_stream_url(url.as_str()) {
        UrlKind::Direct => url.clone(),
        UrlKind::Pls => match playlist_text {
            Some(c) => match ParsingUtils::parse_pls_content(c.as_str()) {
                Ok(u) => u,
                Err(_) => url.clone(),
            },
            None => url.clone(),
        },
        UrlKind::M3u => match playlist_text {
            Some(c) => match parse_m3u_content(c.as_str()) {
                Ok(u) => u,
                Err(_) => url.clone(),
            },
            None => url.clone(),
        },
    }
}

/// Common parsing utilities used across the application.
pub struct ParsingUtils;

impl ParsingUtils {
    /// Parses `.pls` playlist text and extracts the first stream URL: the
    /// remainder of the first line that starts with `File1=`.  Fails if
    /// and only if no line does.
    pub fn parse_pls_content(content: &str) -> (r: Result<String, PlaylistError>)
        ensures
            r is Ok <==> exists|i: int, j: int| pls_entry_at(content@, i, j),
            r matches Ok(url) ==> exists|i: int, j: int|
                {
                    &&& #[trigger] pls_entry_at(content@, i, j)
                    &&& url@ == pls_entry_value(content@, i, j)
                    &&& forall|i2: int, j2: int| pls_entry_at(content@, i2, j2) ==> i2 >= i
                },
            r is Err ==> r == Err::<String, PlaylistError>(PlaylistError::NoStreamUrl),
    {
        proof {
            reveal_strlit("File1=");
        }
        let n: usize = content.unicode_len();
        let mut i: usize = 0;
        while i < n
            invariant
                n == content@.len(),
                i <= n,
                i == 0 || content@[i - 1] == '\n',
                forall|i2: int, j2: int| pls_entry_at(content@, i2, j2) ==> i2 >= i,
            decreases n - i,
        {
            let j: usize = find_line_end(content, i);
            let ghost s: Seq<char> = content@;
            proof {
                reveal_strlit("File1=");
                assert(is_line(s, i as int, j as int));
            }
            if line_is_pls_entry(content, i, j) {
                let end: usize = if j > i && content.get_char(j - 1) == '\r' {
                    j - 1
                } else {
                    j
                };
                proof {
                    assert(strip_cr(s.subrange(i as int, j as int)) =~= s.subrange(
                        i as int,
                        end as int,
                    ));
                    assert(end - i >= 6);
                }
                let url: &str = content.substring_char(i + 6, end);
                proof {
                    assert(url@ =~= strip_cr(s.subrange(i as int, j as int)).skip(6));
                    assert(pls_entry_at(s, i as int, j as int));
                }
                return Ok(String::from_str(url));
            }
            proof {
                assert forall|i2: int, j2: int| pls_entry_at(s, i2, j2) implies i2 >= j + 1 by {
                    if i2 <= j {
                        if i2 == i {
                            assert(is_line(s, i2, j2));
                            if j2 < j {
                                assert(s[j2] == '\n');
                            } else if j2 > j {
                                assert(s[j as int] != '\n');
                                assert(j < s.len());
                            }
                            assert(j2 == j);
                            assert(pls_entry_at(s, i as int, j as int));
                        } else {
                            assert(i < i2 <= j);
                            assert(s[i2 - 1] == '\n');
                        }
                    }
                }
            }
            if j >= n {
                proof {
                    assert forall|i2: int, j2: int| !pls_entry_at(s, i2, j2) by {
                        if pls_entry_at(s, i2, j2) {
                            assert(i2 >= j + 1);
                            assert(i2 <= s.len());
                        }
                    }
                }
                return Err(PlaylistError::NoStreamUrl);
            }
            i = j + 1;
        }
        proof {
            assert forall|i2: int, j2: int| !pls_entry_at(content@, i2, j2) by {
                if pls_entry_at(content@, i2, j2) {
                    assert(i2 >= n);
                    assert(j2 == i2);
                    assert(content@.subrange(i2, j2) =~= Seq::<char>::empty());
                    assert(strip_cr(content@.subrange(i2, j2)).len() == 0);
                }
            }
        }
        Err(PlaylistError::NoStreamUrl)
    }

    /// Whether a URL names a `.pls` playlist file.
    pub fn is_pls_url(url: &str) -> (b: bool)
        ensures
            b == ends_with(url@, ".pls"@),
    {
        str_ends_with(url, ".pls")
    }

    /// Resolves a URL to the actual stream URL.  A `.pls` URL resolves
    /// through its playlist text, which the caller fetches and passes in;
    /// any other URL already is the stream URL.
    pub fn resolve_stream_url(url: &str, pls_content: Option<&str>) -> (r: Result<
        String,
        PlaylistError,
    >)
        ensures
            !ends_with(url@, ".pls"@) ==> (r matches Ok(u) && u@ == url@),
            ends_with(url@, ".pls"@) && pls_content is None ==> r == Err::<String, PlaylistError>(
                PlaylistError::ContentUnavailable,
            ),
            ends_with(url@, ".pls"@) ==> (pls_content matches Some(c) ==> {
                &&& r is Ok <==> exists|i: int, j: int| pls_entry_at(c@, i, j)
                &&& r matches Ok(u) ==> exists|i: int, j: int|
                    {
                        &&& #[trigger] pls_entry_at(c@, i, j)
                        &&& u@ == pls_entry_value(c@, i, j)
                        &&& forall|i2: int, j2: int| pls_entry_at(c@, i2, j2) ==> i2 >= i
                    }
                &&& r is Err ==> r == Err::<String, PlaylistError>(PlaylistError::NoStreamUrl)
            }),
    {
        if Self::is_pls_url(url) {
            match pls_content {
                Some(c) => Self::parse_pls_content(c),
                None => Err(PlaylistError::ContentUnavailable),
            }
        } else {
            Ok(String::from_str(url))
        }
    }
}

} // verus!
