//! Links for a song: the search link that is published with it, the
//! catalogue query that finds its artwork, and the artwork that the answer holds.

use crate::config::{APPLE_MUSIC_URL, ITUNES_SEARCH_API_URL};
use crate::text::{replace_text, replaced};
use vstd::prelude::*;
use vstd::utf8::encode_utf8;

verus! {

/// The bytes that stand for themselves in an encoded text: ASCII letters and
/// digits, `-`, `.`, `_` and `~`.
pub open spec fn unreserved(byte: u8) -> bool {
    ||| 0x30 <= byte <= 0x39
    ||| 0x41 <= byte <= 0x5a
    ||| 0x61 <= byte <= 0x7a
    ||| byte == 0x2d
    ||| byte == 0x2e
    ||| byte == 0x5f
    ||| byte == 0x7e
}

/// The upper-case hexadecimal digit for a value below 16.
pub open spec fn hex_digit(value: u8) -> char {
    if value < 10 {
        (0x30 + value) as u8 as char
    } else {
        (0x41 + value - 10) as u8 as char
    }
}

/// One byte in an encoded text: itself, or `%` and its two hexadecimal digits.
pub open spec fn escaped(byte: u8) -> Seq<char> {
    if unreserved(byte) {
        seq![byte as char]
    } else {
        seq!['%', hex_digit(byte / 16), hex_digit(byte % 16)]
    }
}

/// The percent-encoding of a sequence of bytes.
pub open spec fn percent_encoded(bytes: Seq<u8>) -> Seq<char>
    decreases bytes.len(),
{
    if bytes.len() == 0 {
        Seq::empty()
    } else {
        percent_encoded(bytes.drop_last()) + escaped(bytes.last())
    }
}

/// The search term for two texts: both, with a space between, in UTF-8 and percent-encoded.
pub open spec fn search_term(first: Seq<char>, second: Seq<char>) -> Seq<char> {
    percent_encoded(encode_utf8(first + seq![' '] + second))
}

/// The link that `get_apple_music_search_url` returns.
pub open spec fn apple_music_search_url(title: Seq<char>, artist: Seq<char>) -> Seq<char> {
    APPLE_MUSIC_URL@ + "/search?term="@ + search_term(title, artist)
}

/// The query that `get_artwork_query_url` returns.
pub open spec fn artwork_query_url(artist: Seq<char>, title: Seq<char>) -> Seq<char> {
    ITUNES_SEARCH_API_URL@ + "?term="@ + search_term(artist, title) + "&media=music&limit=1"@
}

/// Percent-encodes `text` with `urlencoding::encode`.
///
/// That function walks the UTF-8 bytes of its argument, copies the ASCII
/// letters and digits and `-`, `.`, `_`, `~`, and writes every other byte as
/// `%` and two upper-case hexadecimal digits. The contract claims exactly this.
#[verifier::external_body]
fn percent_encode(text: &str) -> (encoded: String)
    ensures
        encoded@ == percent_encoded(encode_utf8(text@)),
{
    urlencoding::encode(text).into_owned()
}

fn encoded_term(first: &str, second: &str) -> (term: String)
    ensures
        term@ == search_term(first@, second@),
{
    let mut plain = String::from_str(first);
    plain.append(" ");
    plain.append(second);
    proof {
        reveal_strlit(" ");
        assert(plain@ =~= first@ + seq![' '] + second@);
    }
    percent_encode(plain.as_str())
}

/// The link that opens a search for the song on Apple Music.
pub fn get_apple_music_search_url(title: &str, artist: &str) -> (url: String)
    ensures
        url@ == apple_music_search_url(title@, artist@),
        url@.len() > 0,
{
    let term = encoded_term(title, artist);
    let mut url = String::from_str(APPLE_MUSIC_URL);
    url.append("/search?term=");
    url.append(term.as_str());
    proof {
        reveal_strlit("https://music.apple.com");
    }
    url
}

/// The catalogue query that looks for the artwork of the song.
pub fn get_artwork_query_url(artist: &str, title: &str) -> (url: String)
    ensures
        url@ == artwork_query_url(artist@, title@),
{
    let term = encoded_term(artist, title);
    let mut url = String::from_str(ITUNES_SEARCH_API_URL);
    url.append("?term=");
    url.append(term.as_str());
    url.append("&media=music&limit=1");
    url
}

/// One result of a catalogue query, as far as the artwork goes.
#[derive(Clone, Debug, PartialEq, Eq)]
pub struct SearchResult {
    /// The link to the artwork at 100 by 100 pixels, where the result has one.
    pub artwork_url_100: Option<String>,
}

/// The link to the artwork at 600 by 600 pixels, given the one at 100 by 100.
pub open spec fn enlarged(url: Seq<char>) -> Seq<char> {
    replaced(url, "100x100"@, "600x600"@)
}

/// The artwork that `get_artwork_url` finds in the results of a query.
pub open spec fn artwork_of(results: Seq<SearchResult>) -> Option<Seq<char>> {
    if results.len() == 0 {
        None
    } else {
        match results[0].artwork_url_100 {
            Some(url) => Some(enlarged(url@)),
            None => None,
        }
    }
}

/// The artwork of a song, taken from the results of its catalogue query: the
/// artwork of the first result, in its larger size. Without a result, or where
/// the first has no artwork, there is none.
pub fn get_artwork_url(results: &Vec<SearchResult>) -> (artwork: Option<String>)
    ensures
        match artwork {
            Some(url) => artwork_of(results@) == Some(url@),
            None => artwork_of(results@) is None,
        },
{
    if results.len() == 0 {
        return None;
    }
    match &results[0].artwork_url_100 {
        Some(url) => Some(replace_text(url.as_str(), "100x100", "600x600")),
        None => None,
    }
}

} // verus!
