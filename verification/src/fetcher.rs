//! The content fetcher.
//!
//! A descriptor — two dimensions and a key — deterministically maps to
//! a remote URL and to a local destination file. Building the URL
//! happens before any network call: a descriptor that yields no valid
//! URL is rejected as the caller's error without touching the network.
//! The HTTP attempt itself is the surrounding application's work; its
//! outcome comes back here to be classified, and the fetched bytes are
//! persisted through the transfer engine's sink. One failed attempt is
//! one reported failure; nothing is retried.

use vstd::prelude::*;
use vstd::string::*;
use crate::errors::FetchImageError;
use crate::transfer::ByteSink;

verus! {

/// A fetch descriptor: the dimensions of the requested content and the
/// key under which it is stored locally and remotely.
#[derive(Debug)]
pub struct Image {
    pub x: u16,
    pub y: u16,
    pub key: String,
}

/// The character for one decimal digit.
pub open spec fn digit_char(d: int) -> char {
    if d == 0 {
        '0'
    } else if d == 1 {
        '1'
    } else if d == 2 {
        '2'
    } else if d == 3 {
        '3'
    } else if d == 4 {
        '4'
    } else if d == 5 {
        '5'
    } else if d == 6 {
        '6'
    } else if d == 7 {
        '7'
    } else if d == 8 {
        '8'
    } else {
        '9'
    }
}

/// The decimal digits of a non-negative number, most significant
/// first; zero has no digits here.
pub open spec fn dec_digits(n: int) -> Seq<char>
    decreases n,
{
    if n <= 0 {
        Seq::empty()
    } else {
        dec_digits(n / 10).push(digit_char(n % 10))
    }
}

/// The usual decimal rendering of a non-negative number: its digits,
/// or a single zero.
pub open spec fn dec_str_of(n: int) -> Seq<char> {
    if n == 0 {
        seq!['0']
    } else {
        dec_digits(n)
    }
}

/// The one-character string for a decimal digit.
fn digit_literal(d: u16) -> (s: &'static str)
    requires
        d < 10,
    ensures
        s@ == seq![digit_char(d as int)],
{
    proof {
        reveal_strlit("0");
        reveal_strlit("1");
        reveal_strlit("2");
        reveal_strlit("3");
        reveal_strlit("4");
        reveal_strlit("5");
        reveal_strlit("6");
        reveal_strlit("7");
        reveal_strlit("8");
        reveal_strlit("9");
    }
    if d == 0 {
        "0"
    } else if d == 1 {
        "1"
    } else if d == 2 {
        "2"
    } else if d == 3 {
        "3"
    } else if d == 4 {
        "4"
    } else if d == 5 {
        "5"
    } else if d == 6 {
        "6"
    } else if d == 7 {
        "7"
    } else if d == 8 {
        "8"
    } else {
        "9"
    }
}

/// Renders a number in decimal.
pub fn u16_to_dec(x: u16) -> (s: String)
    ensures
        s@ == dec_str_of(x as int),
{
    if x == 0 {
        let s = String::from_str("0");
        proof {
            reveal_strlit("0");
        }
        return s;
    }
    let mut rem: Vec<u16> = Vec::new();
    let mut v: u16 = x;
    while v > 0
        invariant
            forall|j: int| 0 <= j < rem@.len() ==> rem@[j] < 10,
            dec_digits(x as int) == dec_digits(v as int) + rev_digit_chars(rem@),
        decreases v,
    {
        let ghost prev_rem = rem@;
        let d = v % 10;
        rem.push(d);
        v = v / 10;
        proof {
            assert(rev_digit_chars(rem@) =~= seq![digit_char(d as int)] + rev_digit_chars(
                prev_rem,
            ));
            assert(dec_digits(x as int) =~= dec_digits(v as int) + rev_digit_chars(rem@));
        }
    }
    proof {
        assert(dec_digits(0) == Seq::<char>::empty());
        assert(dec_digits(x as int) =~= rev_digit_chars(rem@));
    }
    let n = rem.len();
    let mut s = String::new();
    let mut i: usize = n;
    while i > 0
        invariant
            i <= n,
            n == rem@.len(),
            forall|j: int| 0 <= j < rem@.len() ==> rem@[j] < 10,
            dec_digits(x as int) == rev_digit_chars(rem@),
            s@ == rev_digit_chars(rem@).take((n - i) as int),
        decreases i,
    {
        i = i - 1;
        let d = rem[i];
        s = s.concat(digit_literal(d));
        proof {
            assert(rev_digit_chars(rem@)[(n - i - 1) as int] == digit_char(rem@[i as int] as int));
            assert(s@ =~= rev_digit_chars(rem@).take((n - i) as int));
        }
    }
    proof {
        assert(rev_digit_chars(rem@).take(n as int) =~= rev_digit_chars(rem@));
    }
    s
}

/// The digit characters of collected remainders, read back to front:
/// remainders arrive least significant first, so reading them in
/// reverse yields the most significant digit first.
pub open spec fn rev_digit_chars(rem: Seq<u16>) -> Seq<char> {
    Seq::new(rem.len(), |j: int| digit_char(rem[rem.len() - 1 - j] as int))
}

/// The URL text a descriptor maps to: the external source's template
/// path with both dimensions rendered in decimal.
pub open spec fn url_text(x: int, y: int) -> Seq<char> {
    "https://picsum.photos/"@ + dec_str_of(x) + "/"@ + dec_str_of(y)
}

/// What `url::Url::parse` makes of a string: the serialization of the
/// parsed URL, or nothing when the string parses as no absolute URL.
/// The outcome depends on the characters alone.
pub uninterp spec fn parsed_url_of(s: Seq<char>) -> Option<Seq<char>>;

/// Relies on `url::Url::parse` to parse and normalize an absolute URL,
/// and on the `String` conversion of `url::Url` for the parsed URL's
/// serialization; both are functions of the input string alone.
#[verifier::external_body]
fn parse_url(raw: &str) -> (r: Result<String, String>)
    ensures
        r is Ok <==> parsed_url_of(raw@) is Some,
        r matches Ok(s) ==> s@ == parsed_url_of(raw@)->0,
{
    match url::Url::parse(raw) {
        Ok(u) => Ok(String::from(u)),
        Err(e) => Err(e.to_string()),
    }
}

/// Validates a URL the way the fetcher does: the normalized
/// serialization the URL parser assigns, if the text parses as an
/// absolute URL.
pub fn normalize_url(raw: &str) -> (r: Option<String>)
    ensures
        r is Some <==> parsed_url_of(raw@) is Some,
        r matches Some(s) ==> s@ == parsed_url_of(raw@)->0,
{
    match parse_url(raw) {
        Ok(u) => Some(u),
        Err(_) => None,
    }
}

impl Image {
    /// The descriptor carries no validation constraints, so every
    /// descriptor passes; the rejection path exists for the taxonomy's
    /// sake and is never taken.
    pub fn validate(&self) -> (r: Result<(), FetchImageError>)
        ensures
            r is Ok,
    {
        Ok(())
    }

    /// The remote URL the descriptor maps to, built and checked before
    /// any network call. A descriptor whose dimensions yield no valid
    /// URL is the caller's error, reported as a URL-construction
    /// failure.
    pub fn to_url(&self) -> (r: Result<String, FetchImageError>)
        ensures
            r is Ok <==> parsed_url_of(url_text(self.x as int, self.y as int)) is Some,
            r matches Ok(s) ==> s@ == parsed_url_of(url_text(self.x as int, self.y as int))->0,
            r matches Err(e) ==> e matches FetchImageError::BuildUrl(_),
    {
        let xs = u16_to_dec(self.x);
        let ys = u16_to_dec(self.y);
        let raw = String::from_str("https://picsum.photos/").concat(xs.as_str()).concat(
            "/",
        ).concat(ys.as_str());
        match parse_url(raw.as_str()) {
            Ok(u) => Ok(u),
            Err(d) => Err(FetchImageError::BuildUrl(d)),
        }
    }

    /// The local file the fetched content is stored under: the key
    /// with an image suffix, a deterministic mapping that is
    /// collision-free for distinct keys.
    pub fn to_file_name(&self) -> (r: String)
        ensures
            r@ == self.key@ + ".png"@,
    {
        self.key.clone().concat(".png")
    }
}

/// What one HTTP GET against the external source yielded, as observed
/// by the surrounding application.
#[derive(Debug)]
pub enum FetchOutcome {
    /// The response body, read to the end.
    Delivered(Vec<u8>),
    /// The request never reached the host.
    ConnectFailed(String),
    /// The connection dropped while the body was being read.
    BodyFailed(String),
}

/// Classifies one fetch attempt's outcome: the fetched bytes, a
/// transport error for an unreachable host, or a body-read error for a
/// stream cut off mid-body.
pub fn classify_response(outcome: FetchOutcome) -> (r: Result<Vec<u8>, FetchImageError>)
    ensures
        outcome matches FetchOutcome::Delivered(b) ==> (r matches Ok(rb) && rb@ == b@),
        outcome matches FetchOutcome::ConnectFailed(d) ==> (r matches Err(e) && (e matches
            FetchImageError::Request(rd) && rd@ == d@)),
        outcome matches FetchOutcome::BodyFailed(d) ==> (r matches Err(e) && (e matches
            FetchImageError::ReadBody(rd) && rd@ == d@)),
{
    match outcome {
        FetchOutcome::Delivered(b) => Ok(b),
        FetchOutcome::ConnectFailed(d) => Err(FetchImageError::Request(d)),
        FetchOutcome::BodyFailed(d) => Err(FetchImageError::ReadBody(d)),
    }
}

/// Persists fetched bytes to the descriptor's local destination,
/// created anew for this fetch; yields the destination's name. The
/// sink stands for the file at that name.
pub fn save_as_file(image: &Image, bytes: &Vec<u8>, sink: &mut ByteSink) -> (r: Result<
    String,
    FetchImageError,
>)
    ensures
        r matches Ok(name) && name@ == image.key@ + ".png"@,
        final(sink)@ == bytes@,
{
    sink.reset();
    sink.write_chunk(bytes);
    Ok(image.to_file_name())
}

} // verus!
