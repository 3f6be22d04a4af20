//! Protocol decisions of the HTTP front end: what a download request means
//! in each ticket state, how query flags and form fields are read, the
//! redirect target, and the success message. The handlers around these
//! decisions only move bytes and set headers.

use vstd::prelude::*;
use vstd::string::StringExecFns;
use vstd::string::StringSliceAdditionalSpecFns;
use crate::metadata::FileMetadata;
use crate::text::{spec_decimal, spec_starts_with, starts_with, decimal_string, str_eq};

verus! {

/// How a query parameter reads as a flag: only the exact text `true` turns
/// it on, as `str::parse::<bool>` would, with parse failures counting as
/// off.
pub open spec fn spec_flag(p: Option<Seq<char>>) -> bool {
    p matches Some(s) && s == "true"@
}

/// Reads a query parameter as a flag.
pub fn query_flag(p: Option<&String>) -> (r: bool)
    ensures
        r == spec_flag(match p {
            Some(s) => Some(s@),
            None => None,
        }),
{
    match p {
        Some(s) => str_eq(s.as_str(), "true"),
        None => false,
    }
}

/// Whether a browser-like client asked: the user agent announces `Mozilla`
/// or `WhatsApp`.
pub open spec fn spec_web_agent(agent: Seq<char>) -> bool {
    spec_starts_with(agent, "Mozilla"@) || spec_starts_with(agent, "WhatsApp"@)
}

/// Tests whether the user agent is browser-like.
pub fn is_web_agent(agent: &str) -> (r: bool)
    ensures
        r == spec_web_agent(agent@),
{
    starts_with(agent, "Mozilla") || starts_with(agent, "WhatsApp")
}

/// What `urlencoding` turns one byte into: kept when unreserved, else a
/// percent escape with two uppercase hex digits.
pub open spec fn spec_unreserved_byte(b: u8) -> bool {
    (0x30 <= b && b <= 0x39) || (0x41 <= b && b <= 0x5a) || (0x61 <= b && b <= 0x7a) || b == 0x2d
        || b == 0x2e || b == 0x5f || b == 0x7e
}

pub open spec fn spec_hex_digit(n: u8) -> char {
    if n < 10 {
        (0x30 + n) as char
    } else {
        (0x41 + (n - 10)) as char
    }
}

/// The percent-encoding of a byte sequence, as `urlencoding` produces it.
pub open spec fn spec_percent_encoded(bs: Seq<u8>) -> Seq<char>
    decreases bs.len(),
{
    if bs.len() == 0 {
        Seq::empty()
    } else if spec_unreserved_byte(bs[0]) {
        seq![bs[0] as char] + spec_percent_encoded(bs.skip(1))
    } else {
        seq!['%', spec_hex_digit(bs[0] / 16), spec_hex_digit(bs[0] % 16)] + spec_percent_encoded(
            bs.skip(1),
        )
    }
}

/// Relies on `urlencoding::encode`: percent-encodes every byte of the
/// UTF-8 text except ASCII alphanumerics and `-`, `.`, `_`, `~`, using
/// uppercase hex digits.
#[verifier::external_body]
fn url_encode(s: &str) -> (r: String)
    ensures
        r@ == spec_percent_encoded(s.spec_bytes()),
{
    urlencoding::encode(s).into_owned()
}

/// What a `GET /{ticket}` request is answered with.
pub enum GetDownloadDecision {
    /// Stream redacted metadata snapshots until the ticket disappears.
    StreamStatus,
    /// One redacted metadata record.
    StatusJson,
    /// The download already completed; the ticket is spent.
    Gone,
    /// A download is running right now.
    Busy,
    /// A browser gets the landing page instead of the payload.
    Landing,
    /// Redirect to the payload path, carrying the encoded file name.
    Redirect(String),
}

/// Decides a `GET /{ticket}` request for an existing ticket, in this
/// order: the `stream` flag wins, then the `status` flag, then a locked
/// download answers that it is spent or busy, then a browser-like agent
/// without the `download` flag gets the landing page, and anything else is
/// redirected to `/{ticket}/{encoded file name}`.
pub fn decide_get_download(
    meta: &FileMetadata,
    status_param: Option<&String>,
    stream_param: Option<&String>,
    download_param: Option<&String>,
    user_agent: Option<&String>,
) -> (r: GetDownloadDecision)
    ensures
        ({
            let stream_flag = spec_flag(match stream_param {
                Some(s) => Some(s@),
                None => None,
            });
            let status_flag = spec_flag(match status_param {
                Some(s) => Some(s@),
                None => None,
            });
            let download_flag = spec_flag(match download_param {
                Some(s) => Some(s@),
                None => None,
            });
            let web = (user_agent matches Some(a) && spec_web_agent(a@));
            if stream_flag {
                r is StreamStatus
            } else if status_flag {
                r is StatusJson
            } else if meta.spec_download_locked() {
                if meta.download == crate::metadata::FileState::Complete {
                    r is Gone
                } else {
                    r is Busy
                }
            } else if web && !download_flag {
                r is Landing
            } else {
                r matches GetDownloadDecision::Redirect(target) && target@ == "/"@ + meta.path@
                    + "/"@ + spec_percent_encoded(vstd::utf8::encode_utf8(meta.file_name@))
            }
        }),
{
    if query_flag(stream_param) {
        return GetDownloadDecision::StreamStatus;
    }
    if query_flag(status_param) {
        return GetDownloadDecision::StatusJson;
    }
    if meta.download_locked() {
        if meta.download_finished() {
            return GetDownloadDecision::Gone;
        }
        return GetDownloadDecision::Busy;
    }
    let web = match user_agent {
        Some(a) => is_web_agent(a.as_str()),
        None => false,
    };
    if web && !query_flag(download_param) {
        return GetDownloadDecision::Landing;
    }
    let mut target = String::from_str("/");
    target.append(meta.path.as_str());
    target.append("/");
    let encoded = url_encode(meta.file_name.as_str());
    target.append(encoded.as_str());
    GetDownloadDecision::Redirect(target)
}

/// What a `GET /{ticket}/{name}` request is answered with, before any
/// channel is touched.
pub enum DownloadRouteDecision {
    /// The name is the upload key: show the browser upload form instead.
    UploadLanding,
    /// The download already completed; the ticket is spent.
    Gone,
    /// A download is running right now.
    Busy,
    /// Take the consumer and stream the payload.
    Proceed,
}

/// Decides a `GET /{ticket}/{name}` request for an existing ticket: the
/// upload key answers with the upload landing, a locked download answers
/// that it is spent or busy, and otherwise the payload may be streamed.
pub fn decide_download(meta: &FileMetadata, name: &String) -> (r: DownloadRouteDecision)
    ensures
        meta.upload_key@ == name@ ==> r is UploadLanding,
        meta.upload_key@ != name@ && meta.spec_download_locked() && meta.download
            == crate::metadata::FileState::Complete ==> r is Gone,
        meta.upload_key@ != name@ && meta.spec_download_locked() && meta.download
            != crate::metadata::FileState::Complete ==> r is Busy,
        meta.upload_key@ != name@ && !meta.spec_download_locked() ==> r is Proceed,
{
    if meta.check_key(name) {
        return DownloadRouteDecision::UploadLanding;
    }
    if meta.download_locked() {
        if meta.download_finished() {
            return DownloadRouteDecision::Gone;
        }
        return DownloadRouteDecision::Busy;
    }
    DownloadRouteDecision::Proceed
}

/// What `serde_json` parses a text into when read as an array of strings;
/// a function of the text alone.
pub uninterp spec fn spec_json_string_list(s: Seq<char>) -> Option<Seq<Seq<char>>>;

/// Relies on `serde_json::from_str::<Vec<String>>`: the string array a
/// JSON text holds, if it is one; parsing is determined by the text alone.
#[verifier::external_body]
fn parse_string_list(s: &String) -> (r: Option<Vec<String>>)
    ensures
        r is Some <==> spec_json_string_list(s@) is Some,
        r matches Some(v) ==> v.deep_view() == spec_json_string_list(s@).unwrap(),
{
    serde_json::from_str::<Vec<String>>(s).ok()
}

/// Reads an upgrade's `challenge` form field: a JSON array of strings is
/// taken apart, and anything else is treated as a single entry.
pub fn challenge_list(challenge: &String) -> (r: Vec<String>)
    ensures
        spec_json_string_list(challenge@) matches Some(l) ==> r.deep_view() == l,
        spec_json_string_list(challenge@) is None ==> r@.len() == 1 && r@[0]@ == challenge@,
{
    match parse_string_list(challenge) {
        Some(v) => v,
        None => {
            let mut v: Vec<String> = Vec::new();
            v.push(challenge.clone());
            v
        },
    }
}

/// What a `POST /{name_or_ticket}` request does.
pub enum MakeUploadDecision {
    /// The path names a live ticket but no challenge came: a bad request.
    MissingChallenge,
    /// The path names a live ticket: run the upgrade with these responses.
    Upgrade(Vec<String>),
    /// The path is free: mint a new ticket under that file name.
    Mint,
}

/// Decides a `POST /{name_or_ticket}` request: a live ticket makes it an
/// upgrade, which requires the `challenge` field; a free path mints a new
/// ticket.
pub fn decide_make_upload(ticket_exists: bool, challenge: Option<&String>) -> (r:
    MakeUploadDecision)
    ensures
        !ticket_exists ==> r is Mint,
        ticket_exists && challenge is None ==> r is MissingChallenge,
        (ticket_exists && challenge is Some) ==> (r matches MakeUploadDecision::Upgrade(l) && {
            &&& (spec_json_string_list(challenge.unwrap()@) matches Some(parsed)
                ==> l.deep_view() == parsed)
            &&& (spec_json_string_list(challenge.unwrap()@) is None ==> l@.len() == 1 && l@[0]@
                == challenge.unwrap()@)
        }),
{
    if !ticket_exists {
        return MakeUploadDecision::Mint;
    }
    match challenge {
        None => MakeUploadDecision::MissingChallenge,
        Some(c) => MakeUploadDecision::Upgrade(challenge_list(c)),
    }
}

/// The value of a sequence of decimal digit characters, most significant
/// first.
pub open spec fn spec_digits_value(s: Seq<char>) -> nat
    decreases s.len(),
{
    if s.len() == 0 {
        0
    } else {
        spec_digits_value(s.drop_last()) * 10 + ((s.last() as int - '0' as int) as nat)
    }
}

pub open spec fn spec_all_digits(s: Seq<char>) -> bool {
    forall|i: int| 0 <= i < s.len() ==> '0' <= #[trigger] s[i] && s[i] <= '9'
}

/// Parses a decimal ASCII integer, as the `file-size` form field carries
/// one: accepts exactly the nonempty all-digit texts whose value fits the
/// machine, and returns that value.
pub fn parse_usize(s: &str) -> (r: Option<usize>)
    ensures
        r is Some <==> (s@.len() > 0 && spec_all_digits(s@) && spec_digits_value(s@)
            <= usize::MAX),
        r matches Some(v) ==> v == spec_digits_value(s@),
{
    let len = s.unicode_len();
    if len == 0 {
        return None;
    }
    let mut value: usize = 0;
    let mut i: usize = 0;
    while i < len
        invariant
            len == s@.len(),
            i <= len,
            spec_all_digits(s@.take(i as int)),
            value == spec_digits_value(s@.take(i as int)),
            spec_digits_value(s@.take(i as int)) <= usize::MAX,
        decreases len - i,
    {
        let c = s.get_char(i);
        if !('0' <= c && c <= '9') {
            proof {
                assert(!spec_all_digits(s@));
            }
            return None;
        }
        let d = (c as u32 - '0' as u32) as usize;
        if value > (usize::MAX - d) / 10 {
            proof {
                lemma_digits_value_monotone(s@, i as int);
                assert(spec_digits_value(s@.take(i + 1)) == value * 10 + d);
                assert(value * 10 + d > usize::MAX) by (nonlinear_arith)
                    requires
                        value > (usize::MAX - d) / 10,
                        d <= 9,
                ;
                lemma_digits_prefix_bound(s@, i + 1);
            }
            return None;
        }
        proof {
            assert(value * 10 + d <= usize::MAX) by (nonlinear_arith)
                requires
                    value <= (usize::MAX - d) / 10,
                    d <= 9,
            ;
        }
        value = value * 10 + d;
        proof {
            assert(s@.take(i + 1).drop_last() =~= s@.take(i as int));
            assert(s@.take(i + 1).last() == s@[i as int]);
            assert(spec_all_digits(s@.take(i + 1)));
        }
        i = i + 1;
    }
    proof {
        assert(s@.take(len as int) =~= s@);
    }
    Some(value)
}

/// The value of the whole text is at least the value of any prefix.
proof fn lemma_digits_prefix_bound(s: Seq<char>, k: int)
    requires
        0 <= k <= s.len(),
    ensures
        spec_digits_value(s.take(k)) <= spec_digits_value(s),
    decreases s.len() - k,
{
    if k < s.len() {
        lemma_digits_value_monotone(s, k);
        lemma_digits_prefix_bound(s, k + 1);
    } else {
        assert(s.take(k) =~= s);
    }
}

/// A longer digit prefix never has a smaller value.
proof fn lemma_digits_value_monotone(s: Seq<char>, i: int)
    requires
        0 <= i < s.len(),
    ensures
        spec_digits_value(s.take(i + 1)) == spec_digits_value(s.take(i)) * 10 + ((s[i] as int
            - '0' as int) as nat),
{
    assert(s.take(i + 1).drop_last() =~= s.take(i));
    assert(s.take(i + 1).last() == s[i]);
}

/// Names of the two metadata form fields of an upload; any other field is
/// the payload.
pub enum UploadField {
    FileSize,
    CompressionName,
    Payload,
}

/// Classifies a multipart field of an upload by its name: `file-size` and
/// `compression` update the ticket's metadata, anything else carries the
/// payload.
pub fn classify_field(name: &str) -> (r: UploadField)
    ensures
        name@ == "file-size"@ <==> r is FileSize,
        name@ == "compression"@ <==> r is CompressionName,
        (name@ != "file-size"@ && name@ != "compression"@) <==> r is Payload,
{
    proof {
        reveal_strlit("file-size");
        reveal_strlit("compression");
        assert("file-size"@.len() != "compression"@.len());
    }
    if str_eq(name, "file-size") {
        UploadField::FileSize
    } else if str_eq(name, "compression") {
        UploadField::CompressionName
    } else {
        UploadField::Payload
    }
}

/// The success body of a finished upload.
pub fn done_message(sent: usize) -> (r: String)
    ensures
        r@ == "Done! Sent "@ + spec_decimal(sent as nat) + " bytes"@,
{
    let mut out = String::from_str("Done! Sent ");
    let digits = decimal_string(sent);
    out.append(digits.as_str());
    out.append(" bytes");
    out
}

} // verus!
