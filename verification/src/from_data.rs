//! Accepting a webhook request from GitHub: header checks, the HMAC-SHA256
//! signature, the payload encoding and the kind of event.
use hmac::{Hmac, Mac, NewMac};
use rocket::data::ByteUnit;
use rocket::http::{ContentType, RawStr};
use sha2::Sha256;
use vstd::prelude::*;
use vstd::utf8::{decode_utf8, encode_utf8, is_char_boundary};

use crate::api::EventKind;

verus! {

/// The header that names the kind of event.
pub const X_GITHUB_EVENT: &'static str = "x-github-event";

/// The header that holds the signature of the body.
pub const X_HUB_SIGNATURE: &'static str = "x-hub-signature-256";

/// The header that holds the length of the body.
pub const CONTENT_LEN: &'static str = "content-length";

/// The header that holds the media type of the body.
pub const CONTENT_TYPE: &'static str = "content-type";

/// HTTP status of a request refused as malformed.
pub const BAD_REQUEST: u16 = 400;

/// HTTP status of a request the server could not handle.
pub const INTERNAL_SERVER_ERROR: u16 = 500;

// ---------------------------------------------------------------------------
// Hex encoding.
// ---------------------------------------------------------------------------

/// The lowercase hex digit of a number below 16.
pub open spec fn hex_digit(n: int) -> u8 {
    if n < 10 {
        (48 + n) as u8
    } else {
        (87 + n) as u8
    }
}

/// Each byte as two lowercase hex digits, the high half first.
pub open spec fn spec_bytes_to_hex(bytes: Seq<u8>) -> Seq<u8>
    decreases bytes.len(),
{
    if bytes.len() == 0 {
        Seq::empty()
    } else {
        spec_bytes_to_hex(bytes.drop_last()) + seq![
            hex_digit(bytes.last() as int / 16),
            hex_digit(bytes.last() as int % 16),
        ]
    }
}

/// A lowercase hexadecimal digit: `0`-`9` or `a`-`f`.
pub open spec fn is_hex_digit(c: u8) -> bool {
    (48 <= c <= 57) || (97 <= c <= 102)
}

/// The hex text of bytes is two lowercase hexadecimal digits per byte.
pub proof fn law_hex_is_lowercase_digits(bytes: Seq<u8>)
    ensures
        spec_bytes_to_hex(bytes).len() == 2 * bytes.len(),
        forall|i: int|
            0 <= i < spec_bytes_to_hex(bytes).len() ==> is_hex_digit(#[trigger] spec_bytes_to_hex(bytes)[i]),
    decreases bytes.len(),
{
    if bytes.len() > 0 {
        law_hex_is_lowercase_digits(bytes.drop_last());
        let before = spec_bytes_to_hex(bytes.drop_last());
        let hi = hex_digit(bytes.last() as int / 16);
        let lo = hex_digit(bytes.last() as int % 16);
        assert(is_hex_digit(hi) && is_hex_digit(lo));
        assert forall|i: int| 0 <= i < spec_bytes_to_hex(bytes).len() implies is_hex_digit(
            #[trigger] spec_bytes_to_hex(bytes)[i],
        ) by {
            if i < before.len() {
                assert(spec_bytes_to_hex(bytes)[i] == before[i]);
            } else if i == before.len() {
                assert(spec_bytes_to_hex(bytes)[i] == hi);
            } else {
                assert(spec_bytes_to_hex(bytes)[i] == lo);
            }
        }
    }
}

fn hex_char(n: u8) -> (c: u8)
    requires
        n < 16,
    ensures
        c == hex_digit(n as int),
{
    if n < 10 {
        48 + n
    } else {
        87 + n
    }
}

/// The bytes as lowercase hex text, two digits per byte.
pub fn bytes_to_hex(bytes: &[u8]) -> (hex: Vec<u8>)
    ensures
        hex@ == spec_bytes_to_hex(bytes@),
        hex@.len() == 2 * bytes@.len(),
{
    let mut v: Vec<u8> = Vec::new();
    let mut i: usize = 0;
    while i < bytes.len()
        invariant
            i <= bytes@.len(),
            v@ == spec_bytes_to_hex(bytes@.subrange(0, i as int)),
            v@.len() == 2 * i,
        decreases bytes.len() - i,
    {
        let byte = bytes[i];
        let high = byte >> 4;
        let low = byte & 0xf;
        assert(high == byte / 16 && low == byte % 16 && high < 16 && low < 16) by (bit_vector)
            requires
                high == byte >> 4,
                low == byte & 0xf,
        ;
        v.push(hex_char(high));
        v.push(hex_char(low));
        assert(bytes@.subrange(0, i + 1).drop_last() =~= bytes@.subrange(0, i as int));
        i = i + 1;
    }
    assert(bytes@.subrange(0, i as int) =~= bytes@);
    v
}

// ---------------------------------------------------------------------------
// The signature.
// ---------------------------------------------------------------------------

/// HMAC-SHA256 of `message` under `key`.
pub uninterp spec fn hmac_sha256(key: Seq<u8>, message: Seq<u8>) -> Seq<u8>;

/// `Hmac::<Sha256>::new_from_slice`, `update` and `finalize`: the tag of
/// `message` under `key`, 32 bytes long (SHA-256's output size). The key may
/// have any length: `new_from_slice` pads or hashes it and never fails.
#[verifier::external_body]
fn hmac_sha256_tag(key: &[u8], message: &[u8]) -> (tag: Vec<u8>)
    ensures
        tag@ == hmac_sha256(key@, message@),
        tag@.len() == 32,
{
    let mut mac = Hmac::<Sha256>::new_from_slice(key).expect("failed to create Hmac digest");
    mac.update(message);
    mac.finalize().into_bytes().to_vec()
}

/// Whether `signature`, after its 7-byte `sha256=` prefix, is the hex
/// HMAC-SHA256 of `message` under `secret`.
pub open spec fn spec_validate(secret: Seq<u8>, signature: Seq<u8>, message: Seq<u8>) -> bool {
    spec_bytes_to_hex(hmac_sha256(secret, message)) == signature.skip(7)
}

/// Checks the signature GitHub sends of a webhook body.
pub fn validate(secret: &str, signature: &str, message: &str) -> (valid: bool)
    requires
        encode_utf8(signature@).len() >= 7,
    ensures
        valid == spec_validate(encode_utf8(secret@), encode_utf8(signature@), encode_utf8(message@)),
{
    let sig = signature.as_bytes();
    let tag = hmac_sha256_tag(secret.as_bytes(), message.as_bytes());
    let hex = bytes_to_hex(tag.as_slice());
    let ghost expected = sig@.skip(7);
    if hex.len() != sig.len() - 7 {
        return false;
    }
    let mut i: usize = 0;
    while i < hex.len()
        invariant
            hex.len() + 7 == sig@.len(),
            sig@.len() == sig.len(),
            sig@ == encode_utf8(signature@),
            hex@ == spec_bytes_to_hex(
                hmac_sha256(encode_utf8(secret@), encode_utf8(message@)),
            ),
            i <= hex@.len(),
            expected == sig@.skip(7),
            forall|j: int| 0 <= j < i ==> hex@[j] == expected[j],
        decreases hex.len() - i,
    {
        if hex[i] != sig[i + 7] {
            assert(expected[i as int] == sig@[i + 7]);
            assert(hex@[i as int] != expected[i as int]);
            return false;
        }
        i = i + 1;
    }
    assert(hex@ =~= expected);
    true
}

/// A body signed with the secret passes the check: the signature is
/// `sha256=` followed by the hex HMAC-SHA256 of the body under the secret.
pub proof fn law_signed_body_validates(secret: Seq<u8>, prefix: Seq<u8>, message: Seq<u8>)
    requires
        prefix.len() == 7,
    ensures
        spec_validate(secret, prefix + spec_bytes_to_hex(hmac_sha256(secret, message)), message),
{
    let hex = spec_bytes_to_hex(hmac_sha256(secret, message));
    assert((prefix + hex).skip(7) =~= hex);
}

// ---------------------------------------------------------------------------
// Steps of accepting a request.
// ---------------------------------------------------------------------------

/// Why a webhook request was refused: the HTTP status and the reason.
#[derive(Clone, Debug)]
pub struct HookFailure {
    pub status: u16,
    pub message: String,
}

/// A refusal as a status and a text.
pub open spec fn failure_view(f: HookFailure) -> (u16, Seq<char>) {
    (f.status, f.message@)
}

/// The number of bytes a `Content-Length` value allows, as Rocket's
/// `ByteUnit` reads it (units such as `kb` or `MiB` are accepted).
pub uninterp spec fn byte_unit_of(s: Seq<char>) -> Option<u64>;

/// `ByteUnit::from_str` followed by `ByteUnit::as_u64`.
#[verifier::external_body]
fn parse_byte_unit(s: &str) -> (n: Option<u64>)
    ensures
        n == byte_unit_of(s@),
{
    match s.parse::<ByteUnit>() {
        Ok(unit) => Some(unit.as_u64()),
        Err(_) => None,
    }
}

/// What the header checks give: the limit for reading the body, or a refusal.
pub open spec fn spec_check_request_headers(
    content_types: Seq<Seq<char>>,
    content_lens: Seq<Seq<char>>,
    signatures: Seq<Seq<char>>,
) -> Result<u64, (u16, Seq<char>)> {
    if content_types.len() != 1 {
        Err((BAD_REQUEST, "Multiple content length headers"@))
    } else if content_lens.len() != 1 {
        Err((BAD_REQUEST, "Multiple content length headers"@))
    } else if signatures.len() != 1 {
        Err((BAD_REQUEST, "Multiple signature keys headers"@))
    } else {
        match byte_unit_of(content_lens[0]) {
            Some(n) => Ok(n),
            None => Err((INTERNAL_SERVER_ERROR, "Content length headers failed to parse"@)),
        }
    }
}

/// The views of a list of strings.
pub open spec fn header_views(v: Seq<String>) -> Seq<Seq<char>> {
    v.map_values(|s: String| s@)
}

fn failure(status: u16, message: &str) -> (f: HookFailure)
    ensures
        f.status == status,
        f.message@ == message@,
{
    HookFailure { status, message: message.to_owned() }
}

/// Checks that a request has one content type, one content length and one
/// signature, and reads the content length: the most bytes of body to read.
pub fn check_request_headers(
    content_types: &Vec<String>,
    content_lens: &Vec<String>,
    signatures: &Vec<String>,
) -> (r: Result<u64, HookFailure>)
    ensures
        match r {
            Ok(n) => spec_check_request_headers(
                header_views(content_types@),
                header_views(content_lens@),
                header_views(signatures@),
            ) == Ok::<u64, (u16, Seq<char>)>(n),
            Err(f) => spec_check_request_headers(
                header_views(content_types@),
                header_views(content_lens@),
                header_views(signatures@),
            ) == Err::<u64, (u16, Seq<char>)>(failure_view(f)),
        },
{
    if content_types.len() != 1 {
        return Err(failure(BAD_REQUEST, "Multiple content length headers"));
    }
    if content_lens.len() != 1 {
        return Err(failure(BAD_REQUEST, "Multiple content length headers"));
    }
    if signatures.len() != 1 {
        return Err(failure(BAD_REQUEST, "Multiple signature keys headers"));
    }
    assert(header_views(content_lens@)[0] == content_lens@[0]@);
    match parse_byte_unit(content_lens[0].as_str()) {
        Some(n) => Ok(n),
        None => Err(failure(INTERNAL_SERVER_ERROR, "Content length headers failed to parse")),
    }
}

/// What the checks after reading the body give: the name of the event and
/// the body, or a refusal. `body` is `None` when reading it failed and
/// `secret` is `None` when no secret is configured.
pub open spec fn spec_accept_body(
    secret: Option<Seq<char>>,
    signature: Seq<char>,
    events: Seq<Seq<char>>,
    body: Option<Seq<char>>,
) -> Result<(Seq<char>, Seq<char>), (u16, Seq<char>)> {
    match body {
        None => Err((INTERNAL_SERVER_ERROR, "Content too large"@)),
        Some(b) => match secret {
            None => Err((INTERNAL_SERVER_ERROR, "No secret key found"@)),
            Some(s) => if !spec_validate(encode_utf8(s), encode_utf8(signature), encode_utf8(b)) {
                Err((BAD_REQUEST, "Validation failed"@))
            } else if events.len() != 1 {
                Err((BAD_REQUEST, "No payload type specified in header"@))
            } else {
                Ok((events[0], b))
            },
        },
    }
}

/// Checks a request once its body is read: the body was read, a secret is
/// configured, the signature matches, and one event kind is named.
pub fn accept_body(
    secret: Option<&str>,
    signature: &str,
    events: &Vec<String>,
    body: Option<String>,
) -> (r: Result<(String, String), HookFailure>)
    requires
        body is Some && secret is Some ==> encode_utf8(signature@).len() >= 7,
    ensures
        match r {
            Ok((name, b)) => spec_accept_body(
                match secret {
                    Some(s) => Some(s@),
                    None => None,
                },
                signature@,
                header_views(events@),
                match body {
                    Some(b) => Some(b@),
                    None => None,
                },
            ) == Ok::<(Seq<char>, Seq<char>), (u16, Seq<char>)>((name@, b@)),
            Err(f) => spec_accept_body(
                match secret {
                    Some(s) => Some(s@),
                    None => None,
                },
                signature@,
                header_views(events@),
                match body {
                    Some(b) => Some(b@),
                    None => None,
                },
            ) == Err::<(Seq<char>, Seq<char>), (u16, Seq<char>)>(failure_view(f)),
        },
{
    let b = match body {
        None => {
            return Err(failure(INTERNAL_SERVER_ERROR, "Content too large"));
        },
        Some(b) => b,
    };
    let s = match secret {
        None => {
            return Err(failure(INTERNAL_SERVER_ERROR, "No secret key found"));
        },
        Some(s) => s,
    };
    if !validate(s, signature, b.as_str()) {
        return Err(failure(BAD_REQUEST, "Validation failed"));
    }
    if events.len() != 1 {
        return Err(failure(BAD_REQUEST, "No payload type specified in header"));
    }
    assert(header_views(events@)[0] == events@[0]@);
    Ok((events[0].clone(), b))
}

/// A request whose body was read, whose signature is a 7-byte prefix and the
/// hex HMAC-SHA256 of the body under the configured secret, and which names
/// one event kind, is accepted with that name and body.
pub proof fn law_signed_request_is_accepted(
    secret: Seq<char>,
    signature: Seq<char>,
    prefix: Seq<u8>,
    name: Seq<char>,
    body: Seq<char>,
)
    requires
        prefix.len() == 7,
        encode_utf8(signature) == prefix + spec_bytes_to_hex(
            hmac_sha256(encode_utf8(secret), encode_utf8(body)),
        ),
    ensures
        spec_accept_body(Some(secret), signature, seq![name], Some(body)) == Ok::<
            (Seq<char>, Seq<char>),
            (u16, Seq<char>),
        >((name, body)),
{
    law_signed_body_validates(encode_utf8(secret), prefix, encode_utf8(body));
}

/// Whether a `Content-Type` value names `application/x-www-form-urlencoded`,
/// as Rocket's `ContentType` parser reads it.
pub uninterp spec fn content_type_is_form(s: Seq<char>) -> bool;

/// `ContentType::from_str` followed by `ContentType::is_form`; a value that
/// does not parse is no form.
#[verifier::external_body]
fn is_form_content_type(s: &str) -> (form: bool)
    ensures
        form == content_type_is_form(s@),
{
    match s.parse::<ContentType>() {
        Ok(ct) => ct.is_form(),
        Err(_) => false,
    }
}

/// Text with its percent-escapes decoded, invalid UTF-8 replaced, as Rocket's
/// `RawStr::percent_decode_lossy` does it.
pub uninterp spec fn percent_decode_lossy(s: Seq<char>) -> Seq<char>;

/// `RawStr::percent_decode_lossy`.
#[verifier::external_body]
fn percent_decode(s: &str) -> (d: String)
    ensures
        d@ == percent_decode_lossy(s@),
{
    RawStr::new(s).percent_decode_lossy().to_string()
}

/// A form body starts with `payload=`: the 8 bytes dropped before decoding.
pub open spec fn form_prefix_len() -> int {
    8
}

/// The payload of a body: a form body loses its `payload=` prefix and is
/// percent-decoded; any other body is the payload as it is.
pub open spec fn spec_decode_payload(content_type: Seq<char>, body: Seq<char>) -> Seq<char> {
    if content_type_is_form(content_type) {
        percent_decode_lossy(decode_utf8(encode_utf8(body).skip(form_prefix_len())))
    } else {
        body
    }
}

/// The payload of a body, given the request's content type.
pub fn decode_payload(content_type: &str, body: String) -> (payload: String)
    requires
        content_type_is_form(content_type@) ==> is_char_boundary(encode_utf8(body@), form_prefix_len()),
    ensures
        payload@ == spec_decode_payload(content_type@, body@),
{
    if is_form_content_type(content_type) {
        let (_, rest) = body.as_str().split_at(8);
        proof {
            assert(encode_utf8(rest@) =~= encode_utf8(body@).skip(8));
            vstd::utf8::encode_utf8_decode_utf8(rest@);
        }
        percent_decode(rest)
    } else {
        body
    }
}

/// The payload of a body, or `None` for a form body too short to hold the
/// `payload=` prefix (or not split at a character boundary there), which the
/// server does not survive.
pub fn try_decode_payload(content_type: &str, body: String) -> (payload: Option<String>)
    ensures
        match payload {
            Some(p) => p@ == spec_decode_payload(content_type@, body@) && (content_type_is_form(
                content_type@,
            ) ==> is_char_boundary(encode_utf8(body@), form_prefix_len())),
            None => content_type_is_form(content_type@) && !is_char_boundary(
                encode_utf8(body@),
                form_prefix_len(),
            ),
        },
{
    if is_form_content_type(content_type) && !body.as_str().is_char_boundary(8) {
        return None;
    }
    Some(decode_payload(content_type, body))
}

/// The kinds of event whose payload the server reads.
pub open spec fn is_handled_kind(k: EventKind) -> bool {
    match k {
        EventKind::CheckSuite | EventKind::CheckRun | EventKind::CommitComment | EventKind::Create
        | EventKind::Delete | EventKind::Installation | EventKind::Issues | EventKind::IssueComment
        | EventKind::Milestone | EventKind::Ping | EventKind::PullRequest
        | EventKind::PullRequestReview | EventKind::PullRequestReviewComment | EventKind::Push
        | EventKind::Release | EventKind::Star | EventKind::Status | EventKind::Watch => true,
        _ => false,
    }
}

/// The kind of event a request names, if the server reads such events.
pub open spec fn spec_event_kind(name: Seq<char>) -> Result<EventKind, (u16, Seq<char>)> {
    match EventKind::spec_from_name(name) {
        Some(k) => if is_handled_kind(k) {
            Ok(k)
        } else {
            Err((BAD_REQUEST, "Found unknown event `"@ + name + "`"@))
        },
        None => Err((BAD_REQUEST, "Found unknown event `"@ + name + "`"@)),
    }
}

/// Reads the kind of event a request names.
pub fn event_kind(name: &str) -> (r: Result<EventKind, HookFailure>)
    ensures
        match r {
            Ok(k) => spec_event_kind(name@) == Ok::<EventKind, (u16, Seq<char>)>(k),
            Err(f) => spec_event_kind(name@) == Err::<EventKind, (u16, Seq<char>)>(failure_view(f)),
        },
{
    let kind = EventKind::from_name(name);
    let handled = match kind {
        Some(k) => match k {
            EventKind::CheckSuite | EventKind::CheckRun | EventKind::CommitComment
            | EventKind::Create | EventKind::Delete | EventKind::Installation | EventKind::Issues
            | EventKind::IssueComment | EventKind::Milestone | EventKind::Ping
            | EventKind::PullRequest | EventKind::PullRequestReview
            | EventKind::PullRequestReviewComment | EventKind::Push | EventKind::Release
            | EventKind::Star | EventKind::Status | EventKind::Watch => Some(k),
            _ => None,
        },
        None => None,
    };
    match handled {
        Some(k) => Ok(k),
        None => {
            let mut message = "Found unknown event `".to_owned();
            message.append(name);
            message.append("`");
            Err(HookFailure { status: BAD_REQUEST, message })
        },
    }
}


/// The names of the event kinds whose payload the server reads.
pub open spec fn handled_event_names() -> Seq<Seq<char>> {
    seq![
        "check_run"@,
        "check_suite"@,
        "commit_comment"@,
        "create"@,
        "delete"@,
        "installation"@,
        "issues"@,
        "issue_comment"@,
        "milestone"@,
        "ping"@,
        "pull_request"@,
        "pull_request_review"@,
        "pull_request_review_comment"@,
        "push"@,
        "release"@,
        "star"@,
        "status"@,
        "watch"@,
    ]
}

proof fn lemma_from_name_is_name(name: Seq<char>)
    ensures
        EventKind::spec_from_name(name) matches Some(k) ==> name == k.spec_name(),
{
}

/// Every event kind the server reads is accepted under its name, as the kind
/// that name stands for; every other name, known or not, is refused with
/// `400` and ``Found unknown event `name` ``.
pub proof fn law_event_names(name: Seq<char>)
    ensures
        handled_event_names().contains(name) ==> (EventKind::spec_from_name(name) matches Some(k)
            && spec_event_kind(name) == Ok::<EventKind, (u16, Seq<char>)>(k)),
        !handled_event_names().contains(name) ==> spec_event_kind(name) == Err::<
            EventKind,
            (u16, Seq<char>),
        >((BAD_REQUEST, "Found unknown event `"@ + name + "`"@)),
{
    let names = handled_event_names();
    if names.contains(name) {
        let i = choose|i: int| 0 <= i < names.len() && names[i] == name;
        let k = if i == 0 {
            EventKind::CheckRun
        } else if i == 1 {
            EventKind::CheckSuite
        } else if i == 2 {
            EventKind::CommitComment
        } else if i == 3 {
            EventKind::Create
        } else if i == 4 {
            EventKind::Delete
        } else if i == 5 {
            EventKind::Installation
        } else if i == 6 {
            EventKind::Issues
        } else if i == 7 {
            EventKind::IssueComment
        } else if i == 8 {
            EventKind::Milestone
        } else if i == 9 {
            EventKind::Ping
        } else if i == 10 {
            EventKind::PullRequest
        } else if i == 11 {
            EventKind::PullRequestReview
        } else if i == 12 {
            EventKind::PullRequestReviewComment
        } else if i == 13 {
            EventKind::Push
        } else if i == 14 {
            EventKind::Release
        } else if i == 15 {
            EventKind::Star
        } else if i == 16 {
            EventKind::Status
        } else {
            EventKind::Watch
        };
        assert(name == k.spec_name());
        EventKind::law_name_round_trip(k);
    } else {
        lemma_from_name_is_name(name);
        if let Some(k) = EventKind::spec_from_name(name) {
            if is_handled_kind(k) {
                let i: int = match k {
                    EventKind::CheckRun => 0,
                    EventKind::CheckSuite => 1,
                    EventKind::CommitComment => 2,
                    EventKind::Create => 3,
                    EventKind::Delete => 4,
                    EventKind::Installation => 5,
                    EventKind::Issues => 6,
                    EventKind::IssueComment => 7,
                    EventKind::Milestone => 8,
                    EventKind::Ping => 9,
                    EventKind::PullRequest => 10,
                    EventKind::PullRequestReview => 11,
                    EventKind::PullRequestReviewComment => 12,
                    EventKind::Push => 13,
                    EventKind::Release => 14,
                    EventKind::Star => 15,
                    EventKind::Status => 16,
                    _ => 17,
                };
                assert(names[i] == name);
            }
        }
    }
}

} // verus!
