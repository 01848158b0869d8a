//! Interpretation of a remote transcription provider's response, and
//! assembly of the endpoint the request is posted to.
//!
//! Performing the request is the caller's plumbing; what the provider's
//! answer means — which statuses succeed, what the body must carry —
//! is decided here.

use vstd::prelude::*;

verus! {

/// A typed provider-side failure.
#[derive(Debug)]
pub enum TranscriptionError {
    /// The request could not be performed; carries the transport's
    /// report. Produced by the caller that performs the request, never
    /// here.
    Network(String),
    /// The provider answered with a non-success status; carries the
    /// status and the body.
    Status(u16, String),
    /// The body is not well-formed JSON.
    MalformedResponse,
    /// The body is JSON but has no string field named `text`.
    MissingTextField,
}

/// What parsing a response body yields: `None` where the body is not
/// well-formed JSON; `Some(None)` where it is JSON without a string
/// field named `text`; `Some(Some(t))` where `t` is that field. The
/// outcome depends on the body text alone.
pub uninterp spec fn parsed_text_field(body: Seq<char>) -> Option<Option<Seq<char>>>;

/// Relies on `serde_json::from_str`, `serde_json::Value::get` and
/// `serde_json::Value::as_str`: parse the body and extract its
/// top-level string field named `text`, distinguishing a body that is
/// not JSON from one that merely lacks the field.
#[verifier::external_body]
fn extract_text_field(body: &str) -> (r: Option<Option<String>>)
    ensures
        r is Some <==> parsed_text_field(body@) is Some,
        r matches Some(inner) ==> {
            &&& (inner is Some <==> parsed_text_field(body@)->0 is Some)
            &&& (inner matches Some(t) ==> Some(t@) == parsed_text_field(body@)->0)
        },
{
    match serde_json::from_str::<serde_json::Value>(body) {
        Ok(v) => match v.get("text") {
            Some(t) => match t.as_str() {
                Some(s) => Some(Some(s.to_string())),
                None => Some(None),
            },
            None => Some(None),
        },
        Err(_) => None,
    }
}

/// The success range of the provider's status codes.
pub open spec fn success_status(status: u16) -> bool {
    200 <= status < 300
}

/// Decide what a provider's answer means: a non-success status is a
/// status failure carrying the body; a success status must carry a
/// JSON body with a string field named `text`, which is the
/// transcription.
pub fn interpret_response(status: u16, body: String) -> (r: Result<String, TranscriptionError>)
    ensures
        r is Ok <==> (success_status(status) && parsed_text_field(body@) matches Some(Some(_))),
        success_status(status) ==> match parsed_text_field(body@) {
            None => r == Err::<String, TranscriptionError>(TranscriptionError::MalformedResponse),
            Some(inner) => match inner {
                None => r == Err::<String, TranscriptionError>(
                    TranscriptionError::MissingTextField,
                ),
                Some(t) => r matches Ok(s) && s@ == t,
            },
        },
        !success_status(status) ==> (r matches Err(e) && (e matches TranscriptionError::Status(
            st,
            b,
        ) && st == status && b@ == body@)),
{
    if !(200 <= status && status < 300) {
        return Err(TranscriptionError::Status(status, body));
    }
    match extract_text_field(body.as_str()) {
        None => Err(TranscriptionError::MalformedResponse),
        Some(None) => Err(TranscriptionError::MissingTextField),
        Some(Some(t)) => Ok(t),
    }
}

/// The path the transcription request is posted to, below the
/// configured base: `/audio/transcriptions`.
pub open spec fn api_path() -> Seq<u8> {
    seq![
        0x2fu8, 0x61u8, 0x75u8, 0x64u8, 0x69u8, 0x6fu8, 0x2fu8, 0x74u8, 0x72u8, 0x61u8, 0x6eu8,
        0x73u8, 0x63u8, 0x72u8, 0x69u8, 0x70u8, 0x74u8, 0x69u8, 0x6fu8, 0x6eu8, 0x73u8,
    ]
}

/// A sequence with every trailing `b` dropped.
pub open spec fn trim_trailing(s: Seq<u8>, b: u8) -> Seq<u8>
    decreases s.len(),
{
    if s.len() > 0 && s.last() == b {
        trim_trailing(s.drop_last(), b)
    } else {
        s
    }
}

/// A prefix bounded by the last byte that differs from `b`, and
/// followed only by `b`, is what trimming leaves.
proof fn lemma_trim_trailing_is(s: Seq<u8>, b: u8, e: int)
    requires
        0 <= e <= s.len(),
        forall|k: int| e <= k < s.len() ==> s[k] == b,
        e > 0 ==> s[e - 1] != b,
    ensures
        trim_trailing(s, b) == s.take(e),
    decreases s.len() - e,
{
    if s.len() > e {
        assert(s.last() == b);
        assert(s.drop_last() =~= s.take(s.len() - 1));
        lemma_trim_trailing_is(s.drop_last(), b, e);
        assert(s.drop_last().take(e) =~= s.take(e));
    } else {
        assert(s.take(e) =~= s);
        if e > 0 {
            assert(s.last() != b);
        }
    }
}

/// Append the request path's bytes.
fn push_api_path(out: &mut Vec<u8>)
    ensures
        final(out)@ == old(out)@ + api_path(),
{
    out.push(0x2fu8);
    out.push(0x61u8);
    out.push(0x75u8);
    out.push(0x64u8);
    out.push(0x69u8);
    out.push(0x6fu8);
    out.push(0x2fu8);
    out.push(0x74u8);
    out.push(0x72u8);
    out.push(0x61u8);
    out.push(0x6eu8);
    out.push(0x73u8);
    out.push(0x63u8);
    out.push(0x72u8);
    out.push(0x69u8);
    out.push(0x70u8);
    out.push(0x74u8);
    out.push(0x69u8);
    out.push(0x6fu8);
    out.push(0x6eu8);
    out.push(0x73u8);
    proof {
        assert(final(out)@ =~= old(out)@ + api_path());
    }
}

/// Assemble the endpoint a transcription request is posted to: the
/// configured base, its trailing slashes dropped, followed by the
/// request path. Works on the URL's UTF-8 bytes; a slash byte is
/// always a whole character, so byte-level trimming drops exactly the
/// trailing slash characters.
pub fn transcription_endpoint(base: &[u8]) -> (r: Vec<u8>)
    ensures
        r@ == trim_trailing(base@, 0x2fu8) + api_path(),
{
    let mut end = base.len();
    while end > 0 && base[end - 1] == 0x2fu8
        invariant
            end <= base@.len(),
            forall|k: int| end <= k < base@.len() ==> base@[k] == 0x2fu8,
        decreases end,
    {
        end = end - 1;
    }
    proof {
        lemma_trim_trailing_is(base@, 0x2fu8, end as int);
    }
    let mut r: Vec<u8> = Vec::new();
    let mut i: usize = 0;
    while i < end
        invariant
            i <= end <= base@.len(),
            r@ == base@.take(end as int).take(i as int),
        decreases end - i,
    {
        r.push(base[i]);
        proof {
            assert(base@.take(end as int).take(i + 1 as int) =~= base@.take(end as int).take(
                i as int,
            ).push(base@[i as int]));
        }
        i = i + 1;
    }
    proof {
        assert(base@.take(end as int).take(end as int) =~= base@.take(end as int));
    }
    push_api_path(&mut r);
    r
}

} // verus!
