//! The inbound notification gateway: HTTP Basic authentication of pushed
//! alerts, and the decision every webhook request resolves to.

use vstd::prelude::*;
use vstd::string::*;
use vstd::utf8::{decode_utf8, valid_utf8};
use base64::Engine;
use crate::monitor::utils::{md_escape, ToMarkdown};
use crate::text::{find_char, index_of_first, str_eq, trim, trim_spec};

verus! {

/// What the standard-alphabet base64 decoding of a text yields: the bytes,
/// or nothing when the text is not well-formed base64. The result depends
/// on the characters alone.
pub uninterp spec fn base64_decoded(s: Seq<char>) -> Option<Seq<u8>>;

/// Relies on base64's `Engine::decode` with the standard engine: it
/// decodes a well-formed input to its bytes and rejects anything else.
#[verifier::external_body]
fn decode_base64(s: &str) -> (r: Option<Vec<u8>>)
    ensures
        (match r {
            Some(v) => base64_decoded(s@) == Some(v@),
            None => base64_decoded(s@) is None,
        }),
{
    base64::engine::general_purpose::STANDARD.decode(s).ok()
}

/// Relies on String::from_utf8: it accepts exactly the valid UTF-8 byte
/// sequences and decodes them to their characters.
#[verifier::external_body]
fn bytes_to_utf8(b: Vec<u8>) -> (r: Option<String>)
    ensures
        r is Some <==> valid_utf8(b@),
        (r matches Some(s) ==> s@ == decode_utf8(b@)),
{
    String::from_utf8(b).ok()
}

/// Whether an authorization header is good for a pushed alert: after trimming,
/// the word before the first space must be `Basic`, and the rest, trimmed,
/// must be base64 that decodes (UTF-8) to exactly the configured token.
pub open spec fn validate_auth_spec(api_token: Seq<char>, header: Seq<char>) -> bool {
    let t = trim_spec(header);
    let i = index_of_first(t, ' ');
    &&& i < t.len()
    &&& t.take(i) == "Basic"@
    &&& match base64_decoded(trim_spec(t.skip(i))) {
        Some(bytes) => valid_utf8(bytes) && decode_utf8(bytes) == api_token,
        None => false,
    }
}

/// Checks an authorization header against the configured token. Any parse
/// failure, scheme mismatch, or token mismatch rejects.
pub fn validate_auth(api_token: &str, base64_token: &str) -> (r: bool)
    ensures
        r == validate_auth_spec(api_token@, base64_token@),
{
    let trimmed = trim(base64_token);
    let n = trimmed.unicode_len();
    match find_char(trimmed, ' ') {
        None => false,
        Some(i) => {
            let scheme = trimmed.substring_char(0, i);
            proof {
                assert(scheme@ =~= trim_spec(base64_token@).take(i as int));
            }
            if !str_eq(scheme, "Basic") {
                false
            } else {
                let rest = trim(trimmed.substring_char(i, n));
                proof {
                    assert(trimmed@.subrange(i as int, n as int) =~= trim_spec(
                        base64_token@,
                    ).skip(i as int));
                }
                match decode_base64(rest) {
                    Some(bytes) => match bytes_to_utf8(bytes) {
                        Some(decoded) => str_eq(api_token, decoded.as_str()),
                        None => false,
                    },
                    None => false,
                }
            }
        },
    }
}

/// The decision one webhook request resolves to: rejected, or accepted
/// with the text to forward to the default group list.
pub enum NotificationReply {
    Forbidden,
    Accepted { text: String },
}

impl NotificationReply {
    /// The HTTP status of the decision.
    pub fn status_code(&self) -> (c: u16)
        ensures
            c == (if self is Forbidden {
                403u16
            } else {
                202u16
            }),
    {
        match self {
            NotificationReply::Forbidden => 403,
            NotificationReply::Accepted { .. } => 202,
        }
    }

    /// The response body of the decision.
    pub fn body_text(&self) -> (t: &'static str)
        ensures
            self is Forbidden ==> t@ == "FORBIDDEN"@,
            self is Accepted ==> t@ == "ACCEPTED"@,
    {
        match self {
            NotificationReply::Forbidden => "FORBIDDEN",
            NotificationReply::Accepted { .. } => "ACCEPTED",
        }
    }
}

/// Decides one webhook request: a header that fails authentication is
/// rejected and nothing is forwarded; otherwise the message is accepted
/// and forwarded markdown-escaped, with no explicit target.
pub fn handle_notification(api_token: &str, auth_header: &str, message: &String) -> (r:
    NotificationReply)
    ensures
        !validate_auth_spec(api_token@, auth_header@) ==> r is Forbidden,
        validate_auth_spec(api_token@, auth_header@) ==> (r matches NotificationReply::Accepted {
            text } && text@ == md_escape(message@)),
{
    if !validate_auth(api_token, auth_header) {
        NotificationReply::Forbidden
    } else {
        NotificationReply::Accepted { text: message.parse_text_to_markdown() }
    }
}

} // verus!
