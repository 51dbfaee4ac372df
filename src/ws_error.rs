use vstd::prelude::*;
use vstd::string::*;
use crate::text::{decimal, indent, indent_lines, push_decimal};
use tokio_tungstenite::tungstenite::http::StatusCode;

verus! {

/// The variant carried by a structured handshake rejection.
#[derive(Debug)]
pub enum ConnectionErrorType {
    /// The client is too old: `required` is the version to install, from `download`.
    Outdated { required: String, download: String },
    /// Any other kind of rejection.
    Other,
}

/// The structured error that a rejected handshake carries in its `X-Error` header.
#[derive(Debug)]
pub struct ConnectionErrorMessage {
    pub message: Option<String>,
    pub error: ConnectionErrorType,
}

/// How a connection handshake failed.
#[derive(Debug)]
pub enum WsError {
    /// The server answered the upgrade with an HTTP status; `x_error` holds the
    /// raw bytes of its `X-Error` header, if it sent one.
    Http { status: u16, x_error: Option<Vec<u8>> },
    /// Anything below HTTP: name resolution, a reset, a timeout.
    Transport { cause: String },
}

/// What to show the operator for a rejection whose header could be read.
#[derive(Debug)]
pub enum Rejection {
    /// Show `notice`, then try to open `download` in a browser.
    UpdateRequired { notice: String, download: String },
    /// Show `notice`.
    Notice { notice: String },
    /// Nothing to add to the generic framing.
    Silent,
    /// The header could not be understood: log `log` as an error line.
    Unreadable { log: String },
}

/// The next step after a failed handshake.
#[derive(Debug)]
pub enum WsErrorStep {
    /// A 400 rejection with a readable header: decode `text` as a
    /// `ConnectionErrorMessage` and hand the result to `report_rejection`.
    Decode { text: String },
    /// A 400 rejection whose header is missing or not text: log `log` as an error line.
    Unreadable { log: String },
}

/// A byte that an HTTP header value may hold for it to be read as text.
pub open spec fn is_visible_ascii(b: u8) -> bool {
    (32 <= b && b < 127) || b == 9
}

/// ASCII bytes read as characters.
pub open spec fn ascii_chars(b: Seq<u8>) -> Seq<char> {
    b.map_values(|x: u8| x as char)
}

pub open spec fn missing_header_log() -> Seq<char> {
    "Connection refused without error message"@
}

pub open spec fn invalid_header_log() -> Seq<char> {
    "Connection refused with invalid error message"@
}

/// The canonical reason phrase that http registers for a status code, if any.
pub uninterp spec fn canonical_reason_of(status: u16) -> Option<Seq<char>>;

/// Relies on http's `StatusCode::from_u16` and `StatusCode::canonical_reason`:
/// the registered reason phrase of the code, `None` for an unregistered code or
/// one outside 100 to 999.
#[verifier::external_body]
fn canonical_reason(status: u16) -> (r: Option<String>)
    ensures
        match canonical_reason_of(status) {
            Some(p) => r matches Some(s) && s@ == p,
            None => r is None,
        },
{
    match StatusCode::from_u16(status) {
        Ok(code) => match code.canonical_reason() {
            Some(p) => Some(p.to_string()),
            None => None,
        },
        Err(_) => None,
    }
}

/// A status code as http displays it: the number, then its reason phrase.
pub open spec fn status_text(status: u16) -> Seq<char> {
    decimal(status as nat) + " "@ + match canonical_reason_of(status) {
        Some(p) => p,
        None => "<unknown status code>"@,
    }
}

pub open spec fn http_error_text(status: u16) -> Seq<char> {
    "HTTP error: "@ + status_text(status)
}

pub open spec fn transport_error_text(cause: Seq<char>) -> Seq<char> {
    "Failed to connect to the server: "@ + cause
}

pub open spec fn update_notice(version: Seq<char>, required: Seq<char>, download: Seq<char>) -> Seq<char> {
    "\n\u{2191} Update required: "@ + version + " to "@ + required + "\n  Download: "@ + download + "\n\n"@
}

pub open spec fn message_notice(message: Seq<char>) -> Seq<char> {
    "\n\u{2613} Connection error:\n"@ + indent(message) + "\n\n"@
}

/// Relies on String::from_utf8: bytes that are all ASCII are valid UTF-8 and
/// decode one character per byte.
#[verifier::external_body]
fn ascii_to_string(bytes: Vec<u8>) -> (r: String)
    requires
        forall|i: int| 0 <= i < bytes@.len() ==> #[trigger] bytes@[i] < 128,
    ensures
        r@ == ascii_chars(bytes@),
{
    match String::from_utf8(bytes) {
        Ok(s) => s,
        Err(_) => String::new(),
    }
}

/// Reads an HTTP header value as text: `None` unless every byte is visible
/// ASCII or a tab.
pub fn header_text(bytes: Vec<u8>) -> (r: Option<String>)
    ensures
        (forall|i: int| 0 <= i < bytes@.len() ==> is_visible_ascii(#[trigger] bytes@[i])) <==> r is Some,
        r matches Some(t) ==> t@ == ascii_chars(bytes@),
{
    let mut i: usize = 0;
    while i < bytes.len()
        invariant
            i <= bytes@.len(),
            forall|k: int| 0 <= k < i ==> is_visible_ascii(#[trigger] bytes@[k]),
        decreases bytes@.len() - i,
    {
        let b = bytes[i];
        if !((32 <= b && b < 127) || b == 9) {
            return None;
        }
        i = i + 1;
    }
    Some(ascii_to_string(bytes))
}

/// `r` is what a failed handshake `err` is classified as.
pub open spec fn classifies(err: WsError, r: Result<WsErrorStep, String>) -> bool {
    match err {
        WsError::Http { status, x_error } => if status == 400 {
            match x_error {
                None => r matches Ok(WsErrorStep::Unreadable { log }) && log@ == missing_header_log(),
                Some(bytes) => if forall|i: int| 0 <= i < bytes@.len() ==> is_visible_ascii(#[trigger] bytes@[i]) {
                    r matches Ok(WsErrorStep::Decode { text }) && text@ == ascii_chars(bytes@)
                } else {
                    r matches Ok(WsErrorStep::Unreadable { log }) && log@ == invalid_header_log()
                },
            }
        } else {
            r matches Err(e) && e@ == http_error_text(status)
        },
        WsError::Transport { cause } => r matches Err(e) && e@ == transport_error_text(cause@),
    }
}

/// Classifies a failed handshake. A 400 rejection is informational: its header
/// is either passed on for decoding or reported as unreadable. Any other HTTP
/// status, and any failure below HTTP, is an error for this attempt.
pub fn handle_ws_error(err: WsError) -> (r: Result<WsErrorStep, String>)
    ensures
        classifies(err, r),
{
    match err {
        WsError::Http { status, x_error } => {
            if status == 400 {
                match x_error {
                    None => Ok(WsErrorStep::Unreadable {
                        log: String::from_str("Connection refused without error message"),
                    }),
                    Some(bytes) => match header_text(bytes) {
                        Some(text) => Ok(WsErrorStep::Decode { text }),
                        None => Ok(WsErrorStep::Unreadable {
                            log: String::from_str("Connection refused with invalid error message"),
                        }),
                    },
                }
            } else {
                let mut e = String::from_str("HTTP error: ");
                push_decimal(&mut e, status as u32);
                let e = e.concat(" ");
                let e = match canonical_reason(status) {
                    Some(p) => e.concat(p.as_str()),
                    None => e.concat("<unknown status code>"),
                };
                assert(e@ =~= http_error_text(status));
                Err(e)
            }
        },
        WsError::Transport { cause } => {
            Err(String::from_str("Failed to connect to the server: ").concat(cause.as_str()))
        },
    }
}

/// Turns the decoded `X-Error` header of a 400 rejection into what the
/// operator sees. `decoded` is the decoder's result: the message, or the
/// decoder's own error text.
pub fn report_rejection(version: &str, decoded: Result<ConnectionErrorMessage, String>) -> (r: Rejection)
    ensures
        match decoded {
            Err(e) => r matches Rejection::Unreadable { log } && log@ == e@,
            Ok(m) => match m.error {
                ConnectionErrorType::Outdated { required, download } =>
                    r matches Rejection::UpdateRequired { notice, download: d }
                        && notice@ == update_notice(version@, required@, download@)
                        && d@ == download@,
                ConnectionErrorType::Other => match m.message {
                    Some(msg) => r matches Rejection::Notice { notice } && notice@ == message_notice(msg@),
                    None => r is Silent,
                },
            },
        },
{
    match decoded {
        Err(e) => Rejection::Unreadable { log: e },
        Ok(m) => match m.error {
            ConnectionErrorType::Outdated { required, download } => {
                let notice = String::from_str("\n\u{2191} Update required: ")
                    .concat(version)
                    .concat(" to ")
                    .concat(required.as_str())
                    .concat("\n  Download: ")
                    .concat(download.as_str())
                    .concat("\n\n");
                Rejection::UpdateRequired { notice, download }
            },
            ConnectionErrorType::Other => match m.message {
                Some(msg) => {
                    let notice = String::from_str("\n\u{2613} Connection error:\n")
                        .concat(indent_lines(msg.as_str()).as_str())
                        .concat("\n\n");
                    Rejection::Notice { notice }
                },
                None => Rejection::Silent,
            },
        },
    }
}

} // verus!
