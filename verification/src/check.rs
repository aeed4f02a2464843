//! Classification of a poll's outcome: every way a fetch of the product page
//! can end is mapped either to success (the page still shows the baseline) or
//! to a notification with a fatal/non-fatal severity.

use vstd::prelude::*;
use vstd::string::StringExecFns;
use crate::NotificationNeeded;
use crate::NoteView;
use crate::payload::{
    render_payload,
    ResponsePayload,
    ResponseView,
    spec_render_payload,
    spec_stock_signal,
    stock_signal,
};
use crate::text::{decimal_digits, parse_usize, spec_parse_usize, u64_to_string};

verus! {

/// Read-buffer capacity used when no declared size accompanies the body.
pub const DEFAULT_BODY_CAPACITY: usize = 8192;

/// How reading and decoding the body of a 200 response ended.
pub enum BodyOutcome {
    /// The body could not be read in full (I/O interruption mid-stream).
    ReadFailed { detail: String },
    /// The body was read but did not decode into the expected schema.
    SchemaMismatch { detail: String },
    /// The body decoded into a payload.
    Decoded { payload: ResponsePayload },
}

/// How one fetch of the product page ended.
pub enum FetchOutcome {
    /// No response arrived: connection, DNS or TLS failure.
    Transport { detail: String },
    /// A response arrived with a status other than 200.
    NonOkStatus { code: u16 },
    /// A 200 response arrived, with its declared size header (verbatim, if
    /// present) and the outcome of reading and decoding its body.
    OkResponse { content_length: Option<String>, body: BodyOutcome },
}

pub open spec fn spec_transport_message(detail: Seq<char>) -> Seq<char> {
    "Transport error retrieving JSON data: "@ + detail
}

pub open spec fn spec_status_message(code: u16) -> Seq<char> {
    if 400 <= code < 500 {
        "Status code "@ + decimal_digits(code as nat)
    } else {
        "Unexpected status code "@ + decimal_digits(code as nat)
    }
}

pub open spec fn spec_content_length_message(header: Seq<char>) -> Seq<char> {
    "Content-Length present but not a valid usize: "@ + header
}

pub open spec fn spec_read_message(detail: Seq<char>) -> Seq<char> {
    "IO error when reading HTTP body: "@ + detail
}

pub open spec fn spec_schema_message(detail: Seq<char>) -> Seq<char> {
    "JSON deserialization failed: "@ + detail
}

pub open spec fn spec_stock_message(p: ResponseView) -> Seq<char> {
    "BAC4000 maybe in stock! "@ + spec_render_payload(p)
}

pub open spec fn spec_stale_message(p: ResponseView) -> Seq<char> {
    "Payload updated but looks like still not in stock, update the expected payload to "@
        + spec_render_payload(p)
}

/// A non-200 status is non-fatal exactly when it lies in the client-error
/// range [400, 500): such conditions may be transient.
pub open spec fn spec_status_fatal(code: u16) -> bool {
    !(400 <= code < 500)
}

/// The classification table: what one fetch outcome is turned into. `None`
/// means success (no notification); `Some` gives the notification's content
/// and severity.
pub open spec fn spec_check_stock(outcome: FetchOutcome, baseline: ResponseView) -> Option<
    NoteView,
> {
    match outcome {
        FetchOutcome::Transport { detail } => Some(
            NoteView { content: spec_transport_message(detail@), fatal: false },
        ),
        FetchOutcome::NonOkStatus { code } => Some(
            NoteView { content: spec_status_message(code), fatal: spec_status_fatal(code) },
        ),
        FetchOutcome::OkResponse { content_length, body } => {
            let bad_header = match content_length {
                Some(h) => spec_parse_usize(h@) is None,
                None => false,
            };
            if bad_header {
                Some(
                    NoteView {
                        content: spec_content_length_message(
                            match content_length {
                                Some(h) => h@,
                                None => Seq::empty(),
                            },
                        ),
                        fatal: true,
                    },
                )
            } else {
                match body {
                    BodyOutcome::ReadFailed { detail } => Some(
                        NoteView { content: spec_read_message(detail@), fatal: false },
                    ),
                    BodyOutcome::SchemaMismatch { detail } => Some(
                        NoteView { content: spec_schema_message(detail@), fatal: true },
                    ),
                    BodyOutcome::Decoded { payload } => {
                        if payload@ == baseline {
                            None
                        } else if spec_stock_signal(payload@) {
                            Some(NoteView { content: spec_stock_message(payload@), fatal: true })
                        } else {
                            Some(NoteView { content: spec_stale_message(payload@), fatal: true })
                        }
                    },
                }
            }
        },
    }
}

/// Law: classification is a pure function of the fetch outcome, so however
/// often an unchanged 200 baseline response is polled, every check succeeds
/// and no notification is ever produced.
pub proof fn lemma_baseline_always_succeeds(outcome: FetchOutcome, baseline: ResponseView)
    requires
        outcome matches FetchOutcome::OkResponse { content_length, body } && (match content_length {
            Some(h) => spec_parse_usize(h@) is Some,
            None => true,
        }) && ({
            body matches BodyOutcome::Decoded { payload } && payload@ == baseline
        }),
    ensures
        spec_check_stock(outcome, baseline) is None,
{
}

/// The read-buffer capacity for a 200 response: the declared size when the
/// header is present and parses as a `usize`, the default fallback when the
/// header is absent, and a fatal notification when the header is present but
/// malformed.
pub fn content_length_hint(header: &Option<String>) -> (r: Result<usize, NotificationNeeded>)
    ensures
        match *header {
            None => r == Ok::<usize, NotificationNeeded>(DEFAULT_BODY_CAPACITY),
            Some(h) => match spec_parse_usize(h@) {
                Some(v) => r matches Ok(c) && c as int == v,
                None => r matches Err(n) && n.fatal && n@.content
                    == spec_content_length_message(h@),
            },
        },
{
    match header {
        None => Ok(DEFAULT_BODY_CAPACITY),
        Some(h) => match parse_usize(h.as_str()) {
            Some(v) => Ok(v),
            None => Err(
                NotificationNeeded {
                    content: String::from_str("Content-Length present but not a valid usize: ")
                        .concat(h.as_str()),
                    fatal: true,
                },
            ),
        },
    }
}

/// Classifies one fetch of the product page against the baseline, per the
/// response-classification table: success exactly when a 200 response with a
/// well-formed size header decodes to a payload structurally equal to the
/// baseline; every other outcome yields a notification whose severity the
/// table fixes.
pub fn check_stock(outcome: FetchOutcome, baseline: &ResponsePayload) -> (r: Result<
    (),
    NotificationNeeded,
>)
    requires
        outcome matches FetchOutcome::NonOkStatus { code } ==> code != 200,
    ensures
        r is Ok <==> spec_check_stock(outcome, baseline@) is None,
        r matches Err(n) ==> spec_check_stock(outcome, baseline@) == Some(n@),
        // A client-error status is classified non-fatal, a status outside
        // [200, 500) or an unexpected success status fatal.
        outcome matches FetchOutcome::NonOkStatus { code } ==> r matches Err(n) && n.fatal
            == spec_status_fatal(code),
        // A transport failure before any response is non-fatal.
        outcome matches FetchOutcome::Transport { .. } ==> r matches Err(n) && !n.fatal,
        // For a 200 response whose size header is well formed and whose body
        // decoded: the baseline itself is success; a differing payload that
        // signals stock yields a fatal notification carrying the payload's
        // rendering; a differing payload without a stock signal yields a
        // fatal notification instructing a baseline update.
        match outcome {
            FetchOutcome::OkResponse { content_length, body } => {
                let header_ok = match content_length {
                    Some(h) => spec_parse_usize(h@) is Some,
                    None => true,
                };
                match body {
                    BodyOutcome::Decoded { payload } => header_ok ==> {
                        if payload@ == baseline@ {
                            r is Ok
                        } else if spec_stock_signal(payload@) {
                            r matches Err(n) && n.fatal && n@.content == spec_stock_message(
                                payload@,
                            )
                        } else {
                            r matches Err(n) && n.fatal && n@.content == spec_stale_message(
                                payload@,
                            )
                        }
                    },
                    _ => true,
                }
            },
            _ => true,
        },
        // A decoded payload whose nested in-stock flag is set, against a
        // baseline whose flag is clear, always yields the fatal stock
        // notification carrying the payload's rendering; and a payload that
        // differs from a no-stock baseline only in its update timestamp
        // always yields the fatal baseline-update notification.
        match outcome {
            FetchOutcome::OkResponse { content_length, body } => {
                let header_ok = match content_length {
                    Some(h) => spec_parse_usize(h@) is Some,
                    None => true,
                };
                match body {
                    BodyOutcome::Decoded { payload } => {
                        &&& (header_ok && payload@.master.in_stock && !baseline@.master.in_stock)
                            ==> ({
                            r matches Err(n) && n.fatal && n@.content == spec_stock_message(
                                payload@,
                            )
                        })
                        &&& (header_ok && payload@.updated_at != baseline@.updated_at
                            && payload@.total_on_hand == baseline@.total_on_hand && payload@.master
                            == baseline@.master && !spec_stock_signal(baseline@)) ==> ({
                            r matches Err(n) && n.fatal && n@.content == spec_stale_message(
                                payload@,
                            )
                        })
                    },
                    _ => true,
                }
            },
            _ => true,
        },
{
    match outcome {
        FetchOutcome::Transport { detail } => Err(
            NotificationNeeded {
                content: String::from_str("Transport error retrieving JSON data: ").concat(
                    detail.as_str(),
                ),
                fatal: false,
            },
        ),
        FetchOutcome::NonOkStatus { code } => {
            let digits = u64_to_string(code as u64);
            if 400 <= code && code < 500 {
                Err(
                    NotificationNeeded {
                        content: String::from_str("Status code ").concat(digits.as_str()),
                        fatal: false,
                    },
                )
            } else {
                Err(
                    NotificationNeeded {
                        content: String::from_str("Unexpected status code ").concat(
                            digits.as_str(),
                        ),
                        fatal: true,
                    },
                )
            }
        },
        FetchOutcome::OkResponse { content_length, body } => {
            match content_length_hint(&content_length) {
                Err(n) => Err(n),
                Ok(_capacity) => match body {
                    BodyOutcome::ReadFailed { detail } => Err(
                        NotificationNeeded {
                            content: String::from_str("IO error when reading HTTP body: ").concat(
                                detail.as_str(),
                            ),
                            fatal: false,
                        },
                    ),
                    BodyOutcome::SchemaMismatch { detail } => Err(
                        NotificationNeeded {
                            content: String::from_str("JSON deserialization failed: ").concat(
                                detail.as_str(),
                            ),
                            fatal: true,
                        },
                    ),
                    BodyOutcome::Decoded { payload } => {
                        if payload == *baseline {
                            Ok(())
                        } else if stock_signal(&payload) {
                            let rendered = render_payload(&payload);
                            Err(
                                NotificationNeeded {
                                    content: String::from_str("BAC4000 maybe in stock! ").concat(
                                        rendered.as_str(),
                                    ),
                                    fatal: true,
                                },
                            )
                        } else {
                            let rendered = render_payload(&payload);
                            Err(
                                NotificationNeeded {
                                    content: String::from_str(
                                        "Payload updated but looks like still not in stock, update the expected payload to ",
                                    ).concat(rendered.as_str()),
                                    fatal: true,
                                },
                            )
                        }
                    },
                },
            }
        },
    }
}

} // verus!
