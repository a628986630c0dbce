//! Message protocol codec: one UTF-8 text frame decodes to one tagged
//! inbound message, or to a recoverable error that leaves the connection
//! open.

use vstd::prelude::*;

verus! {

use crate::json::{disc_of, get_field, parse_frame, parses_to_object};
use crate::registry::str_eq;

/// Why a text frame was rejected.  Both cases are recoverable: the owning
/// connection stays open and reads on.
#[derive(Clone, Copy, PartialEq, Eq, Structural, Debug)]
pub enum DecodeError {
    /// The text is not JSON, or its top level is not an object.
    MalformedPayload,
    /// The object has no string member `type`.
    MissingDiscriminator,
}

/// One decoded inbound frame, tagged by its discriminator.  Every member
/// beside the discriminator is an opaque JSON value forwarded verbatim;
/// a missing member stays absent.
#[derive(Debug)]
pub enum InboundMessage {
    RegisterWidgets {
        qa_id: Option<serde_json::Value>,
        qa_name: Option<serde_json::Value>,
        widgets: Option<serde_json::Value>,
    },
    WidgetUpdate {
        widget_id: Option<serde_json::Value>,
        changes: Option<serde_json::Value>,
    },
    UnregisterWidgets {
        qa_id: Option<serde_json::Value>,
    },
    Heartbeat,
    /// An unrecognized discriminator, carried for the caller's log.  Not a
    /// decode error: the frame was syntactically fine.
    Unknown {
        raw: String,
    },
}

/// The variant a discriminator selects.
pub open spec fn message_matches(d: Seq<char>, m: InboundMessage) -> bool {
    if d == "register-widgets"@ {
        m is RegisterWidgets
    } else if d == "widget-update"@ {
        m is WidgetUpdate
    } else if d == "unregister-widgets"@ {
        m is UnregisterWidgets
    } else if d == "heartbeat"@ {
        m is Heartbeat
    } else {
        m matches InboundMessage::Unknown { raw } && raw@ == d
    }
}

/// Builds the message that a discriminator selects, reading the sibling
/// members of known variants out of the frame verbatim.
pub fn classify(d: &String, frame: &serde_json::Value) -> (r: InboundMessage)
    ensures
        message_matches(d@, r),
{
    if str_eq(d.as_str(), "register-widgets") {
        InboundMessage::RegisterWidgets {
            qa_id: get_field(frame, "qaId"),
            qa_name: get_field(frame, "qaName"),
            widgets: get_field(frame, "widgets"),
        }
    } else if str_eq(d.as_str(), "widget-update") {
        InboundMessage::WidgetUpdate {
            widget_id: get_field(frame, "widgetId"),
            changes: get_field(frame, "changes"),
        }
    } else if str_eq(d.as_str(), "unregister-widgets") {
        InboundMessage::UnregisterWidgets { qa_id: get_field(frame, "qaId") }
    } else if str_eq(d.as_str(), "heartbeat") {
        InboundMessage::Heartbeat
    } else {
        InboundMessage::Unknown { raw: d.clone() }
    }
}

/// Decodes one text frame.
///
/// The text must parse as a JSON object; anything else is a malformed
/// payload.  The object's string member `type` selects the variant; its
/// absence, or a non-string value under it, is a missing discriminator.
/// An unrecognized discriminator is no error: it decodes to `Unknown`,
/// which the router then drops.
pub fn decode(text: &str) -> (r: Result<InboundMessage, DecodeError>)
    ensures
        r == Err::<InboundMessage, DecodeError>(DecodeError::MalformedPayload) <==> !parses_to_object(
            text@,
        ),
        r == Err::<InboundMessage, DecodeError>(DecodeError::MissingDiscriminator) <==> parses_to_object(
            text@,
        ) && disc_of(text@) is None,
        r matches Ok(m) ==> parses_to_object(text@),
        r matches Ok(m) ==> disc_of(text@) matches Some(d) && message_matches(d, m),
{
    match parse_frame(text) {
        None => Err(DecodeError::MalformedPayload),
        Some((frame, disc)) => match disc {
            None => Err(DecodeError::MissingDiscriminator),
            Some(d) => {
                let m = classify(&d, &frame);
                proof {
                    assert(message_matches(d@, m));
                }
                Ok(m)
            },
        },
    }
}

} // verus!
