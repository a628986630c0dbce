//! Message router: a decoded inbound message from one client becomes at
//! most one application event; a heartbeat and an unrecognized
//! discriminator become none.

use vstd::prelude::*;

verus! {

use crate::codec::InboundMessage;

/// One event for the hosting application.  The widget events forward
/// their opaque JSON members verbatim; the lifecycle events carry plain
/// text.
#[derive(Debug)]
pub enum AppEvent {
    ServerStarted { bind_address: String, port: u16 },
    ServerStopped,
    ClientConnected { client_id: String, address: String },
    ClientDisconnected { client_id: String },
    RegisterWidgets {
        client_id: String,
        qa_id: Option<serde_json::Value>,
        qa_name: Option<serde_json::Value>,
        widgets: Option<serde_json::Value>,
    },
    WidgetUpdate {
        client_id: String,
        widget_id: Option<serde_json::Value>,
        changes: Option<serde_json::Value>,
    },
    UnregisterWidgets {
        client_id: String,
        qa_id: Option<serde_json::Value>,
    },
}

impl AppEvent {
    /// The name under which the hosting application receives this event.
    pub open spec fn spec_name(self) -> Seq<char> {
        match self {
            AppEvent::ServerStarted { .. } => "server-started"@,
            AppEvent::ServerStopped => "server-stopped"@,
            AppEvent::ClientConnected { .. } => "client-connected"@,
            AppEvent::ClientDisconnected { .. } => "client-disconnected"@,
            AppEvent::RegisterWidgets { .. } => "register-widgets"@,
            AppEvent::WidgetUpdate { .. } => "widget-update"@,
            AppEvent::UnregisterWidgets { .. } => "unregister-widgets"@,
        }
    }

    /// The event name, as the host's emitter wants it.
    pub fn name(&self) -> (r: String)
        ensures
            r@ == self.spec_name(),
    {
        match self {
            AppEvent::ServerStarted { .. } => "server-started".to_owned(),
            AppEvent::ServerStopped => "server-stopped".to_owned(),
            AppEvent::ClientConnected { .. } => "client-connected".to_owned(),
            AppEvent::ClientDisconnected { .. } => "client-disconnected".to_owned(),
            AppEvent::RegisterWidgets { .. } => "register-widgets".to_owned(),
            AppEvent::WidgetUpdate { .. } => "widget-update".to_owned(),
            AppEvent::UnregisterWidgets { .. } => "unregister-widgets".to_owned(),
        }
    }
}

/// Whether a frame with discriminator `d` makes the router emit an event:
/// exactly the three widget discriminators do; a heartbeat and anything
/// unrecognized do not.
pub open spec fn emits_event(d: Seq<char>) -> bool {
    d == "register-widgets"@ || d == "widget-update"@ || d == "unregister-widgets"@
}

/// The event a frame with discriminator `d` from `client_id` is routed to.
pub open spec fn routed_event_matches(d: Seq<char>, client_id: Seq<char>, ev: AppEvent) -> bool {
    if d == "register-widgets"@ {
        ev matches AppEvent::RegisterWidgets { client_id: c, .. } && c@ == client_id
    } else if d == "widget-update"@ {
        ev matches AppEvent::WidgetUpdate { client_id: c, .. } && c@ == client_id
    } else if d == "unregister-widgets"@ {
        ev matches AppEvent::UnregisterWidgets { client_id: c, .. } && c@ == client_id
    } else {
        false
    }
}

/// Routes one decoded message from `client_id`.
///
/// Each of the three widget variants emits exactly one event of the same
/// name, carrying the client identifier and every opaque member unchanged.
/// A heartbeat emits nothing and is not an error; an unknown discriminator
/// emits nothing either, left to the caller's log.
pub fn route(client_id: &str, m: InboundMessage) -> (r: Option<AppEvent>)
    ensures
        m is Heartbeat ==> r is None,
        m is Unknown ==> r is None,
        m matches InboundMessage::RegisterWidgets { qa_id, qa_name, widgets } ==> r matches Some(
            AppEvent::RegisterWidgets { client_id: c, qa_id: i, qa_name: n, widgets: w },
        ) && c@ == client_id@ && i == qa_id && n == qa_name && w == widgets,
        m matches InboundMessage::WidgetUpdate { widget_id, changes } ==> r matches Some(
            AppEvent::WidgetUpdate { client_id: c, widget_id: w, changes: ch },
        ) && c@ == client_id@ && w == widget_id && ch == changes,
        m matches InboundMessage::UnregisterWidgets { qa_id } ==> r matches Some(
            AppEvent::UnregisterWidgets { client_id: c, qa_id: i },
        ) && c@ == client_id@ && i == qa_id,
{
    match m {
        InboundMessage::RegisterWidgets { qa_id, qa_name, widgets } => Some(
            AppEvent::RegisterWidgets {
                client_id: client_id.to_owned(),
                qa_id,
                qa_name,
                widgets,
            },
        ),
        InboundMessage::WidgetUpdate { widget_id, changes } => Some(
            AppEvent::WidgetUpdate { client_id: client_id.to_owned(), widget_id, changes },
        ),
        InboundMessage::UnregisterWidgets { qa_id } => Some(
            AppEvent::UnregisterWidgets { client_id: client_id.to_owned(), qa_id },
        ),
        InboundMessage::Heartbeat => None,
        InboundMessage::Unknown { raw: _ } => None,
    }
}

} // verus!
