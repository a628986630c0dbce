//! Server lifecycle controller: the run flag, the connection registry, and
//! the decisions behind every outward command.  The host owns the
//! listening socket and the connection tasks; it asks here before it acts
//! and reports each outside outcome back.

use vstd::prelude::*;

verus! {

use crate::json::value_to_text;
use crate::registry::{entries_map, ConnectionRegistry, Entry};
use crate::router::AppEvent;

/// What the mutating commands report to their caller.
#[derive(Clone, Copy, PartialEq, Eq, Structural, Debug)]
pub enum WsError {
    /// Start while the run flag is already set.
    AlreadyRunning,
    /// Stop while it is already clear.
    NotRunning,
    /// The listener could not be bound; the server stays stopped.
    BindError,
    /// A send to an identifier that is not registered.
    ClientNotFound,
    /// The transport write for a targeted send failed.
    SendError,
    /// A broadcast reached some clients and failed for at least one.
    PartialFailure,
}

/// A planned write of one text frame through one registered handle.  The
/// host performs the write and hands its outcome to `complete_send`.
#[derive(Debug)]
pub struct SendPlan {
    pub handle: u64,
    pub text: String,
}

/// A planned broadcast: one serialized text, and every registered
/// connection as its targets.  A write failure at one target must not
/// keep the host from the rest; it only counts toward `broadcast_report`.
#[derive(Debug)]
pub struct BroadcastPlan {
    pub targets: Vec<Entry>,
    pub text: String,
}

/// The run flag and the registry, initialized stopped and empty.
pub struct WebSocketServer {
    running: bool,
    registry: ConnectionRegistry,
}

/// Exactly the state change and result of `start`.
pub open spec fn start_post(
    pre: WebSocketServer,
    post: WebSocketServer,
    port: u16,
    bind_address: Seq<char>,
    bind_ok: bool,
    r: Result<AppEvent, WsError>,
) -> bool {
    if pre.spec_running() {
        post == pre && r == Err::<AppEvent, WsError>(WsError::AlreadyRunning)
    } else if !bind_ok {
        post == pre && r == Err::<AppEvent, WsError>(WsError::BindError)
    } else {
        post.spec_running() && post.spec_clients() == pre.spec_clients() && post.spec_entries()
            == pre.spec_entries() && (r matches Ok(ev) && ev matches AppEvent::ServerStarted {
            bind_address: a,
            port: p,
        } && a@ == bind_address && p == port)
    }
}

/// Exactly the state change and result of `stop`.
pub open spec fn stop_post(
    pre: WebSocketServer,
    post: WebSocketServer,
    r: Result<Vec<Entry>, WsError>,
) -> bool {
    if !pre.spec_running() {
        post == pre && r == Err::<Vec<Entry>, WsError>(WsError::NotRunning)
    } else {
        !post.spec_running() && post.spec_clients() == Map::<Seq<char>, u64>::empty()
            && post.spec_entries().len() == 0 && (r matches Ok(v) && v@ == pre.spec_entries()
            && entries_map(v@) == pre.spec_clients())
    }
}

impl WebSocketServer {
    /// The run flag.
    pub closed spec fn spec_running(self) -> bool {
        self.running
    }

    /// The registry as a map from client identifier to handle token.
    pub closed spec fn spec_clients(self) -> Map<Seq<char>, u64> {
        self.registry@
    }

    /// The registry's entries in insertion order.
    pub closed spec fn spec_entries(self) -> Seq<Entry> {
        self.registry.entries_seq()
    }

    /// The registry's identifiers are pairwise distinct.
    pub closed spec fn wf(self) -> bool {
        self.registry.wf()
    }

    /// The registry entries behind a well-formed server carry pairwise
    /// distinct identifiers, and their map is the client map.
    pub proof fn lemma_wf_entries(self)
        requires
            self.wf(),
        ensures
            crate::registry::distinct_ids(self.spec_entries()),
            entries_map(self.spec_entries()) == self.spec_clients(),
    {
        self.registry.lemma_wf_distinct();
        self.registry.lemma_view_is_entries();
    }

    /// A stopped server with no registered connections.
    pub fn new() -> (r: WebSocketServer)
        ensures
            r.wf(),
            !r.spec_running(),
            r.spec_clients() == Map::<Seq<char>, u64>::empty(),
            r.spec_entries().len() == 0,
    {
        WebSocketServer { running: false, registry: ConnectionRegistry::new() }
    }

    /// The run flag, read by the host's accept loop each iteration.
    pub fn is_running(&self) -> (r: bool)
        ensures
            r == self.spec_running(),
    {
        self.running
    }

    /// Start: refused while running; a failed bind leaves the server
    /// stopped; otherwise the run flag is set and the started event owed
    /// to the host carries the bound address.
    ///
    /// The host attempts the bind only when `is_running` is false and
    /// reports the outcome in `bind_ok`; with the flag set the argument is
    /// ignored and no second listener is opened.
    pub fn start(&mut self, port: u16, bind_address: String, bind_ok: bool) -> (r: Result<
        AppEvent,
        WsError,
    >)
        requires
            old(self).wf(),
        ensures
            final(self).wf(),
            start_post(*old(self), *final(self), port, bind_address@, bind_ok, r),
    {
        if self.running {
            Err(WsError::AlreadyRunning)
        } else if !bind_ok {
            Err(WsError::BindError)
        } else {
            self.running = true;
            Ok(AppEvent::ServerStarted { bind_address, port })
        }
    }

    /// Stop: refused while stopped; otherwise the run flag is cleared, the
    /// registry is drained, and every drained entry is returned so the
    /// host closes its handle.  The host's accept loop exits at its next
    /// iteration check; in-flight handlers finish on their own.
    pub fn stop(&mut self) -> (r: Result<Vec<Entry>, WsError>)
        requires
            old(self).wf(),
        ensures
            final(self).wf(),
            stop_post(*old(self), *final(self), r),
    {
        proof {
            self.registry.lemma_view_is_entries();
        }
        if !self.running {
            Err(WsError::NotRunning)
        } else {
            self.running = false;
            Ok(self.registry.drain())
        }
    }

    /// Registers a connection under its identifier — last write wins — and
    /// hands back the client-connected event owed to the host.
    pub fn client_connected(&mut self, client_id: String, address: String, handle: u64) -> (ev:
        AppEvent)
        requires
            old(self).wf(),
        ensures
            final(self).wf(),
            final(self).spec_running() == old(self).spec_running(),
            final(self).spec_clients() == old(self).spec_clients().insert(client_id@, handle),
            ev matches AppEvent::ClientConnected { client_id: c, address: a } && c@ == client_id@
                && a@ == address@,
    {
        self.registry.insert(client_id.clone(), handle);
        AppEvent::ClientConnected { client_id, address }
    }

    /// Unregisters a connection — a no-op when it never was, or was
    /// already removed — and hands back the client-disconnected event.
    pub fn client_disconnected(&mut self, client_id: &str) -> (ev: AppEvent)
        requires
            old(self).wf(),
        ensures
            final(self).wf(),
            final(self).spec_running() == old(self).spec_running(),
            final(self).spec_clients() == old(self).spec_clients().remove(client_id@),
            ev matches AppEvent::ClientDisconnected { client_id: c } && c@ == client_id@,
    {
        self.registry.remove(client_id);
        AppEvent::ClientDisconnected { client_id: client_id.to_owned() }
    }

    /// Plans a targeted send: the payload's JSON text through the handle
    /// registered under `client_id`.  A plan is owed exactly when the
    /// identifier is registered — serializing a JSON value cannot fail —
    /// and not found is returned exactly when it is not.
    pub fn send_to_client(&self, client_id: &str, payload: &serde_json::Value) -> (r: Result<
        SendPlan,
        WsError,
    >)
        requires
            self.wf(),
        ensures
            r is Ok <==> self.spec_clients().dom().contains(client_id@),
            r matches Ok(p) ==> p.handle == self.spec_clients()[client_id@],
            r is Err ==> r == Err::<SendPlan, WsError>(WsError::ClientNotFound),
    {
        match self.registry.get(client_id) {
            None => Err(WsError::ClientNotFound),
            Some(handle) => match value_to_text(payload) {
                Some(text) => Ok(SendPlan { handle, text }),
                None => Err(WsError::SendError),
            },
        }
    }

    /// The result of the write the host performed for a planned send.
    pub fn complete_send(write_ok: bool) -> (r: Result<(), WsError>)
        ensures
            write_ok <==> r is Ok,
            !write_ok ==> r == Err::<(), WsError>(WsError::SendError),
    {
        if write_ok {
            Ok(())
        } else {
            Err(WsError::SendError)
        }
    }

    /// Plans a broadcast: the payload serialized once, and every
    /// registered connection as a target.  A plan is always owed:
    /// serializing a JSON value cannot fail.
    pub fn broadcast(&self, payload: &serde_json::Value) -> (r: Result<BroadcastPlan, WsError>)
        requires
            self.wf(),
        ensures
            r is Ok,
            r matches Ok(p) ==> p.targets@ == self.spec_entries() && entries_map(p.targets@)
                == self.spec_clients(),
    {
        proof {
            self.registry.lemma_view_is_entries();
        }
        match value_to_text(payload) {
            None => Err(WsError::SendError),
            Some(text) => Ok(BroadcastPlan { targets: self.registry.entries_copy(), text }),
        }
    }

    /// A broadcast's report from its failure count: all targets were
    /// attempted; any failure makes the whole call a partial failure.
    pub fn broadcast_report(failures: usize) -> (r: Result<(), WsError>)
        ensures
            failures == 0 <==> r is Ok,
            failures > 0 ==> r == Err::<(), WsError>(WsError::PartialFailure),
    {
        if failures == 0 {
            Ok(())
        } else {
            Err(WsError::PartialFailure)
        }
    }

    /// Plans the solicitation of one peer's re-registration: the fixed
    /// request-widgets frame to that peer.
    pub fn request_widget_registration(&self, client_id: &str) -> (r: Result<SendPlan, WsError>)
        requires
            self.wf(),
        ensures
            r matches Ok(p) ==> self.spec_clients().dom().contains(client_id@) && p.handle
                == self.spec_clients()[client_id@] && p.text@ == request_widgets_text(),
            r == Err::<SendPlan, WsError>(WsError::ClientNotFound) <==> !self.spec_clients().dom()
                .contains(client_id@),
            r is Ok <==> self.spec_clients().dom().contains(client_id@),
    {
        match self.registry.get(client_id) {
            None => Err(WsError::ClientNotFound),
            Some(handle) => Ok(SendPlan { handle, text: request_widgets_frame() }),
        }
    }

    /// Plans the solicitation of every peer's re-registration: the fixed
    /// request-widgets frame to all registered connections.
    pub fn request_all_widgets(&self) -> (r: BroadcastPlan)
        requires
            self.wf(),
        ensures
            r.targets@ == self.spec_entries(),
            entries_map(r.targets@) == self.spec_clients(),
            r.text@ == request_widgets_text(),
    {
        proof {
            self.registry.lemma_view_is_entries();
        }
        BroadcastPlan { targets: self.registry.entries_copy(), text: request_widgets_frame() }
    }

    /// The registered identifiers at the moment of the call, one per
    /// connection.
    pub fn get_connected_clients(&self) -> (r: Vec<String>)
        requires
            self.wf(),
        ensures
            r@.len() == self.spec_entries().len(),
            r@.len() == self.spec_clients().dom().len(),
            forall|i: int| 0 <= i < r@.len() ==> r@[i]@ == self.spec_entries()[i].id@,
            forall|i: int| 0 <= i < r@.len() ==> self.spec_clients().dom().contains(r@[i]@),
            forall|id: Seq<char>|
                self.spec_clients().dom().contains(id) ==> exists|i: int|
                    0 <= i < r@.len() && r@[i]@ == id,
    {
        proof {
            self.registry.lemma_dom_len();
        }
        self.registry.snapshot()
    }
}

/// The fixed frame with which the bridge solicits re-registration.
pub open spec fn request_widgets_text() -> Seq<char> {
    "{\"type\":\"request-widgets\",\"message\":\"Please send your widget definitions\"}"@
}

/// The request-widgets frame as owned text.
pub fn request_widgets_frame() -> (r: String)
    ensures
        r@ == request_widgets_text(),
{
    "{\"type\":\"request-widgets\",\"message\":\"Please send your widget definitions\"}".to_owned()
}

/// The identifier a connection gets, derived from its peer address.
pub fn client_id_for(address: &str) -> (r: String)
    ensures
        r@ == "client_"@ + address@,
{
    let prefix: String = "client_".to_owned();
    prefix.concat(address)
}

} // verus!
