//! The bridge's stated laws, proved from the contracts its public
//! functions carry.  Each law speaks of every state or input its premises
//! admit, not of chosen values.

use vstd::prelude::*;

verus! {

use vstd::map::*;
use crate::conn::{next_conn_state, ConnEvent, ConnState, Frame};
use crate::registry::{lemma_entries_map_contains, lemma_entries_map_index, Entry};
use crate::router::AppEvent;
use crate::server::{start_post, stop_post, WebSocketServer, WsError};

/// A start, a completed stop, and a second start with the same port all
/// succeed.  Stop leaves the run flag clear, so nothing of the first
/// listener lingers in the bridge's state to refuse the second start.
pub proof fn lemma_start_stop_start(
    s0: WebSocketServer,
    s1: WebSocketServer,
    s2: WebSocketServer,
    s3: WebSocketServer,
    port: u16,
    bind_address: Seq<char>,
    r1: Result<AppEvent, WsError>,
    r2: Result<Vec<Entry>, WsError>,
    r3: Result<AppEvent, WsError>,
)
    requires
        !s0.spec_running(),
        start_post(s0, s1, port, bind_address, true, r1),
        stop_post(s1, s2, r2),
        start_post(s2, s3, port, bind_address, true, r3),
    ensures
        r1 is Ok,
        r2 is Ok,
        r3 is Ok,
        s3.spec_running(),
{
}

/// A second start without an intervening stop is refused as already
/// running, whatever its arguments, and changes nothing: the state in
/// which the host opens a listener is not reached twice.
pub proof fn lemma_double_start(
    s0: WebSocketServer,
    s1: WebSocketServer,
    s2: WebSocketServer,
    port1: u16,
    bind_address1: Seq<char>,
    port2: u16,
    bind_address2: Seq<char>,
    bind_ok2: bool,
    r1: Result<AppEvent, WsError>,
    r2: Result<AppEvent, WsError>,
)
    requires
        !s0.spec_running(),
        start_post(s0, s1, port1, bind_address1, true, r1),
        start_post(s1, s2, port2, bind_address2, bind_ok2, r2),
    ensures
        r1 is Ok,
        r2 == Err::<AppEvent, WsError>(WsError::AlreadyRunning),
        s2 == s1,
{
}

/// A text frame never moves an open connection out of Open, whatever the
/// text holds: a decode error is recoverable, and the next frame on the
/// same connection is handled from the same state as if the bad one had
/// not come.
pub proof fn lemma_text_frame_keeps_open(f: Frame)
    requires
        f is Text,
    ensures
        next_conn_state(ConnState::Open, ConnEvent::FrameReceived(f)) == ConnState::Open,
{
}

/// An identifier that was never registered is absent from the empty
/// client map, and one removed on disconnect is absent from the map that
/// remains; in either state `send_to_client` reports it as not found.
pub proof fn lemma_absent_after_remove(m: Map<Seq<char>, u64>, id: Seq<char>)
    ensures
        !m.remove(id).dom().contains(id),
        !Map::<Seq<char>, u64>::empty().dom().contains(id),
{
}

/// Every registered connection stands in every broadcast plan with its
/// own handle: the plan is drawn from the registry alone, so one broken
/// target cannot push another out of the plan.
pub proof fn lemma_broadcast_reaches_all(s: WebSocketServer, targets: Seq<Entry>, id: Seq<char>)
    requires
        s.wf(),
        targets == s.spec_entries(),
        s.spec_clients().dom().contains(id),
    ensures
        exists|i: int|
            0 <= i < targets.len() && targets[i].id@ == id && targets[i].handle
                == s.spec_clients()[id],
{
    s.lemma_wf_entries();
    lemma_entries_map_contains(targets, id);
    let i = choose|i: int| 0 <= i < targets.len() && targets[i].id@ == id;
    lemma_entries_map_index(targets, i);
}

/// One connection registered in an empty registry is exactly one entry,
/// and removing it on disconnect leaves the registry empty again.
pub proof fn lemma_connect_disconnect(m: Map<Seq<char>, u64>, id: Seq<char>, handle: u64)
    requires
        m == Map::<Seq<char>, u64>::empty(),
    ensures
        m.insert(id, handle).dom().len() == 1,
        m.insert(id, handle).remove(id) == m,
{
    assert(m.insert(id, handle).dom() =~= Set::<Seq<char>>::empty().insert(id));
    assert_maps_equal!(m.insert(id, handle).remove(id), m);
}

} // verus!
