//! The per-connection dispatch-loop decisions: how one received event is
//! classified, what the loop does next, and the bounded connect-retry
//! policy.  The unverified transport drives these functions: it performs
//! the reads, sends and sleeps they call for.

use vstd::prelude::*;
use crate::protocol::{handle_read_server, spec_client_state, spec_server_outcome};
use crate::handlers::handle_read;
use crate::state::GameState;
use crate::wire::{spec_error_wire, spec_ok_wire};

verus! {

/// One outcome of a transport read.
pub enum RecvEvent {
    /// The peer sent these bytes, decoded to text.
    Data(String),
    /// The peer closed the connection.
    Closed,
    /// The read failed.
    Failed,
}

/// What the server's loop does after one event.
pub enum ServerAction {
    /// Send this reply on the same connection and keep reading.
    Reply(String),
    /// Leave the loop without a fault.
    Stop,
}

/// What the client's loop does after one event.
pub enum ClientAction {
    /// Keep reading; the client path never acknowledges.
    Continue,
    /// Leave the loop without a fault.
    Stop,
}

/// Classify one transport read: a read of zero bytes is the peer's
/// close, anything else carries data.
pub fn classify_read(n: usize, data: String) -> (ev: RecvEvent)
    ensures
        n == 0 <==> ev is Closed,
        n != 0 ==> (ev matches RecvEvent::Data(d) && d == data),
{
    if n == 0 {
        RecvEvent::Closed
    } else {
        RecvEvent::Data(data)
    }
}

/// One turn of the server's dispatch loop: data is decoded, applied and
/// acknowledged; a closed or failed connection stops the loop with the
/// world state untouched.
pub fn server_step(game: &mut GameState, ev: &RecvEvent) -> (a: ServerAction)
    ensures
        !(ev is Data) ==> a is Stop && final(game)@ == old(game)@,
        ev matches RecvEvent::Data(m) ==> (a matches ServerAction::Reply(r) && final(game)@
            == spec_server_outcome(old(game)@, m@).0 && r@ == spec_server_outcome(
            old(game)@,
            m@,
        ).1),
        a matches ServerAction::Reply(r) ==> r@ == spec_ok_wire() || r@ == spec_error_wire(),
{
    match ev {
        RecvEvent::Data(message) => {
            let resp = handle_read_server(message.as_str(), game);
            ServerAction::Reply(resp)
        }
        RecvEvent::Closed => ServerAction::Stop,
        RecvEvent::Failed => ServerAction::Stop,
    }
}

/// One turn of the client's dispatch loop: data runs the state handlers
/// with no acknowledgment; a closed or failed connection stops the loop
/// with the shadow untouched.
pub fn client_step(game: &mut GameState, ev: &RecvEvent) -> (a: ClientAction)
    ensures
        !(ev is Data) ==> a is Stop && final(game)@ == old(game)@,
        ev matches RecvEvent::Data(m) ==> (a is Continue && final(game)@ == spec_client_state(
            old(game)@,
            m@,
        )),
{
    match ev {
        RecvEvent::Data(message) => {
            handle_read::handle_read_msg(message.as_str(), game);
            ClientAction::Continue
        }
        RecvEvent::Closed => ClientAction::Stop,
        RecvEvent::Failed => ClientAction::Stop,
    }
}

/// The connect-retry policy: how many attempts may be made and how long
/// to wait between them.
#[derive(Clone, Copy, PartialEq, Eq, Structural, Debug)]
pub struct RetryPolicy {
    pub max_attempts: u32,
    pub delay_ms: u64,
}

impl RetryPolicy {
    /// The policy the client connects with: five attempts, half a
    /// second apart.
    pub fn standard() -> (p: RetryPolicy)
        ensures
            p.max_attempts == 5,
            p.delay_ms == 500,
    {
        RetryPolicy { max_attempts: 5, delay_ms: 500 }
    }

    /// Whether another attempt may be made after this many failures.
    pub fn should_retry(&self, failures: u32) -> (r: bool)
        ensures
            r == (failures < self.max_attempts),
    {
        failures < self.max_attempts
    }
}

} // verus!
