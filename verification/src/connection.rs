//! The capability boundary to the underlying windowing protocol.
//!
//! The core never inspects the protocol's answers: every operation is a
//! fire-and-forget request. A connection is therefore specified by the
//! ordered sequence of requests that have been issued through it.

use vstd::prelude::*;

use crate::data_types::{Color, WinId};

verus! {

/// One request issued to the windowing protocol.
#[derive(Clone, Copy, Debug, PartialEq, Eq, Structural)]
pub enum ConnOp {
    /// Give protocol-level input focus to the window.
    FocusClient(WinId),
    /// Paint the window's border with the color.
    SetClientBorderColor(WinId, Color),
}

/// Capability interface over the windowing protocol, restricted to the two
/// operations the core needs. `requests` is the ordered history of requests
/// issued through the connection; each operation appends exactly one request
/// and observes nothing, so the caller never blocks on an acknowledgement.
pub trait WindowConnection: Sized {
    /// The requests issued through this connection so far, oldest first.
    spec fn requests(&self) -> Seq<ConnOp>;

    /// Request protocol-level input focus for the window `id`.
    fn focus_client(&mut self, id: WinId)
        ensures
            final(self).requests() == old(self).requests().push(ConnOp::FocusClient(id)),
    ;

    /// Request that the border of window `id` be painted with `color`.
    fn set_client_border_color(&mut self, id: WinId, color: Color)
        ensures
            final(self).requests() == old(self).requests().push(
                ConnOp::SetClientBorderColor(id, color),
            ),
    ;
}

/// A connection that keeps every request in memory instead of sending it
/// anywhere. It backs tests and lets an embedding forward the recorded
/// requests to a real protocol layer.
#[derive(Clone, Debug, PartialEq)]
pub struct RecordingConnection {
    log: Vec<ConnOp>,
}

impl RecordingConnection {
    /// A connection with an empty request history.
    pub fn new() -> (c: RecordingConnection)
        ensures
            c.requests() == Seq::<ConnOp>::empty(),
    {
        RecordingConnection { log: Vec::new() }
    }

    /// All requests issued so far, oldest first.
    pub fn issued(&self) -> (r: &Vec<ConnOp>)
        ensures
            r@ == self.requests(),
    {
        &self.log
    }

    /// The most recent request, if any request was issued at all.
    pub fn last_request(&self) -> (r: Option<ConnOp>)
        ensures
            match r {
                Some(op) => self.requests().len() > 0 && op == self.requests().last(),
                None => self.requests().len() == 0,
            },
    {
        if self.log.len() > 0 {
            Some(self.log[self.log.len() - 1])
        } else {
            None
        }
    }
}

impl WindowConnection for RecordingConnection {
    closed spec fn requests(&self) -> Seq<ConnOp> {
        self.log@
    }

    fn focus_client(&mut self, id: WinId) {
        self.log.push(ConnOp::FocusClient(id));
    }

    fn set_client_border_color(&mut self, id: WinId, color: Color) {
        self.log.push(ConnOp::SetClientBorderColor(id, color));
    }
}

} // verus!
