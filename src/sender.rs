//! Assembling a sender: the builder collects the collaborators one by one and
//! `build` checks that the required ones are all there.
use crate::channel::{Receiver, Sender};
use crate::event::{announcements_of, Notice};
use crate::machine::{initial, SenderLoop};
use crate::registry::Reporters;
use vstd::prelude::*;

verus! {

/// The required collaborator that a builder lacked.
#[derive(PartialEq, Eq, Structural, Clone, Copy, Debug)]
pub enum BuildError {
    MissingReporters,
    MissingSessionId,
    MissingSocket,
    MissingTx,
    MissingRx,
}

/// Collects what a sender needs: its own queue halves, an optional
/// supervisor handle of type `S`, the socket's write half of type `W`, the
/// reporter registry, the session id and whether this is a reconnect.
pub struct SenderBuilder<W, S> {
    tx: Option<Sender>,
    rx: Option<Receiver>,
    stage_tx: Option<S>,
    socket_tx: Option<W>,
    reporters: Option<Reporters>,
    session_id: Option<usize>,
    reconnect: bool,
}

/// A validated sender, ready to run.
pub struct SenderState<W> {
    reporters: Reporters,
    session_id: usize,
    socket: W,
    tx: Sender,
    rx: Receiver,
    reconnect: bool,
}

impl<W, S> SenderBuilder<W, S> {
    pub closed spec fn tx_slot(&self) -> Option<Sender> {
        self.tx
    }

    pub closed spec fn rx_slot(&self) -> Option<Receiver> {
        self.rx
    }

    pub closed spec fn stage_tx_slot(&self) -> Option<S> {
        self.stage_tx
    }

    pub closed spec fn socket_slot(&self) -> Option<W> {
        self.socket_tx
    }

    pub closed spec fn reporters_slot(&self) -> Option<Reporters> {
        self.reporters
    }

    pub closed spec fn session_id_slot(&self) -> Option<usize> {
        self.session_id
    }

    pub closed spec fn reconnect_flag(&self) -> bool {
        self.reconnect
    }

    /// The first required collaborator missing, checked in the order
    /// registry, session id, socket, transmit half, receive half.
    pub open spec fn first_missing(&self) -> Option<BuildError> {
        if self.reporters_slot() is None {
            Some(BuildError::MissingReporters)
        } else if self.session_id_slot() is None {
            Some(BuildError::MissingSessionId)
        } else if self.socket_slot() is None {
            Some(BuildError::MissingSocket)
        } else if self.tx_slot() is None {
            Some(BuildError::MissingTx)
        } else if self.rx_slot() is None {
            Some(BuildError::MissingRx)
        } else {
            None
        }
    }

    /// A builder with nothing set and `reconnect` false.
    pub fn new() -> (r: Self)
        ensures
            r.tx_slot() is None,
            r.rx_slot() is None,
            r.stage_tx_slot() is None,
            r.socket_slot() is None,
            r.reporters_slot() is None,
            r.session_id_slot() is None,
            !r.reconnect_flag(),
    {
        SenderBuilder {
            tx: None,
            rx: None,
            stage_tx: None,
            socket_tx: None,
            reporters: None,
            session_id: None,
            reconnect: false,
        }
    }

    /// Sets the transmit half of the sender's own queue.
    pub fn tx(self, tx: Sender) -> (r: Self)
        ensures
            r.tx_slot() == Some(tx),
            r.rx_slot() == self.rx_slot(),
            r.stage_tx_slot() == self.stage_tx_slot(),
            r.socket_slot() == self.socket_slot(),
            r.reporters_slot() == self.reporters_slot(),
            r.session_id_slot() == self.session_id_slot(),
            r.reconnect_flag() == self.reconnect_flag(),
    {
        SenderBuilder { tx: Some(tx), ..self }
    }

    /// Sets the receive half of the sender's own queue.
    pub fn rx(self, rx: Receiver) -> (r: Self)
        ensures
            r.tx_slot() == self.tx_slot(),
            r.rx_slot() == Some(rx),
            r.stage_tx_slot() == self.stage_tx_slot(),
            r.socket_slot() == self.socket_slot(),
            r.reporters_slot() == self.reporters_slot(),
            r.session_id_slot() == self.session_id_slot(),
            r.reconnect_flag() == self.reconnect_flag(),
    {
        SenderBuilder { rx: Some(rx), ..self }
    }

    /// Sets the supervisor's handle.
    pub fn stage_tx(self, stage_tx: S) -> (r: Self)
        ensures
            r.tx_slot() == self.tx_slot(),
            r.rx_slot() == self.rx_slot(),
            r.stage_tx_slot() == Some(stage_tx),
            r.socket_slot() == self.socket_slot(),
            r.reporters_slot() == self.reporters_slot(),
            r.session_id_slot() == self.session_id_slot(),
            r.reconnect_flag() == self.reconnect_flag(),
    {
        SenderBuilder { stage_tx: Some(stage_tx), ..self }
    }

    /// Sets the socket's write half.
    pub fn socket_tx(self, socket_tx: W) -> (r: Self)
        ensures
            r.tx_slot() == self.tx_slot(),
            r.rx_slot() == self.rx_slot(),
            r.stage_tx_slot() == self.stage_tx_slot(),
            r.socket_slot() == Some(socket_tx),
            r.reporters_slot() == self.reporters_slot(),
            r.session_id_slot() == self.session_id_slot(),
            r.reconnect_flag() == self.reconnect_flag(),
    {
        SenderBuilder { socket_tx: Some(socket_tx), ..self }
    }

    /// Sets the reporter registry.
    pub fn reporters(self, reporters: Reporters) -> (r: Self)
        ensures
            r.tx_slot() == self.tx_slot(),
            r.rx_slot() == self.rx_slot(),
            r.stage_tx_slot() == self.stage_tx_slot(),
            r.socket_slot() == self.socket_slot(),
            r.reporters_slot() == Some(reporters),
            r.session_id_slot() == self.session_id_slot(),
            r.reconnect_flag() == self.reconnect_flag(),
    {
        SenderBuilder { reporters: Some(reporters), ..self }
    }

    /// Sets the session id.
    pub fn session_id(self, session_id: usize) -> (r: Self)
        ensures
            r.tx_slot() == self.tx_slot(),
            r.rx_slot() == self.rx_slot(),
            r.stage_tx_slot() == self.stage_tx_slot(),
            r.socket_slot() == self.socket_slot(),
            r.reporters_slot() == self.reporters_slot(),
            r.session_id_slot() == Some(session_id),
            r.reconnect_flag() == self.reconnect_flag(),
    {
        SenderBuilder { session_id: Some(session_id), ..self }
    }

    /// Sets whether this sender replaces one of an existing session.
    pub fn reconnect(self, reconnect: bool) -> (r: Self)
        ensures
            r.tx_slot() == self.tx_slot(),
            r.rx_slot() == self.rx_slot(),
            r.stage_tx_slot() == self.stage_tx_slot(),
            r.socket_slot() == self.socket_slot(),
            r.reporters_slot() == self.reporters_slot(),
            r.session_id_slot() == self.session_id_slot(),
            r.reconnect_flag() == reconnect,
    {
        SenderBuilder { reconnect, ..self }
    }

    /// The runnable sender, or the first required collaborator that is missing.
    pub fn build(self) -> (r: Result<SenderState<W>, BuildError>)
        ensures
            match r {
                Ok(st) => {
                    &&& self.first_missing() is None
                    &&& Some(st.reporters_spec()) == self.reporters_slot()
                    &&& Some(st.session_id_spec()) == self.session_id_slot()
                    &&& Some(st.socket_spec()) == self.socket_slot()
                    &&& Some(st.tx_spec()) == self.tx_slot()
                    &&& Some(st.rx_spec()) == self.rx_slot()
                    &&& st.reconnect_spec() == self.reconnect_flag()
                },
                Err(e) => self.first_missing() == Some(e),
            },
    {
        let reporters = match self.reporters {
            Some(v) => v,
            None => return Err(BuildError::MissingReporters),
        };
        let session_id = match self.session_id {
            Some(v) => v,
            None => return Err(BuildError::MissingSessionId),
        };
        let socket = match self.socket_tx {
            Some(v) => v,
            None => return Err(BuildError::MissingSocket),
        };
        let tx = match self.tx {
            Some(v) => v,
            None => return Err(BuildError::MissingTx),
        };
        let rx = match self.rx {
            Some(v) => v,
            None => return Err(BuildError::MissingRx),
        };
        Ok(SenderState { reporters, session_id, socket, tx, rx, reconnect: self.reconnect })
    }
}

impl<W> SenderState<W> {
    pub closed spec fn reporters_spec(&self) -> Reporters {
        self.reporters
    }

    pub closed spec fn session_id_spec(&self) -> usize {
        self.session_id
    }

    pub closed spec fn socket_spec(&self) -> W {
        self.socket
    }

    pub closed spec fn tx_spec(&self) -> Sender {
        self.tx
    }

    pub closed spec fn rx_spec(&self) -> Receiver {
        self.rx
    }

    pub closed spec fn reconnect_spec(&self) -> bool {
        self.reconnect
    }

    pub fn session_id(&self) -> (r: usize)
        ensures
            r == self.session_id_spec(),
    {
        self.session_id
    }

    pub fn reporters(&self) -> (r: &Reporters)
        ensures
            *r == self.reporters_spec(),
    {
        &self.reporters
    }

    pub fn tx(&self) -> (r: &Sender)
        ensures
            *r == self.tx_spec(),
    {
        &self.tx
    }

    /// The announcements that this sender owes on start: on a reconnect,
    /// every reporter of the registry learns that this sender now serves the
    /// session; on a first connection, nobody does.
    pub fn announcements(&self) -> (r: Vec<Notice>)
        ensures
            r@ == (if self.reconnect_spec() {
                announcements_of(self.reporters_spec().ids(), self.session_id_spec())
            } else {
                Seq::empty()
            }),
    {
        let mut out: Vec<Notice> = Vec::new();
        if !self.reconnect {
            return out;
        }
        let ids = self.reporters.ids_vec();
        let mut k: usize = 0;
        while k < ids.len()
            invariant
                k <= ids@.len(),
                out@ == announcements_of(ids@.take(k as int), self.session_id),
            decreases ids@.len() - k,
        {
            out.push(Notice::New { reporter_id: ids[k], session_id: self.session_id });
            assert(ids@.take(k as int + 1) =~= ids@.take(k as int).push(ids@[k as int]));
            k = k + 1;
        }
        assert(ids@.take(k as int) =~= ids@);
        out
    }

    /// Takes the sender apart to run it: its run loop in the initial state,
    /// its registry, socket and queue halves.
    pub fn into_parts(self) -> (r: (SenderLoop, Reporters, W, Sender, Receiver))
        ensures
            r.0@ == initial(self.session_id_spec(), self.reporters_spec().ids()),
            r.0@.reporters.no_duplicates(),
            r.1 == self.reporters_spec(),
            r.2 == self.socket_spec(),
            r.3 == self.tx_spec(),
            r.4 == self.rx_spec(),
    {
        let ids = self.reporters.ids_vec();
        let machine = SenderLoop::new(self.session_id, ids);
        (machine, self.reporters, self.socket, self.tx, self.rx)
    }
}

} // verus!
