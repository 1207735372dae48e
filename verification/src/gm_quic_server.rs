//! Server side of the gm-quic backend: the acceptor holds the listeners that
//! accept incoming QUIC connections.
use gm_quic::QuicListeners;
use std::sync::Arc;
use vstd::prelude::*;

verus! {

#[verifier::external_type_specification]
#[verifier::external_body]
pub struct ExQuicListeners(QuicListeners);

/// Acceptor for gm-quic based h3 connections, over shared listeners.
pub struct H3GmQuicAcceptor {
    listeners: Arc<QuicListeners>,
}

impl H3GmQuicAcceptor {
    /// The listeners that this acceptor accepts from.
    pub closed spec fn spec_listeners(&self) -> Arc<QuicListeners> {
        self.listeners
    }

    /// Creates an acceptor over the given listeners.
    pub fn new(listeners: Arc<QuicListeners>) -> (r: Self)
        ensures
            r.spec_listeners() == listeners,
    {
        Self { listeners }
    }

    /// The listeners that this acceptor accepts from.
    pub fn listeners(&self) -> (r: &QuicListeners)
        ensures
            *r == *self.spec_listeners(),
    {
        &self.listeners
    }

    /// A second handle to the same listeners.
    pub fn clone_acceptor(&self) -> (r: Self)
        ensures
            r.spec_listeners() == self.spec_listeners(),
    {
        Self { listeners: self.listeners.clone() }
    }
}

} // verus!
