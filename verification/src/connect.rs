//! Client connection establishment: how a host is resolved, and how the
//! resolved addresses are tried in order.
//!
//! Addresses are tried one after the other, and the first one that connects
//! (its handshake included) is used. Any failure at an address, whether the
//! connection could not be started or its handshake failed, moves on to the
//! next one. When every address failed, the error of the last one is
//! reported; when there was no address at all, the caller reports "address
//! not available".
use vstd::prelude::*;

verus! {

/// How a URI's host is turned into addresses.
#[derive(Clone, Copy, Debug, PartialEq, Eq, Structural)]
pub enum ResolvePlan {
    /// The URI has no authority: an invalid-input error.
    Reject,
    /// The authority is a socket address: use it as the only address.
    UseAddress,
    /// The authority is a host name: look it up.
    Lookup,
}

/// The plan for a URI with (or without) an authority that does (or does
/// not) read as a socket address.
pub open spec fn spec_resolve_plan(has_authority: bool, is_socket_address: bool) -> ResolvePlan {
    if !has_authority {
        ResolvePlan::Reject
    } else if is_socket_address {
        ResolvePlan::UseAddress
    } else {
        ResolvePlan::Lookup
    }
}

/// Decides how a URI's host is resolved.
pub fn resolve_plan(has_authority: bool, is_socket_address: bool) -> (r: ResolvePlan)
    ensures
        r == spec_resolve_plan(has_authority, is_socket_address),
{
    if !has_authority {
        ResolvePlan::Reject
    } else if is_socket_address {
        ResolvePlan::UseAddress
    } else {
        ResolvePlan::Lookup
    }
}

/// What trying one address gave.
#[derive(Debug)]
pub enum AttemptOutcome<E> {
    /// A connection was established (its handshake completed).
    Connected,
    /// The address failed; the next one may work.
    Failed(E),
}

/// What the caller does after one address was tried.
#[derive(Clone, Copy, Debug, PartialEq, Eq, Structural)]
pub enum AttemptStep {
    /// Return the connection.
    ReturnConnected,
    /// Try the next address.
    NextAddress,
}

/// The addresses tried so far: the error of the last one that failed.
pub struct AddressAttempts<E> {
    last_error: Option<E>,
}

impl<E> AddressAttempts<E> {
    /// The error of the last address that failed, if any did.
    pub closed spec fn spec_last_error(&self) -> Option<E> {
        self.last_error
    }

    /// Nothing tried yet.
    pub fn new() -> (r: Self)
        ensures
            r.spec_last_error() is None,
    {
        AddressAttempts { last_error: None }
    }

    /// Records what trying one address gave and decides the next step.
    pub fn on_outcome(&mut self, o: AttemptOutcome<E>) -> (r: AttemptStep)
        ensures
            match o {
                AttemptOutcome::Connected => r is ReturnConnected && final(self).spec_last_error()
                    == old(self).spec_last_error(),
                AttemptOutcome::Failed(e) => r is NextAddress && final(self).spec_last_error()
                    == Some(e),
            },
    {
        match o {
            AttemptOutcome::Connected => AttemptStep::ReturnConnected,
            AttemptOutcome::Failed(e) => {
                self.last_error = Some(e);
                AttemptStep::NextAddress
            },
        }
    }

    /// Every address was tried: the error of the last one, or `None` when
    /// there was no address (the caller reports "address not available").
    pub fn exhausted(self) -> (r: Option<E>)
        ensures
            r == self.spec_last_error(),
    {
        self.last_error
    }
}

/// The result of trying addresses whose outcomes are `os`, in order: the
/// index of the first that connected, or else the error of the last one
/// (none when there was no address).
pub open spec fn spec_try_addresses<E>(os: Seq<AttemptOutcome<E>>) -> Result<int, Option<E>>
    decreases os.len(),
{
    if os.len() == 0 {
        Err(None)
    } else {
        match spec_try_addresses(os.drop_last()) {
            Ok(i) => Ok(i),
            Err(_) => match os.last() {
                AttemptOutcome::Connected => Ok(os.len() - 1),
                AttemptOutcome::Failed(e) => Err(Some(e)),
            },
        }
    }
}

/// Addresses that fail, whatever the failure, are passed over: when the
/// first `fails.len()` addresses fail and the next one connects, that one is
/// used, whatever the later ones would do.
pub proof fn law_failover<E>(fails: Seq<E>, rest: Seq<AttemptOutcome<E>>)
    ensures
        spec_try_addresses(
            fails.map_values(|e: E| AttemptOutcome::Failed(e)).push(AttemptOutcome::Connected)
                + rest,
        ) == Ok::<int, Option<E>>(fails.len() as int),
    decreases rest.len(),
{
    let head = fails.map_values(|e: E| AttemptOutcome::Failed(e)).push(AttemptOutcome::Connected);
    if rest.len() == 0 {
        assert(head + rest =~= head);
        lemma_all_failed(fails);
        assert(head.drop_last() =~= fails.map_values(|e: E| AttemptOutcome::Failed(e)));
    } else {
        let os = head + rest;
        law_failover(fails, rest.drop_last());
        assert(os.drop_last() =~= head + rest.drop_last());
    }
}

proof fn lemma_all_failed<E>(fails: Seq<E>)
    ensures
        spec_try_addresses(fails.map_values(|e: E| AttemptOutcome::Failed(e))) is Err,
    decreases fails.len(),
{
    let os = fails.map_values(|e: E| AttemptOutcome::Failed(e));
    if fails.len() > 0 {
        lemma_all_failed(fails.drop_last());
        assert(os.drop_last() =~= fails.drop_last().map_values(|e: E| AttemptOutcome::Failed(e)));
    }
}

/// The error reported after the given failures, one per address in order:
/// the last one, or none when there were no addresses.
pub open spec fn spec_last_failure<E>(failures: Seq<E>) -> Option<E> {
    if failures.len() == 0 {
        None
    } else {
        Some(failures.last())
    }
}

/// Trying addresses that all fail reports the failure of the last one.
pub proof fn law_last_failure_reported<E>(failures: Seq<E>, e: E)
    ensures
        spec_last_failure(failures.push(e)) == Some(e),
        spec_last_failure(Seq::<E>::empty()) is None,
{
}

} // verus!
