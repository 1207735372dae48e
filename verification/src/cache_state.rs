//! The cache of a single connection-like resource (a request sender with its
//! driver task, or a QUIC connection) that is made on demand and remade when
//! it breaks.
//!
//! A readiness poll loops: when idle, it starts making the resource; when
//! making, it waits for the result (a failure returns to idle and is
//! reported); when ready, it checks that the resource is still usable and
//! either reports readiness or drops it and starts over. Only a ready,
//! unbroken resource is ever handed out.
use vstd::prelude::*;

verus! {

/// Phase of the cache.
pub enum CacheState<T> {
    /// Nothing cached, nothing being made.
    Idle,
    /// The resource is being made.
    Making,
    /// The resource is cached.
    Ready(T),
}

/// What the caller does next in a readiness poll.
#[derive(Clone, Copy, Debug, PartialEq, Eq, Structural)]
pub enum CacheStep {
    /// Wait until the maker is ready, then start making the resource.
    StartMaking,
    /// Poll the future that makes the resource.
    PollMaking,
    /// Check whether the cached resource is still usable.
    CheckCached,
}

/// The step of a readiness poll in phase `s`.
pub open spec fn spec_step<T>(s: CacheState<T>) -> CacheStep {
    match s {
        CacheState::Idle => CacheStep::StartMaking,
        CacheState::Making => CacheStep::PollMaking,
        CacheState::Ready(_) => CacheStep::CheckCached,
    }
}

/// The phase after the making future completes with `res`.
pub open spec fn spec_made<T, E>(res: Result<T, E>) -> CacheState<T> {
    match res {
        Ok(t) => CacheState::Ready(t),
        Err(_) => CacheState::Idle,
    }
}

impl<T> CacheState<T> {
    /// An empty cache.
    pub fn new() -> (r: Self)
        ensures
            r is Idle,
    {
        CacheState::Idle
    }

    /// The next step of a readiness poll.
    pub fn step(&self) -> (r: CacheStep)
        ensures
            r == spec_step(*self),
    {
        match self {
            CacheState::Idle => CacheStep::StartMaking,
            CacheState::Making => CacheStep::PollMaking,
            CacheState::Ready(_) => CacheStep::CheckCached,
        }
    }

    /// The maker was called; its future is now in flight.
    pub fn start_making(&mut self)
        requires
            *old(self) is Idle,
        ensures
            *final(self) is Making,
    {
        *self = CacheState::Making;
    }

    /// The making future completed: a made resource is cached and readiness
    /// is reported; a failure returns to idle and is reported.
    pub fn made<E>(&mut self, res: Result<T, E>) -> (r: Result<(), E>)
        requires
            *old(self) is Making,
        ensures
            *final(self) == spec_made(res),
            match res {
                Ok(_) => r is Ok,
                Err(e) => r == Err::<(), E>(e),
            },
    {
        match res {
            Ok(t) => {
                *self = CacheState::Ready(t);
                Ok(())
            },
            Err(e) => {
                *self = CacheState::Idle;
                Err(e)
            },
        }
    }

    /// The cached resource, when there is one.
    pub fn cached(&self) -> (r: Option<&T>)
        ensures
            match *self {
                CacheState::Ready(t) => r == Some(&t),
                _ => r is None,
            },
    {
        match self {
            CacheState::Ready(t) => Some(t),
            _ => None,
        }
    }

    /// Checks the cached resource: a broken one is dropped (the poll starts
    /// over) and `false` returned; a usable one stays and `true` is returned.
    pub fn keep_if_usable(&mut self, broken: bool) -> (r: bool)
        requires
            *old(self) is Ready,
        ensures
            r == !broken,
            broken ==> *final(self) is Idle,
            !broken ==> *final(self) == *old(self),
    {
        if broken {
            *self = CacheState::Idle;
            false
        } else {
            true
        }
    }
}

/// Readiness is reported only with a usable resource cached: after a
/// successful make, or after a check that found the cached one usable.
pub proof fn law_ready_only_when_cached<T, E>(res: Result<T, E>, s: CacheState<T>)
    ensures
        res is Ok ==> spec_made(res) is Ready,
        res is Err ==> spec_made(res) is Idle && spec_step(spec_made(res)) == CacheStep::StartMaking,
        s is Ready ==> spec_step(s) == CacheStep::CheckCached,
{
}

} // verus!
