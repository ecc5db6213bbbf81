//! The client: one descriptor and two transport slots, one for the blocking
//! and one for the non-blocking kind, each filled on first use and kept.
//!
//! The client opens no transport itself. A call asks it what to do next; when
//! the answer is to connect, the caller opens a transport and publishes it,
//! and runs the statement on the session that the client then names.

use vstd::prelude::*;
use once_cell::sync::OnceCell;
use crate::descriptor::{parse_text, Descriptor, DescriptorView, DsnError, DsnErrorView};
use crate::info::{resolve, resolved_view, WsInfo};

verus! {

/// The thread-safe cell of the `once_cell` crate that is written at most
/// once. It is opaque here: what it holds is spoken of through `published`.
#[verifier::external_type_specification]
#[verifier::external_body]
#[verifier::reject_recursive_types(T)]
pub struct ExOnceCell<T>(OnceCell<T>);

/// The sessions that a slot ever holds: none if nothing is ever published in
/// it, else the one that is published first, which it holds from then on.
pub uninterp spec fn published(slot: OnceCell<u64>) -> Set<u64>;

/// `once_cell::sync::OnceCell::new`: an empty slot.
#[verifier::external_body]
fn slot_new() -> (slot: OnceCell<u64>) {
    OnceCell::new()
}

/// `once_cell::sync::OnceCell::get`. Trusted: what it returns, if anything,
/// is the one session of the slot.
#[verifier::external_body]
fn slot_get(slot: &OnceCell<u64>) -> (held: Option<u64>)
    ensures
        held matches Some(session) ==> published(*slot) == set![session],
{
    slot.get().copied()
}

/// `once_cell::sync::OnceCell::get_or_init` with a function that returns
/// `candidate`. Trusted: it returns the one session of the slot, which is
/// `candidate` only if the slot was empty.
#[verifier::external_body]
fn slot_get_or_init(slot: &OnceCell<u64>, candidate: u64) -> (held: u64)
    ensures
        published(*slot) == set![held],
{
    *slot.get_or_init(|| candidate)
}

/// What a call on the client does next.
#[derive(Debug, Clone, Copy, PartialEq, Eq, Structural)]
pub enum Step {
    /// Run the statement on this session.
    Use(u64),
    /// Open a transport, publish it, and run the statement on the session
    /// that publishing names.
    Connect,
}

impl Step {
    /// The step for what a slot was found to hold: use the session that it
    /// holds, connect where it holds none.
    pub fn of(held: Option<u64>) -> (step: Step)
        ensures
            step == match held {
                Some(session) => Step::Use(session),
                None => Step::Connect,
            },
    {
        match held {
            Some(session) => Step::Use(session),
            None => Step::Connect,
        }
    }
}

/// A client of one database: its descriptor and its transport slots.
#[derive(Debug)]
pub struct Ws {
    dsn: Descriptor,
    async_client: OnceCell<u64>,
    sync_client: OnceCell<u64>,
}

/// The outcome of making a client, as values.
pub open spec fn created(r: Result<Ws, DsnError>) -> Result<DescriptorView, DsnErrorView> {
    match r {
        Ok(ws) => Ok(ws.descriptor()),
        Err(e) => Err(e@),
    }
}

impl Ws {
    /// The descriptor that the client was made from.
    pub closed spec fn descriptor(&self) -> DescriptorView {
        self.dsn@
    }

    /// The blocking sessions that the client ever uses: none or one.
    pub closed spec fn blocking(&self) -> Set<u64> {
        published(self.sync_client)
    }

    /// The non-blocking sessions that the client ever uses: none or one.
    pub closed spec fn streaming(&self) -> Set<u64> {
        published(self.async_client)
    }

    /// A client for the descriptor, with both slots empty. The descriptor is
    /// parsed here and resolved when a transport is first needed.
    pub fn from_dsn(dsn: &str) -> (r: Result<Ws, DsnError>)
        ensures
            created(r) == parse_text(dsn@),
    {
        match Descriptor::parse(dsn) {
            Ok(dsn) => Ok(Ws { dsn, async_client: slot_new(), sync_client: slot_new() }),
            Err(e) => Err(e),
        }
    }

    /// A client for a parsed descriptor, with both slots empty.
    pub fn from_descriptor(dsn: Descriptor) -> (ws: Ws)
        ensures
            ws.descriptor() == dsn@,
    {
        Ws { dsn, async_client: slot_new(), sync_client: slot_new() }
    }

    /// What to open a transport with: the descriptor, resolved.
    pub fn connect_info(&self) -> (r: Result<WsInfo, DsnError>)
        ensures
            resolved_view(r) == resolve(self.descriptor()),
    {
        WsInfo::from_descriptor(&self.dsn)
    }

    /// What a blocking call does next: it uses the blocking session where the
    /// slot holds one, and connects where it does not.
    pub fn blocking_step(&self) -> (step: Step)
        ensures
            step matches Step::Use(session) ==> self.blocking() == set![session],
    {
        Step::of(slot_get(&self.sync_client))
    }

    /// Publishes a blocking session that the caller opened and names the
    /// session to use: the published one, which is `built` only if none was
    /// published before. Of two that were built at once the later is the
    /// caller's to close.
    pub fn publish_blocking(&self, built: u64) -> (session: u64)
        ensures
            self.blocking() == set![session],
    {
        slot_get_or_init(&self.sync_client, built)
    }

    /// What a non-blocking call does next.
    pub fn streaming_step(&self) -> (step: Step)
        ensures
            step matches Step::Use(session) ==> self.streaming() == set![session],
    {
        Step::of(slot_get(&self.async_client))
    }

    /// Publishes a non-blocking session that the caller opened and names the
    /// session to use.
    pub fn publish_streaming(&self, built: u64) -> (session: u64)
        ensures
            self.streaming() == set![session],
    {
        slot_get_or_init(&self.async_client, built)
    }
}

/// A client has one session of a kind: any two sessions that it names for
/// blocking calls are the same, and so are any two for non-blocking calls.
pub proof fn lemma_one_session_of_a_kind(ws: Ws, first: u64, second: u64)
    ensures
        ws.blocking() == set![first] && ws.blocking() == set![second] ==> first == second,
        ws.streaming() == set![first] && ws.streaming() == set![second] ==> first == second,
{
    if ws.blocking() == set![first] && ws.blocking() == set![second] {
        assert(set![first].contains(first));
        assert(set![second].contains(first));
    }
    if ws.streaming() == set![first] && ws.streaming() == set![second] {
        assert(set![first].contains(first));
        assert(set![second].contains(first));
    }
}

} // verus!
