//! One direction of a validator-enclave pairing: bytes read from one socket
//! wait here until the other socket has taken them, so that a partial write
//! never drops or reorders a byte.
use vstd::prelude::*;

verus! {

/// The bytes of one direction that were read and not yet written on.
pub struct RelayBuffer {
    pending: Vec<u8>,
    received: Ghost<Seq<u8>>,
    delivered: Ghost<Seq<u8>>,
}

/// A relay direction as the contracts see it.
pub struct RelayModel {
    /// Everything read from the source, in order.
    pub received: Seq<u8>,
    /// Everything written to the destination, in order.
    pub delivered: Seq<u8>,
    /// What is read and not yet written.
    pub pending: Seq<u8>,
}

impl View for RelayBuffer {
    type V = RelayModel;

    closed spec fn view(&self) -> RelayModel {
        RelayModel { received: self.received@, delivered: self.delivered@, pending: self.pending@ }
    }
}

impl RelayBuffer {
    /// What was written, followed by what waits, is exactly what was read.
    pub open spec fn wf(&self) -> bool {
        self@.delivered + self@.pending == self@.received
    }

    /// A direction on which nothing has been read yet.
    pub fn new() -> (r: RelayBuffer)
        ensures
            r.wf(),
            r@.received == Seq::<u8>::empty(),
            r@.delivered == Seq::<u8>::empty(),
            r@.pending == Seq::<u8>::empty(),
    {
        RelayBuffer { pending: Vec::new(), received: Ghost(Seq::empty()), delivered: Ghost(Seq::empty()) }
    }

    /// Bytes were read from the source.
    pub fn receive(&mut self, bytes: &[u8])
        requires
            old(self).wf(),
        ensures
            final(self).wf(),
            final(self)@.received == old(self)@.received + bytes@,
            final(self)@.delivered == old(self)@.delivered,
            final(self)@.pending == old(self)@.pending + bytes@,
    {
        let mut i: usize = 0;
        while i < bytes.len()
            invariant
                i <= bytes@.len(),
                self.pending@ =~= old(self).pending@ + bytes@.subrange(0, i as int),
                self.received == old(self).received,
                self.delivered == old(self).delivered,
            decreases bytes@.len() - i,
        {
            self.pending.push(bytes[i]);
            i = i + 1;
            assert(self.pending@ =~= old(self).pending@ + bytes@.subrange(0, i as int));
        }
        assert(bytes@.subrange(0, bytes@.len() as int) =~= bytes@);
        self.received = Ghost(self.received@ + bytes@);
        assert(self@.delivered + self@.pending =~= self@.received);
    }

    /// The bytes waiting to be written, oldest first.
    pub fn pending(&self) -> (r: &[u8])
        ensures
            r@ == self@.pending,
    {
        self.pending.as_slice()
    }

    /// The destination took the first `n` waiting bytes.
    pub fn consume(&mut self, n: usize)
        requires
            old(self).wf(),
            n <= old(self)@.pending.len(),
        ensures
            final(self).wf(),
            final(self)@.received == old(self)@.received,
            final(self)@.delivered == old(self)@.delivered + old(self)@.pending.take(n as int),
            final(self)@.pending == old(self)@.pending.skip(n as int),
    {
        let mut rest: Vec<u8> = Vec::new();
        let mut i: usize = n;
        while i < self.pending.len()
            invariant
                n <= i <= self.pending@.len(),
                rest@ =~= self.pending@.subrange(n as int, i as int),
            decreases self.pending@.len() - i,
        {
            rest.push(self.pending[i]);
            i = i + 1;
            assert(rest@ =~= self.pending@.subrange(n as int, i as int));
        }
        let ghost taken = self.pending@.take(n as int);
        self.pending = rest;
        self.delivered = Ghost(self.delivered@ + taken);
        assert(self@.delivered + self@.pending =~= self@.received) by {
            assert(old(self)@.pending =~= taken + old(self)@.pending.skip(n as int));
        }
    }
}

/// Once a direction has nothing waiting, the destination has been handed
/// exactly the bytes read from the source, unmodified and in order.
pub proof fn lemma_relay_delivers_in_order(r: RelayBuffer)
    requires
        r.wf(),
        r@.pending.len() == 0,
    ensures
        r@.delivered == r@.received,
{
    assert(r@.delivered + r@.pending =~= r@.delivered);
}

/// Where one validator connection and its enclave connection stand.
#[derive(Debug, Clone, Copy, PartialEq, Eq, Structural)]
pub enum PairPhase {
    /// The validator connected; the enclave connection is being opened.
    Connecting,
    /// Bytes are relayed both ways.
    Relaying,
    /// Both connections are closed.
    TornDown,
}

/// What the caller does to the pair of connections.
#[derive(Debug, Clone, Copy, PartialEq, Eq, Structural)]
pub enum PairAction {
    /// Start one copying task for each direction.
    StartRelays,
    /// The enclave could not be reached: close the validator's connection,
    /// which reconnects on its own.
    CloseValidator,
    /// Shut both connections down, which ends the other direction too.
    ShutdownBoth,
    /// Nothing is left to do.
    Nothing,
}

/// One validator connection paired with its own enclave connection. A
/// failure in one pairing does not touch any other.
#[derive(Debug, Clone, Copy, PartialEq, Eq, Structural)]
pub struct Pairing {
    pub phase: PairPhase,
}

impl Pairing {
    /// A validator connection was accepted.
    pub fn new() -> (r: Pairing)
        ensures
            r.phase == PairPhase::Connecting,
    {
        Pairing { phase: PairPhase::Connecting }
    }

    /// The enclave connection was opened, or opening it failed.
    pub fn on_enclave_connect(&mut self, ok: bool) -> (r: PairAction)
        requires
            old(self).phase == PairPhase::Connecting,
        ensures
            ok ==> r == PairAction::StartRelays && final(self).phase == PairPhase::Relaying,
            !ok ==> r == PairAction::CloseValidator && final(self).phase == PairPhase::TornDown,
    {
        if ok {
            self.phase = PairPhase::Relaying;
            PairAction::StartRelays
        } else {
            self.phase = PairPhase::TornDown;
            PairAction::CloseValidator
        }
    }

    /// One direction stopped: its source closed, or reading or writing
    /// failed. The first direction to stop tears the pair down.
    pub fn on_direction_ended(&mut self) -> (r: PairAction)
        requires
            old(self).phase != PairPhase::Connecting,
        ensures
            final(self).phase == PairPhase::TornDown,
            old(self).phase == PairPhase::Relaying ==> r == PairAction::ShutdownBoth,
            old(self).phase == PairPhase::TornDown ==> r == PairAction::Nothing,
    {
        match self.phase {
            PairPhase::Relaying => {
                self.phase = PairPhase::TornDown;
                PairAction::ShutdownBoth
            },
            _ => {
                self.phase = PairPhase::TornDown;
                PairAction::Nothing
            },
        }
    }
}

} // verus!
