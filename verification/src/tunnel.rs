//! The tunnel bridge's relay model: one direction of the byte copy between
//! the locally accepted connection and the cluster-routed stream. The
//! surrounding process owns the sockets and drives one relay per direction,
//! concurrently, so neither direction stalls the other; the relay guarantees
//! that the bytes handed on are exactly the bytes accepted, unmodified and
//! in order.

use vstd::prelude::*;

verus! {

/// One direction of the tunnel's byte relay: bytes accepted from the source
/// stream wait here until they are drained toward the sink stream.
pub struct TunnelRelay {
    buffered: Vec<u8>,
    delivered: Ghost<Seq<u8>>,
}

impl TunnelRelay {
    /// Every byte handed on to the sink so far, in order.
    pub closed spec fn spec_delivered(&self) -> Seq<u8> {
        self.delivered@
    }

    /// Every byte accepted but not yet handed on, in order.
    pub closed spec fn spec_buffered(&self) -> Seq<u8> {
        self.buffered@
    }

    /// Every byte accepted from the source so far, in order.
    pub open spec fn spec_accepted(&self) -> Seq<u8> {
        self.spec_delivered() + self.spec_buffered()
    }

    /// A fresh relay: nothing accepted, nothing delivered.
    pub fn new() -> (r: Self)
        ensures
            r.spec_delivered() == Seq::<u8>::empty(),
            r.spec_buffered() == Seq::<u8>::empty(),
    {
        TunnelRelay { buffered: Vec::new(), delivered: Ghost(Seq::empty()) }
    }

    /// Accepts one chunk read from the source stream.
    pub fn accept(&mut self, chunk: &[u8])
        ensures
            final(self).spec_delivered() == old(self).spec_delivered(),
            final(self).spec_buffered() == old(self).spec_buffered() + chunk@,
            final(self).spec_accepted() == old(self).spec_accepted() + chunk@,
    {
        self.buffered.extend_from_slice(chunk);
        proof {
            assert(self.buffered@ =~= old(self).buffered@ + chunk@);
            assert(self.spec_accepted() =~= old(self).spec_accepted() + chunk@);
        }
    }

    /// Hands every buffered byte on toward the sink stream, in order.
    pub fn drain(&mut self) -> (out: Vec<u8>)
        ensures
            out@ == old(self).spec_buffered(),
            final(self).spec_buffered() == Seq::<u8>::empty(),
            final(self).spec_delivered() == old(self).spec_delivered() + out@,
            final(self).spec_accepted() == old(self).spec_accepted(),
    {
        let mut out: Vec<u8> = Vec::new();
        core::mem::swap(&mut out, &mut self.buffered);
        proof {
            self.delivered@ = self.delivered@ + out@;
            assert(self.spec_accepted() =~= old(self).spec_accepted());
        }
        out
    }

    /// How many bytes wait in the relay.
    pub fn buffered_len(&self) -> (n: usize)
        ensures
            n == self.spec_buffered().len(),
    {
        self.buffered.len()
    }
}

/// The relay preserves the stream: what was delivered is exactly a prefix of
/// what was accepted — unmodified and in order — and once the relay is
/// drained the two are equal. This holds of each direction independently, so
/// the two concurrent directions never corrupt one another.
pub proof fn lemma_relay_preserves_stream(r: TunnelRelay)
    ensures
        r.spec_delivered() == r.spec_accepted().subrange(0, r.spec_delivered().len() as int),
        r.spec_buffered().len() == 0 ==> r.spec_delivered() == r.spec_accepted(),
{
    assert(r.spec_delivered() =~= r.spec_accepted().subrange(
        0,
        r.spec_delivered().len() as int,
    ));
    if r.spec_buffered().len() == 0 {
        assert(r.spec_delivered() =~= r.spec_accepted());
    }
}

} // verus!
