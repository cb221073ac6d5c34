//! The render-side host: the object that the platform's audio callback drives.
//!
//! The host has two states. It starts without a processor and, on each
//! callback, asks the handoff channel for one without waiting; until one has
//! arrived every block is silence. From the block on which a processor
//! arrives the host is active: it never asks the channel again and lets the
//! processor run on the buffer pool's regions.
//!
//! One callback is `begin_block`, the engine's work on what `begin_block` lent
//! out, and `end_block`.

use crate::buffers::{overlaid, silent, BufferPool, PoolView, OUTPUT_REGION_LEN};
use crate::handoff::HandoffReceiver;
use crate::liveness::LivenessObserver;
use vstd::prelude::*;

verus! {

/// What a [`RenderHost`] holds.
pub struct HostView<P, S> {
    /// The processor, once one has arrived.
    pub processor: Option<P>,
    /// The sample regions.
    pub pool: PoolView<S>,
    /// Whether the host has seen the liveness flag dead.
    pub seen_dead: bool,
}

impl<P, S> HostView<P, S> {
    /// The host after `arrival` was offered to it. A host without a processor
    /// takes what arrives; an active host keeps the processor it has.
    pub open spec fn offered(self, arrival: Option<P>) -> Self {
        if self.processor is None {
            HostView { processor: arrival, ..self }
        } else {
            self
        }
    }

    /// What the host hands back when `arrival` is offered to it: an active
    /// host turns away whatever arrives.
    pub open spec fn turned_away(self, arrival: Option<P>) -> Option<P> {
        if self.processor is None {
            None
        } else {
            arrival
        }
    }

    /// The host after `arrivals` were offered to it, in order.
    pub open spec fn offered_all(self, arrivals: Seq<Option<P>>) -> Self
        decreases arrivals.len(),
    {
        if arrivals.len() == 0 {
            self
        } else {
            self.offered_all(arrivals.drop_last()).offered(arrivals.last())
        }
    }

    /// The host after a silent block: every sample of the output region is
    /// silence.
    pub open spec fn silenced(self) -> Self {
        HostView {
            pool: PoolView {
                output: silent(OUTPUT_REGION_LEN as nat, self.pool.silence),
                ..self.pool
            },
            ..self
        }
    }
}

/// An active host keeps its processor whatever is offered to it afterwards:
/// the render side takes a processor at most once.
pub proof fn lemma_active_host_keeps_processor<P, S>(
    host: HostView<P, S>,
    arrivals: Seq<Option<P>>,
)
    requires
        host.processor is Some,
    ensures
        host.offered_all(arrivals) == host,
    decreases arrivals.len(),
{
    if arrivals.len() > 0 {
        lemma_active_host_keeps_processor(host, arrivals.drop_last());
    }
}

/// A host without a processor stays without one for as long as nothing
/// arrives.
pub proof fn lemma_host_waits_while_nothing_arrives<P, S>(
    host: HostView<P, S>,
    arrivals: Seq<Option<P>>,
)
    requires
        host.processor is None,
        forall|i: int| 0 <= i < arrivals.len() ==> arrivals[i] is None,
    ensures
        host.offered_all(arrivals) == host,
    decreases arrivals.len(),
{
    if arrivals.len() > 0 {
        lemma_host_waits_while_nothing_arrives(host, arrivals.drop_last());
    }
}

/// Of everything that is offered to a host without a processor, the first
/// processor to arrive is the one the host has from then on, and it is that
/// exact value; nothing that arrives later replaces it.
pub proof fn lemma_first_arrival_wins<P, S>(
    host: HostView<P, S>,
    arrivals: Seq<Option<P>>,
    first: int,
)
    requires
        host.processor is None,
        0 <= first < arrivals.len(),
        arrivals[first] is Some,
        forall|i: int| 0 <= i < first ==> arrivals[i] is None,
    ensures
        host.offered_all(arrivals) == (HostView { processor: arrivals[first], ..host }),
    decreases arrivals.len(),
{
    let earlier = arrivals.drop_last();
    if first == arrivals.len() - 1 {
        lemma_host_waits_while_nothing_arrives(host, earlier);
    } else {
        lemma_first_arrival_wins(host, earlier, first);
    }
}

/// The render-side host of a stream of samples of type `S`, for a processor
/// of type `P`.
#[verifier::reject_recursive_types(P)]
#[derive(Debug)]
pub struct RenderHost<P, S> {
    receiver: HandoffReceiver<P>,
    liveness: LivenessObserver,
    processor: Option<P>,
    pool: BufferPool<S>,
}

impl<P, S> View for RenderHost<P, S> {
    type V = HostView<P, S>;

    closed spec fn view(&self) -> HostView<P, S> {
        HostView { processor: self.processor, pool: self.pool@, seen_dead: self.liveness@ }
    }
}

impl<P, S: Copy> RenderHost<P, S> {
    /// A host that has no processor yet. Its regions hold `silence` in every
    /// sample.
    pub fn new(receiver: HandoffReceiver<P>, liveness: LivenessObserver, silence: S) -> (host:
        Self)
        ensures
            host@.processor is None,
            host@.pool == BufferPool::<S>::fresh(silence),
            host@.seen_dead == liveness@,
    {
        RenderHost { receiver, liveness, processor: None, pool: BufferPool::new(silence) }
    }

    /// Whether a processor has arrived.
    pub fn is_active(&self) -> (active: bool)
        ensures
            active == self@.processor is Some,
    {
        self.processor.is_some()
    }

    /// The input region.
    pub fn input_region(&self) -> (region: &[S])
        ensures
            region@ == self@.pool.input,
    {
        self.pool.input()
    }

    /// The output region.
    pub fn output_region(&self) -> (region: &[S])
        ensures
            region@ == self@.pool.output,
            region@.len() == OUTPUT_REGION_LEN,
    {
        self.pool.output()
    }

    /// Offers `arrival` to the host. A host without a processor takes it. An
    /// active host keeps the processor it has and hands `arrival` back.
    pub fn offer(&mut self, arrival: Option<P>) -> (turned_away: Option<P>)
        ensures
            final(self)@ == old(self)@.offered(arrival),
            turned_away == old(self)@.turned_away(arrival),
    {
        if self.processor.is_none() {
            self.processor = arrival;
            None
        } else {
            arrival
        }
    }

    /// Asks the handoff channel for a processor, without waiting, unless the
    /// host has one already. An active host is left as it is. In a host
    /// without a processor nothing but the processor changes.
    pub fn poll_processor(&mut self)
        ensures
            old(self)@.processor is Some ==> final(self)@ == old(self)@,
            final(self)@ == (HostView { processor: final(self)@.processor, ..old(self)@ }),
    {
        if self.processor.is_none() {
            let arrival = self.receiver.try_receive();
            self.offer(arrival);
        }
    }

    /// Gets the regions ready for one block. A host without a processor
    /// writes silence into the whole output region and lends nothing out. An
    /// active host copies the leading samples of `platform_input` into the
    /// input region and lends out its processor, the input region and, for
    /// writing, the output region: what the engine leaves in them is what the
    /// host holds afterwards.
    pub fn prepare_block(&mut self, platform_input: &[S]) -> (io: Option<(&mut P, &[S], &mut [S])>)
        ensures
            io is Some <==> old(self)@.processor is Some,
            io is None ==> final(self)@ == old(self)@.silenced(),
            io matches Some(lent) ==> {
                &&& Some(*lent.0) == old(self)@.processor
                &&& lent.1@ == overlaid(old(self)@.pool.input, platform_input@)
                &&& lent.2@ == old(self)@.pool.output
                &&& final(self)@ == (HostView {
                    processor: Some(*final(lent.0)),
                    pool: PoolView { input: lent.1@, output: final(lent.2)@, ..old(self)@.pool },
                    ..old(self)@
                })
            },
    {
        match &mut self.processor {
            Some(processor) => {
                self.pool.load_input(platform_input);
                let (input, output) = self.pool.regions();
                Some((processor, input, output))
            },
            None => {
                self.pool.silence_output();
                None
            },
        }
    }

    /// Starts one callback: asks the handoff channel for a processor unless
    /// the host has one, then gets the regions ready as
    /// [`prepare_block`](Self::prepare_block) does. Where nothing is lent out
    /// the block is silent.
    pub fn begin_block(&mut self, platform_input: &[S]) -> (io: Option<(&mut P, &[S], &mut [S])>)
        ensures
            old(self)@.processor is Some ==> io is Some,
            io is None ==> final(self)@ == old(self)@.silenced(),
            io matches Some(lent) ==> {
                &&& old(self)@.processor is Some ==> Some(*lent.0) == old(self)@.processor
                &&& lent.1@ == overlaid(old(self)@.pool.input, platform_input@)
                &&& lent.2@ == old(self)@.pool.output
                &&& final(self)@ == (HostView {
                    processor: Some(*final(lent.0)),
                    pool: PoolView { input: lent.1@, output: final(lent.2)@, ..old(self)@.pool },
                    ..old(self)@
                })
            },
    {
        self.poll_processor();
        self.prepare_block(platform_input)
    }

    /// Whether the stream is alive, as far as this side has seen. Once the
    /// answer was false it stays false. Nothing else in the host changes.
    pub fn is_alive(&mut self) -> (alive: bool)
        ensures
            old(self)@.seen_dead ==> !alive,
            final(self)@ == (HostView { seen_dead: !alive, ..old(self)@ }),
    {
        self.liveness.is_alive()
    }

    /// Ends one callback: copies the leading samples of the output region
    /// into `platform_output` and answers whether the stream is alive.
    pub fn end_block(&mut self, platform_output: &mut [S]) -> (alive: bool)
        ensures
            final(platform_output)@ == overlaid(old(platform_output)@, old(self)@.pool.output),
            old(self)@.seen_dead ==> !alive,
            final(self)@ == (HostView { seen_dead: !alive, ..old(self)@ }),
    {
        self.pool.store_output(platform_output);
        self.is_alive()
    }
}

} // verus!
