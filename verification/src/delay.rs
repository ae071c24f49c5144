//! The look-ahead delay line: a ring that hands back each sample a fixed
//! number of pushes after it went in.

use vstd::prelude::*;

verus! {

/// Look-ahead of the limiter, in milliseconds.
pub const LOOKAHEAD_MILLIS: u64 = 5;

/// Samples in the look-ahead: the sample rate times the look-ahead time,
/// rounded up.
pub open spec fn spec_lookahead_samples(sample_rate: nat) -> nat {
    ((sample_rate * LOOKAHEAD_MILLIS + 999) / 1000) as nat
}

/// Samples in the look-ahead at `sample_rate`: the least count whose
/// duration is no shorter than the look-ahead time.
pub fn lookahead_samples(sample_rate: u32) -> (n: usize)
    ensures
        n == spec_lookahead_samples(sample_rate as nat),
        n * 1000 >= sample_rate * LOOKAHEAD_MILLIS,
        n > 0 ==> (n - 1) * 1000 < sample_rate * LOOKAHEAD_MILLIS,
{
    let scaled: u64 = sample_rate as u64 * LOOKAHEAD_MILLIS + 999;
    let n: u64 = scaled / 1000;
    n as usize
}

/// Position `offset` slots after `pos` in a ring of `len` slots.
pub open spec fn ring_index(pos: int, offset: int, len: int) -> int {
    if pos + offset < len {
        pos + offset
    } else {
        pos + offset - len
    }
}

/// What a delay line holds after `x` went in, and the sample that came
/// out: the oldest of the samples held and `x`.
pub open spec fn spec_push<T>(pending: Seq<T>, x: T) -> (Seq<T>, T) {
    (pending.push(x).skip(1), pending.push(x)[0])
}

/// What a delay line holds after `inputs` went in one by one.
pub open spec fn spec_feed_pending<T>(pending: Seq<T>, inputs: Seq<T>) -> Seq<T>
    decreases inputs.len(),
{
    if inputs.len() == 0 {
        pending
    } else {
        spec_push(spec_feed_pending(pending, inputs.drop_last()), inputs.last()).0
    }
}

/// The samples that came out while `inputs` went in one by one.
pub open spec fn spec_feed_outputs<T>(pending: Seq<T>, inputs: Seq<T>) -> Seq<T>
    decreases inputs.len(),
{
    if inputs.len() == 0 {
        Seq::empty()
    } else {
        spec_feed_outputs(pending, inputs.drop_last()).push(
            spec_push(spec_feed_pending(pending, inputs.drop_last()), inputs.last()).1,
        )
    }
}

/// A delay line over samples of type `T`. Its view is the samples that
/// went in and have not come out yet, oldest first; their number is the
/// delay and never changes.
pub struct DelayLine<T> {
    slots: Vec<T>,
    pos: usize,
}

impl<T> View for DelayLine<T> {
    type V = Seq<T>;

    closed spec fn view(&self) -> Seq<T> {
        Seq::new(
            (self.slots.len() - 1) as nat,
            |i: int| self.slots@[ring_index(self.pos as int, i + 1, self.slots.len() as int)],
        )
    }
}

impl<T> DelayLine<T> {
    #[verifier::type_invariant]
    spec fn well_formed(self) -> bool {
        self.pos < self.slots.len()
    }
}

impl<T: Copy> DelayLine<T> {
    /// A line that delays by `delay` pushes and holds `fill` throughout.
    pub fn new(delay: usize, fill: T) -> (line: DelayLine<T>)
        requires
            delay < usize::MAX,
        ensures
            line@ == Seq::new(delay as nat, |i: int| fill),
    {
        let mut slots: Vec<T> = Vec::new();
        let mut i: usize = 0;
        while i <= delay
            invariant
                i <= delay + 1,
                delay < usize::MAX,
                slots.len() == i,
                forall|j: int| 0 <= j < i ==> slots@[j] == fill,
            decreases delay + 1 - i,
        {
            slots.push(fill);
            i += 1;
        }
        let line = DelayLine { slots, pos: 0 };
        assert(line@ =~= Seq::new(delay as nat, |i: int| fill));
        line
    }

    /// The number of pushes between a sample going in and coming out.
    pub fn delay(&self) -> (d: usize)
        ensures
            d == self@.len(),
    {
        proof {
            use_type_invariant(self);
        }
        self.slots.len() - 1
    }

    /// Puts `x` in and hands back the sample that went in `delay` pushes
    /// ago (`x` itself where the delay is zero).
    pub fn push(&mut self, x: T) -> (out: T)
        ensures
            final(self)@ == spec_push(old(self)@, x).0,
            out == spec_push(old(self)@, x).1,
            final(self)@.len() == old(self)@.len(),
    {
        proof {
            use_type_invariant(&*self);
        }
        let len: usize = self.slots.len();
        let write: usize = self.pos;
        let read: usize = if write + 1 == len {
            0
        } else {
            write + 1
        };
        self.slots[write] = x;
        let out = self.slots[read];
        self.pos = read;
        assert(self@ =~= spec_push(old(self)@, x).0);
        out
    }
}

/// A delay line delays by exactly its length: while `inputs` go in, what
/// comes out is, in order, the samples held at the start and then the
/// inputs themselves, and the last inputs stay behind.
pub proof fn lemma_delay_exact<T>(pending: Seq<T>, inputs: Seq<T>)
    ensures
        spec_feed_outputs(pending, inputs) == (pending + inputs).take(inputs.len() as int),
        spec_feed_pending(pending, inputs) == (pending + inputs).skip(inputs.len() as int),
        spec_feed_pending(pending, inputs).len() == pending.len(),
    decreases inputs.len(),
{
    if inputs.len() == 0 {
        assert(spec_feed_outputs(pending, inputs) =~= (pending + inputs).take(0));
        assert(spec_feed_pending(pending, inputs) =~= (pending + inputs).skip(0));
    } else {
        let head = inputs.drop_last();
        lemma_delay_exact(pending, head);
        let n = inputs.len() as int;
        let held = spec_feed_pending(pending, head);
        assert(held =~= (pending + head).skip(n - 1));
        assert(spec_feed_pending(pending, inputs) =~= (pending + inputs).skip(n));
        assert(spec_feed_outputs(pending, inputs) =~= (pending + inputs).take(n));
    }
}

/// The sample that comes out at push `n` is the one that went in at push
/// `n` less the delay; before that many pushes, it is one of the samples
/// held at the start.
pub proof fn lemma_delayed_sample<T>(pending: Seq<T>, inputs: Seq<T>, n: int)
    requires
        0 <= n < inputs.len(),
    ensures
        spec_feed_outputs(pending, inputs).len() == inputs.len(),
        n >= pending.len() ==> spec_feed_outputs(pending, inputs)[n] == inputs[n - pending.len()],
        n < pending.len() ==> spec_feed_outputs(pending, inputs)[n] == pending[n],
{
    lemma_delay_exact(pending, inputs);
}

} // verus!
