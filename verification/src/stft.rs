//! The streaming engine: buffered samples, the frame of the next column,
//! and the step from one column to the next.

use crate::ring::{drop_many_front, push_many_back, read_many_front};
use crate::window_type::WindowType;
use std::collections::VecDeque;
use vstd::prelude::*;

verus! {

/// An engine as a mathematical value: its fixed parameters and the samples
/// that are buffered, oldest first.
pub struct Stream<T> {
    pub window_type: WindowType,
    pub window_size: nat,
    pub step_size: nat,
    pub samples: Seq<T>,
}

impl<T> Stream<T> {
    /// A step never skips samples: it is at most one frame long.
    pub open spec fn wf(self) -> bool {
        self.step_size <= self.window_size
    }

    /// A fresh stream with nothing buffered.
    pub open spec fn new(window_type: WindowType, window_size: nat, step_size: nat) -> Self {
        Stream { window_type, window_size, step_size, samples: Seq::empty() }
    }

    /// The number of spectral bins in a column: half a frame, rounded down.
    pub open spec fn output_size(self) -> nat {
        self.window_size / 2
    }

    /// The number of buffered samples.
    pub open spec fn len(self) -> nat {
        self.samples.len()
    }

    /// Whether a whole frame is buffered.
    pub open spec fn ready(self) -> bool {
        self.window_size <= self.samples.len()
    }

    /// The frame of the next column: the oldest `window_size` samples.
    pub open spec fn window(self) -> Seq<T> {
        self.samples.take(self.window_size as int)
    }

    /// The stream after `more` samples arrived.
    pub open spec fn append(self, more: Seq<T>) -> Self {
        Stream { samples: self.samples + more, ..self }
    }

    /// The stream after a step: the oldest `step_size` samples are gone.
    pub open spec fn advance(self) -> Self {
        Stream { samples: self.samples.skip(self.step_size as int), ..self }
    }
}

/// The fixed geometry of an engine: the length of a frame and of a step.
struct Framing {
    window_size: usize,
    step_size: usize,
}

impl Framing {
    #[verifier::type_invariant]
    spec fn step_within_window(self) -> bool {
        self.step_size <= self.window_size
    }
}

/// Buffers a stream of samples and frames it into overlapping windows.
pub struct STFT<T> {
    window_type: WindowType,
    framing: Framing,
    sample_ring: VecDeque<T>,
}

impl<T> View for STFT<T> {
    type V = Stream<T>;

    closed spec fn view(&self) -> Stream<T> {
        Stream {
            window_type: self.window_type,
            window_size: self.framing.window_size as nat,
            step_size: self.framing.step_size as nat,
            samples: self.sample_ring@,
        }
    }
}

impl<T: Copy> STFT<T> {
    /// Creates an engine with nothing buffered.
    pub fn new(window_type: WindowType, window_size: usize, step_size: usize) -> (stft: Self)
        requires
            step_size <= window_size,
        ensures
            stft@ == Stream::<T>::new(window_type, window_size as nat, step_size as nat),
    {
        STFT {
            window_type,
            framing: Framing { window_size, step_size },
            sample_ring: VecDeque::new(),
        }
    }

    /// The window the engine was built for.
    pub fn window_type(&self) -> (w: WindowType)
        ensures
            w == self@.window_type,
    {
        self.window_type
    }

    /// The length of a frame.
    pub fn window_size(&self) -> (n: usize)
        ensures
            n == self@.window_size,
            self@.wf(),
    {
        proof {
            use_type_invariant(&self.framing);
        }
        self.framing.window_size
    }

    /// The length of a step.
    pub fn step_size(&self) -> (n: usize)
        ensures
            n == self@.step_size,
            self@.wf(),
    {
        proof {
            use_type_invariant(&self.framing);
        }
        self.framing.step_size
    }

    /// The number of bins in a column.
    pub fn output_size(&self) -> (n: usize)
        ensures
            n == self@.output_size(),
    {
        self.framing.window_size / 2
    }

    /// The number of buffered samples.
    pub fn len(&self) -> (n: usize)
        ensures
            n == self@.len(),
    {
        self.sample_ring.len()
    }

    /// Whether nothing is buffered.
    pub fn is_empty(&self) -> (b: bool)
        ensures
            b == (self@.len() == 0),
    {
        self.len() == 0
    }

    /// Appends samples behind those already buffered.
    pub fn append_samples(&mut self, input: &[T])
        ensures
            final(self)@ == old(self)@.append(input@),
            final(self)@.len() == old(self)@.len() + input@.len(),
    {
        push_many_back(&mut self.sample_ring, input);
    }

    /// Whether a whole frame is buffered, so that a column can be computed.
    pub fn contains_enough_to_compute(&self) -> (b: bool)
        ensures
            b == self@.ready(),
            self@.wf(),
    {
        proof {
            use_type_invariant(&self.framing);
        }
        self.framing.window_size <= self.sample_ring.len()
    }

    /// Copies the frame of the next column into `output`. The buffer is left
    /// as it is: the same frame is handed out until the engine steps on.
    pub fn peek_window(&self, output: &mut [T])
        requires
            self@.ready(),
            old(output)@.len() == self@.window_size,
        ensures
            final(output)@ == self@.window(),
    {
        let copied = read_many_front(&self.sample_ring, output);
        assert(copied == self.framing.window_size);
    }

    /// Writes a column from the transform of a frame: bin `i` of the output
    /// is `post` applied to bin `i` of `spectrum`, for the first
    /// `output_size` bins. The upper half of the spectrum is not surfaced.
    pub fn write_column<C: Copy, R>(&self, spectrum: &[C], output: &mut [R], post: impl Fn(C) -> R)
        requires
            spectrum@.len() == self@.window_size,
            old(output)@.len() == self@.output_size(),
            forall|i: int| 0 <= i < self@.output_size() ==> call_requires(post, (spectrum@[i],)),
        ensures
            final(output)@.len() == self@.output_size(),
            forall|i: int|
                0 <= i < self@.output_size() ==> call_ensures(
                    post,
                    (spectrum@[i],),
                    #[trigger] final(output)@[i],
                ),
    {
        let bins = self.output_size();
        let mut i: usize = 0;
        while i < bins
            invariant
                i <= bins,
                bins == self@.output_size(),
                bins <= spectrum@.len(),
                output@.len() == bins,
                forall|k: int| 0 <= k < bins ==> call_requires(post, (spectrum@[k],)),
                forall|k: int|
                    0 <= k < i ==> call_ensures(post, (spectrum@[k],), #[trigger] output@[k]),
            decreases bins - i,
        {
            let bin = post(spectrum[i]);
            output[i] = bin;
            i += 1;
        }
    }

    /// Steps to the next column: drops the oldest `step_size` samples and
    /// keeps the rest, which the next frame starts with.
    pub fn move_to_next_column(&mut self)
        requires
            old(self)@.step_size <= old(self)@.len(),
        ensures
            final(self)@ == old(self)@.advance(),
            final(self)@.len() == old(self)@.len() - old(self)@.step_size,
    {
        let step = self.framing.step_size;
        let dropped = drop_many_front(&mut self.sample_ring, step);
        assert(dropped == step);
    }
}

/// A fresh stream that was given `samples` holds exactly those: it is as
/// long as they are, and ready as soon as they fill a frame.
pub proof fn lemma_fill_from_empty<T>(
    window_type: WindowType,
    window_size: nat,
    step_size: nat,
    samples: Seq<T>,
)
    requires
        step_size <= window_size,
    ensures
        Stream::<T>::new(window_type, window_size, step_size).wf(),
        Stream::<T>::new(window_type, window_size, step_size).len() == 0,
        Stream::<T>::new(window_type, window_size, step_size).append(samples).samples == samples,
        Stream::<T>::new(window_type, window_size, step_size).append(samples).len()
            == samples.len(),
        Stream::<T>::new(window_type, window_size, step_size).append(samples).ready() == (
        window_size <= samples.len()),
{
    assert(Seq::<T>::empty() + samples =~= samples);
}

/// Samples may arrive in any batches: two appends in a row leave the stream
/// as one append of both batches does.
pub proof fn lemma_append_in_batches<T>(s: Stream<T>, first: Seq<T>, second: Seq<T>)
    ensures
        s.append(first).append(second) == s.append(first + second),
        s.append(first).append(second).len() == s.len() + first.len() + second.len(),
{
    assert((s.samples + first) + second =~= s.samples + (first + second));
}

/// Appending and stepping change only what is buffered: the parameters
/// stay, and with them the bound of the step by the frame.
pub proof fn lemma_parameters_are_fixed<T>(s: Stream<T>, more: Seq<T>)
    ensures
        s.append(more).window_size == s.window_size,
        s.append(more).step_size == s.step_size,
        s.append(more).window_type == s.window_type,
        s.append(more).output_size() == s.output_size(),
        s.append(more).wf() == s.wf(),
        s.advance().window_size == s.window_size,
        s.advance().step_size == s.step_size,
        s.advance().window_type == s.window_type,
        s.advance().output_size() == s.output_size(),
        s.advance().wf() == s.wf(),
{
}

/// A step shortens the buffer by exactly `step_size`, and a ready stream
/// can always take one.
pub proof fn lemma_advance_len<T>(s: Stream<T>)
    requires
        s.step_size <= s.len(),
    ensures
        s.advance().len() == s.len() - s.step_size,
        s.advance().len() + s.step_size == s.len(),
{
}

/// A ready stream holds enough for a step, and the step leaves at least
/// the overlap of two consecutive frames behind.
pub proof fn lemma_ready_can_advance<T>(s: Stream<T>)
    requires
        s.wf(),
        s.ready(),
    ensures
        s.step_size <= s.len(),
        s.advance().len() >= s.window_size - s.step_size,
{
}

/// The frame of a ready stream is one whole window, and samples that
/// arrive later do not change it.
pub proof fn lemma_window_is_stable<T>(s: Stream<T>, more: Seq<T>)
    requires
        s.ready(),
    ensures
        s.window().len() == s.window_size,
        s.append(more).ready(),
        s.append(more).window() == s.window(),
{
    assert(s.append(more).window() =~= s.window());
}

/// Consecutive frames overlap: after a step the buffer starts with the
/// part of the last frame that lay behind the step.
pub proof fn lemma_overlap_is_kept<T>(s: Stream<T>)
    requires
        s.wf(),
        s.ready(),
    ensures
        s.advance().samples.take(s.window_size - s.step_size) == s.window().skip(
            s.step_size as int,
        ),
{
    let w = s.window_size as int;
    let k = s.step_size as int;
    assert(s.samples.skip(k).take(w - k) =~= s.samples.take(w).skip(k));
}

/// The frame after a step is the old buffer read one step further on.
pub proof fn lemma_next_window<T>(s: Stream<T>)
    requires
        s.step_size <= s.len(),
    ensures
        s.advance().ready() == (s.window_size + s.step_size <= s.len()),
        s.advance().ready() ==> s.advance().window() == s.samples.subrange(
            s.step_size as int,
            (s.step_size + s.window_size) as int,
        ),
{
    let w = s.window_size as int;
    let k = s.step_size as int;
    if s.advance().ready() {
        assert(s.samples.skip(k).take(w) =~= s.samples.subrange(k, k + w));
    }
}

} // verus!
