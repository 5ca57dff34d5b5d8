use vstd::prelude::*;

verus! {

/// Frames held back for a delay of `delay_seconds` at `frame_rate` frames per second.
pub open spec fn spec_target_size(delay_seconds: u32, frame_rate: u32) -> nat {
    (delay_seconds as nat * frame_rate as nat) as nat
}

/// What a buffer holding `held` keeps after one more item arrives.
pub open spec fn step_held<T>(target: nat, held: Seq<T>, item: T) -> Seq<T> {
    if held.len() + 1 > target {
        held.push(item).drop_first()
    } else {
        held.push(item)
    }
}

/// What a buffer holding `held` hands out when one more item arrives.
pub open spec fn step_out<T>(target: nat, held: Seq<T>, item: T) -> Option<T> {
    if held.len() + 1 > target {
        Some(held.push(item)[0])
    } else {
        None
    }
}

/// Contents of a buffer that started empty and was fed `pushes` in order.
pub open spec fn held_after<T>(target: nat, pushes: Seq<T>) -> Seq<T>
    decreases pushes.len(),
{
    if pushes.len() == 0 {
        Seq::empty()
    } else {
        step_held(target, held_after(target, pushes.drop_last()), pushes.last())
    }
}

/// Items handed out, in order, by a buffer that started empty and was fed `pushes`.
pub open spec fn emitted_after<T>(target: nat, pushes: Seq<T>) -> Seq<T>
    decreases pushes.len(),
{
    if pushes.len() == 0 {
        Seq::empty()
    } else {
        let prev = emitted_after(target, pushes.drop_last());
        match step_out(target, held_after(target, pushes.drop_last()), pushes.last()) {
            Some(x) => prev.push(x),
            None => prev,
        }
    }
}

/// A first-in first-out queue that holds back the last `target` items pushed.
pub struct DelayBuffer<T> {
    items: Vec<T>,
    target: u64,
}

impl<T> DelayBuffer<T> {
    /// The held items, oldest first.
    pub closed spec fn contents(&self) -> Seq<T> {
        self.items@
    }

    /// How many items the buffer holds back.
    pub closed spec fn target(&self) -> nat {
        self.target as nat
    }

    /// Never more than `target` items are held.
    pub open spec fn wf(&self) -> bool {
        self.contents().len() <= self.target()
    }

    /// An empty buffer that holds back `target_size` items.
    pub fn new(target_size: u64) -> (r: Self)
        ensures
            r.wf(),
            r.contents() == Seq::<T>::empty(),
            r.target() == target_size,
    {
        DelayBuffer { items: Vec::new(), target: target_size }
    }

    /// An empty buffer sized for `delay_seconds` at `frame_rate` frames per second.
    pub fn with_delay(delay_seconds: u32, frame_rate: u32) -> (r: Self)
        ensures
            r.wf(),
            r.contents() == Seq::<T>::empty(),
            r.target() == spec_target_size(delay_seconds, frame_rate),
    {
        DelayBuffer::new(target_size(delay_seconds, frame_rate))
    }

    pub fn target_size(&self) -> (r: u64)
        ensures
            r == self.target(),
    {
        self.target
    }

    pub fn len(&self) -> (r: usize)
        ensures
            r == self.contents().len(),
    {
        self.items.len()
    }

    pub fn is_empty(&self) -> (r: bool)
        ensures
            r == (self.contents().len() == 0),
    {
        self.items.len() == 0
    }

    /// Appends `item`; once more than `target` items are held, the oldest one
    /// leaves and is returned. With a target of zero every item comes straight back.
    pub fn push_and_maybe_pop(&mut self, item: T) -> (r: Option<T>)
        requires
            old(self).wf(),
        ensures
            final(self).wf(),
            final(self).target() == old(self).target(),
            final(self).contents() == step_held(old(self).target(), old(self).contents(), item),
            r == step_out(old(self).target(), old(self).contents(), item),
    {
        let ghost held = self.items@;
        self.items.push(item);
        if self.items.len() as u64 > self.target {
            let first = self.items.remove(0);
            assert(self.items@ =~= held.push(item).drop_first());
            Some(first)
        } else {
            None
        }
    }
}

/// Buffer size for a delay of `delay_seconds` at `frame_rate` frames per second;
/// zero seconds means no buffering.
pub fn target_size(delay_seconds: u32, frame_rate: u32) -> (r: u64)
    ensures
        r == spec_target_size(delay_seconds, frame_rate),
{
    proof {
        assert(0 <= delay_seconds as nat * frame_rate as nat <= 0xffff_ffff * 0xffff_ffff)
            by (nonlinear_arith);
    }
    delay_seconds as u64 * frame_rate as u64
}

/// The buffer is a fixed delay line: after any run of pushes into an empty
/// buffer, the items handed out are exactly the earliest ones pushed, in push
/// order, and it holds the remaining latest `target` ones.
pub proof fn lemma_delay_is_fifo<T>(target: nat, pushes: Seq<T>)
    ensures
        pushes.len() <= target ==> emitted_after(target, pushes) == Seq::<T>::empty()
            && held_after(target, pushes) == pushes,
        pushes.len() > target ==> emitted_after(target, pushes) == pushes.take(
            pushes.len() - target,
        ) && held_after(target, pushes) == pushes.skip(pushes.len() - target),
    decreases pushes.len(),
{
    if pushes.len() > 0 {
        let prev = pushes.drop_last();
        lemma_delay_is_fifo(target, prev);
        let n = pushes.len();
        if prev.len() <= target {
            if n > target {
                assert(held_after(target, pushes) =~= pushes.skip(n - target));
                assert(emitted_after(target, pushes) =~= pushes.take(n - target));
            } else {
                assert(held_after(target, pushes) =~= pushes);
            }
        } else {
            assert(held_after(target, pushes) =~= pushes.skip(n - target));
            assert(emitted_after(target, pushes) =~= pushes.take(n - target));
        }
    }
}

/// With no delay the buffer is a pass-through: every item is handed back as
/// soon as it is pushed, in push order, and nothing is held.
pub proof fn lemma_zero_delay_passes_through<T>(pushes: Seq<T>, held: Seq<T>, item: T)
    requires
        held.len() == 0,
    ensures
        emitted_after(0, pushes) == pushes,
        held_after(0, pushes) == Seq::<T>::empty(),
        step_out(0, held, item) == Some(item),
        step_held(0, held, item) == Seq::<T>::empty(),
{
    lemma_delay_is_fifo(0, pushes);
    assert(pushes.take(pushes.len() as int) =~= pushes);
    assert(pushes.skip(pushes.len() as int) =~= Seq::<T>::empty());
    assert(held.push(item).drop_first() =~= Seq::<T>::empty());
}

/// With a delay of `k > 0` items, pushing `k + 1` items into an empty buffer
/// hands out exactly one item, the first one pushed.
pub proof fn lemma_one_out_after_target_plus_one<T>(k: nat, pushes: Seq<T>)
    requires
        k > 0,
        pushes.len() == k + 1,
    ensures
        emitted_after(k, pushes) == seq![pushes[0]],
        held_after(k, pushes) == pushes.drop_first(),
{
    lemma_delay_is_fifo(k, pushes);
    assert(pushes.take(1) =~= seq![pushes[0]]);
    assert(pushes.skip(1) =~= pushes.drop_first());
}

} // verus!
