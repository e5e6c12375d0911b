use vstd::prelude::*;

verus! {

/// The instant a window's timer fires: `timeout_ms` after `now_ms`, held at
/// the largest instant when the sum does not fit.
pub open spec fn deadline_after(now_ms: u64, timeout_ms: u64) -> u64 {
    if now_ms + timeout_ms > u64::MAX {
        u64::MAX
    } else {
        (now_ms + timeout_ms) as u64
    }
}

/// A batching window and its history: every item fed in, and every batch
/// handed out, in order.
pub struct WindowView<T> {
    pub chunk_size: nat,
    pub timeout_ms: u64,
    pub items: Seq<T>,
    pub deadline_ms: u64,
    pub closed: bool,
    pub fed: Seq<T>,
    pub emitted: Seq<Seq<T>>,
}

/// Groups items into batches of at most `chunk_size`. A batch leaves as soon
/// as it is full, or once `timeout_ms` has passed since its first item
/// arrived, whichever comes first; an empty window never leaves. When the
/// source ends, what is left leaves once.
pub struct ChunkWindow<T> {
    chunk_size: usize,
    timeout_ms: u64,
    items: Vec<T>,
    deadline_ms: u64,
    closed: bool,
    fed: Ghost<Seq<T>>,
    emitted: Ghost<Seq<Seq<T>>>,
}

impl<T> View for ChunkWindow<T> {
    type V = WindowView<T>;

    closed spec fn view(&self) -> WindowView<T> {
        WindowView {
            chunk_size: self.chunk_size as nat,
            timeout_ms: self.timeout_ms,
            items: self.items@,
            deadline_ms: self.deadline_ms,
            closed: self.closed,
            fed: self.fed@,
            emitted: self.emitted@,
        }
    }
}

/// Whether every batch in `batches` is non-empty and holds at most `size`
/// items.
pub open spec fn batches_bounded<T>(batches: Seq<Seq<T>>, size: nat) -> bool {
    forall|i: int| 0 <= i < batches.len() ==> 0 < #[trigger] batches[i].len() <= size
}

/// What holds of a window in every state it can reach.
pub open spec fn window_wf<T>(v: WindowView<T>) -> bool {
    &&& v.chunk_size > 0
    &&& v.items.len() < v.chunk_size
    &&& v.closed ==> v.items.len() == 0
    &&& batches_bounded(v.emitted, v.chunk_size)
    &&& v.emitted.flatten() + v.items == v.fed
}

/// The batch an operation handed out, as a sequence.
pub open spec fn batch_view<T>(r: Option<Vec<T>>) -> Option<Seq<T>> {
    match r {
        Some(b) => Some(b@),
        None => None,
    }
}

/// Adding `item` at `now_ms` to window `w` hands out `r` and leaves `after`:
/// the item that fills the window sends it out; otherwise the item waits,
/// and the first item of a window arms its timer.
pub open spec fn push_step<T>(w: WindowView<T>, item: T, now_ms: u64, r: Option<Seq<T>>, after: WindowView<T>) -> bool {
    let grown = w.items.push(item);
    &&& after.chunk_size == w.chunk_size
    &&& after.timeout_ms == w.timeout_ms
    &&& after.closed == w.closed
    &&& after.fed == w.fed.push(item)
    &&& if grown.len() == w.chunk_size {
        &&& r == Some(grown)
        &&& after.items == Seq::<T>::empty()
        &&& after.emitted == w.emitted.push(grown)
    } else {
        &&& r == None::<Seq<T>>
        &&& after.items == grown
        &&& after.emitted == w.emitted
        &&& after.deadline_ms == if w.items.len() == 0 {
            deadline_after(now_ms, w.timeout_ms)
        } else {
            w.deadline_ms
        }
    }
}

/// The timer acting at `now_ms` on window `w`: once the deadline of a
/// non-empty window has come, the window leaves as a batch.
pub open spec fn timer_step<T>(w: WindowView<T>, now_ms: u64, r: Option<Seq<T>>, after: WindowView<T>) -> bool {
    if w.items.len() > 0 && now_ms >= w.deadline_ms {
        &&& r == Some(w.items)
        &&& after == (WindowView { items: Seq::<T>::empty(), emitted: w.emitted.push(w.items), ..w })
    } else {
        r == None::<Seq<T>> && after == w
    }
}

/// The source of window `w` ending: what waits leaves once, and the window
/// closes.
pub open spec fn close_step<T>(w: WindowView<T>, r: Option<Seq<T>>, after: WindowView<T>) -> bool {
    if w.items.len() > 0 {
        &&& r == Some(w.items)
        &&& after == (WindowView {
            items: Seq::<T>::empty(),
            emitted: w.emitted.push(w.items),
            closed: true,
            ..w
        })
    } else {
        r == None::<Seq<T>> && after == (WindowView { closed: true, ..w })
    }
}

/// A window whose batches so far, joined in the order they left and followed
/// by the items still waiting, give back every item fed in, in order; and no
/// batch is empty or larger than the chunk size.
pub proof fn lemma_batches_keep_order<T>(w: &ChunkWindow<T>)
    requires
        w.wf(),
    ensures
        w@.emitted.flatten() + w@.items == w@.fed,
        forall|i: int| 0 <= i < w@.emitted.len() ==> 0 < #[trigger] w@.emitted[i].len() <= w@.chunk_size,
{
}

impl<T> ChunkWindow<T> {
    pub open spec fn wf(&self) -> bool {
        window_wf(self@)
    }

    /// An empty, open window. A chunk size of zero would never fill.
    pub fn new(chunk_size: usize, timeout_ms: u64) -> (r: ChunkWindow<T>)
        requires
            chunk_size > 0,
        ensures
            r.wf(),
            r@.chunk_size == chunk_size,
            r@.timeout_ms == timeout_ms,
            r@.items.len() == 0,
            !r@.closed,
            r@.fed.len() == 0,
            r@.emitted.len() == 0,
    {
        let r = ChunkWindow {
            chunk_size,
            timeout_ms,
            items: Vec::new(),
            deadline_ms: 0,
            closed: false,
            fed: Ghost(Seq::empty()),
            emitted: Ghost(Seq::empty()),
        };
        assert(r@.emitted.flatten() + r@.items =~= r@.fed);
        r
    }

    pub fn chunk_size(&self) -> (r: usize)
        ensures
            r == self@.chunk_size,
    {
        self.chunk_size
    }

    pub fn timeout_ms(&self) -> (r: u64)
        ensures
            r == self@.timeout_ms,
    {
        self.timeout_ms
    }

    pub fn is_closed(&self) -> (r: bool)
        ensures
            r == self@.closed,
    {
        self.closed
    }

    /// The number of items waiting in the window.
    pub fn pending(&self) -> (r: usize)
        ensures
            r == self@.items.len(),
    {
        self.items.len()
    }

    /// When the timer of the current window fires; `None` while the window
    /// is empty, since an empty window has no timer.
    pub fn deadline(&self) -> (r: Option<u64>)
        ensures
            self@.items.len() == 0 ==> r is None,
            self@.items.len() > 0 ==> r == Some(self@.deadline_ms),
    {
        if self.items.len() == 0 {
            None
        } else {
            Some(self.deadline_ms)
        }
    }

    /// Hands out the waiting items as a batch and starts an empty window.
    fn take_batch(&mut self) -> (batch: Vec<T>)
        requires
            old(self)@.chunk_size > 0,
            old(self)@.items.len() <= old(self)@.chunk_size,
            old(self)@.items.len() > 0,
            !old(self)@.closed,
            batches_bounded(old(self)@.emitted, old(self)@.chunk_size),
            old(self)@.emitted.flatten() + old(self)@.items == old(self)@.fed,
        ensures
            batch@ == old(self)@.items,
            final(self)@ == (WindowView {
                items: Seq::empty(),
                emitted: old(self)@.emitted.push(old(self)@.items),
                ..old(self)@
            }),
            window_wf(final(self)@),
    {
        let batch = self.items.split_off(0);
        assert(self.items@ =~= Seq::<T>::empty());
        let ghost before = self.emitted@;
        self.emitted = Ghost(self.emitted@.push(batch@));
        proof {
            before.lemma_flatten_push(batch@);
            assert(self@.emitted.flatten() + self@.items =~= self@.fed);
            assert(batches_bounded(self@.emitted, self@.chunk_size)) by {
                assert forall|i: int| 0 <= i < self@.emitted.len() implies 0
                    < #[trigger] self@.emitted[i].len() <= self@.chunk_size by {
                    if i < before.len() {
                        assert(self@.emitted[i] == before[i]);
                    }
                }
            }
        }
        batch
    }

    /// Adds an item that arrived at `now_ms`. The first item of a window arms
    /// its timer; the item that fills the window sends it out as a batch.
    pub fn push(&mut self, item: T, now_ms: u64) -> (r: Option<Vec<T>>)
        requires
            old(self).wf(),
            !old(self)@.closed,
        ensures
            final(self).wf(),
            push_step(old(self)@, item, now_ms, batch_view(r), final(self)@),
    {
        if self.items.len() == 0 {
            self.deadline_ms = if now_ms > u64::MAX - self.timeout_ms {
                u64::MAX
            } else {
                now_ms + self.timeout_ms
            };
        }
        let ghost items_before = self.items@;
        self.items.push(item);
        self.fed = Ghost(self.fed@.push(item));
        assert(self@.emitted.flatten() + self@.items =~= self@.fed);
        if self.items.len() == self.chunk_size {
            Some(self.take_batch())
        } else {
            None
        }
    }

    /// Lets the timer act at `now_ms`: once the deadline of a non-empty
    /// window has come, the window leaves as a batch, however small.
    pub fn poll_timer(&mut self, now_ms: u64) -> (r: Option<Vec<T>>)
        requires
            old(self).wf(),
        ensures
            final(self).wf(),
            timer_step(old(self)@, now_ms, batch_view(r), final(self)@),
    {
        if self.items.len() > 0 && now_ms >= self.deadline_ms {
            Some(self.take_batch())
        } else {
            None
        }
    }

    /// Marks the source as ended; what is left in the window leaves once.
    pub fn close(&mut self) -> (r: Option<Vec<T>>)
        requires
            old(self).wf(),
        ensures
            final(self).wf(),
            close_step(old(self)@, batch_view(r), final(self)@),
    {
        let r = if self.items.len() > 0 {
            Some(self.take_batch())
        } else {
            None
        };
        self.closed = true;
        r
    }
}

} // verus!
