use vstd::prelude::*;

verus! {

use crate::frame::{Frame, CR, FRAME_LEN, LF};

/// Reassembles a noisy byte stream into complete frames.
///
/// The framer keeps a sliding window of the last [`FRAME_LEN`] bytes
/// in a fixed ring buffer (storage plus a start index and a length).
/// Accepting a byte appends it, evicting the oldest byte first when
/// the window is already at capacity. A line feed that completes a
/// full window whose second-to-last byte is a carriage return emits
/// the window as a frame; any other line feed discards the window, so
/// the framer resynchronizes on stream noise by itself. Accepting a
/// byte cannot fail.
pub struct Framer {
    /// Fixed ring-buffer storage of [`FRAME_LEN`] slots.
    window: Vec<u8>,
    /// Index into `window` of the oldest accumulated byte.
    start: usize,
    /// Number of bytes currently accumulated.
    len: usize,
}

/// Wraps an offset into the ring storage; meant for `0 <= i < 2 * FRAME_LEN`.
pub open spec fn wrap_index(i: int) -> int {
    if i >= FRAME_LEN {
        i - FRAME_LEN
    } else {
        i
    }
}

/// The sliding window after one more byte: the byte is appended, and
/// the oldest byte is evicted first when the window is already full.
pub open spec fn window_after(w: Seq<u8>, b: u8) -> Seq<u8> {
    if w.len() >= FRAME_LEN {
        w.subrange(1, w.len() as int).push(b)
    } else {
        w.push(b)
    }
}

/// Whether accepting `b` completes a frame: `b` is a line feed, the
/// window is then exactly full, and the byte just before the line
/// feed is a carriage return.
pub open spec fn emits(w: Seq<u8>, b: u8) -> bool {
    &&& b == LF
    &&& window_after(w, b).len() == FRAME_LEN
    &&& window_after(w, b)[FRAME_LEN - 2] == CR
}

/// One step of the framer on byte `b`: the window after the step, and
/// the frame emitted by the step, if any.
pub open spec fn step(w: Seq<u8>, b: u8) -> (Seq<u8>, Option<Seq<u8>>) {
    if emits(w, b) {
        (Seq::empty(), Some(window_after(w, b)))
    } else if b == LF {
        (Seq::empty(), None)
    } else {
        (window_after(w, b), None)
    }
}

/// The framer run over a whole input, byte by byte: the final window
/// and the frames emitted, in order.
pub open spec fn run(w: Seq<u8>, input: Seq<u8>) -> (Seq<u8>, Seq<Seq<u8>>)
    decreases input.len(),
{
    if input.len() == 0 {
        (w, Seq::empty())
    } else {
        let first = step(w, input[0]);
        let rest = run(first.0, input.subrange(1, input.len() as int));
        match first.1 {
            Some(f) => (rest.0, seq![f] + rest.1),
            None => (rest.0, rest.1),
        }
    }
}

impl View for Framer {
    type V = Seq<u8>;

    /// The bytes currently accumulated, oldest first.
    closed spec fn view(&self) -> Seq<u8> {
        Seq::new(self.len as nat, |i: int| self.window@[wrap_index(self.start + i)])
    }
}

impl Framer {
    /// The ring buffer's storage is fixed and its indices stay in bounds.
    pub closed spec fn wf(&self) -> bool {
        &&& self.window@.len() == FRAME_LEN
        &&& self.start < FRAME_LEN
        &&& self.len <= FRAME_LEN
    }

    /// A fresh framer holds nothing.
    pub fn new() -> (r: Framer)
        ensures
            r.wf(),
            r@ == Seq::<u8>::empty(),
    {
        let mut window: Vec<u8> = Vec::new();
        let mut i: usize = 0;
        while i < FRAME_LEN
            invariant
                i <= FRAME_LEN,
                window@.len() == i,
            decreases FRAME_LEN - i,
        {
            window.push(0);
            i += 1;
        }
        let r = Framer { window, start: 0, len: 0 };
        proof {
            assert(r@ =~= Seq::<u8>::empty());
        }
        r
    }

    /// Accepts one byte of the stream.
    ///
    /// Returns the completed frame exactly when the byte completes
    /// one; resets without emitting on any other line feed; otherwise
    /// only accumulates. This operation cannot fail.
    pub fn push(&mut self, b: u8) -> (r: Option<Frame>)
        requires
            old(self).wf(),
        ensures
            final(self).wf(),
            emits(old(self)@, b) ==> {
                &&& r matches Some(f) && f.wf() && f@ == window_after(old(self)@, b)
                &&& final(self)@ == Seq::<u8>::empty()
            },
            !emits(old(self)@, b) && b == LF ==> r is None && final(self)@ == Seq::<u8>::empty(),
            b != LF ==> r is None && final(self)@ == window_after(old(self)@, b),
            final(self)@ == step(old(self)@, b).0,
            (match r {
                Some(f) => step(old(self)@, b).1 == Some(f@),
                None => step(old(self)@, b).1 is None,
            }),
    {
        let ghost w0 = self@;
        let prev_is_cr = self.len > 0 && self.window[wrap(self.start + self.len - 1)] == CR;
        proof {
            assert(prev_is_cr == (w0.len() > 0 && w0[w0.len() - 1] == CR));
        }
        if self.len == FRAME_LEN {
            self.start = wrap(self.start + 1);
            self.len = FRAME_LEN - 1;
            proof {
                assert(self@ =~= w0.subrange(1, w0.len() as int));
            }
        }
        let idx = wrap(self.start + self.len);
        self.window.set(idx, b);
        self.len = self.len + 1;
        proof {
            assert(self@ =~= window_after(w0, b));
        }
        if b == LF {
            if prev_is_cr && self.len == FRAME_LEN {
                proof {
                    assert(emits(w0, b));
                }
                let mut out: Vec<u8> = Vec::new();
                let mut i: usize = 0;
                while i < FRAME_LEN
                    invariant
                        self.wf(),
                        self.len == FRAME_LEN,
                        i <= FRAME_LEN,
                        out@ =~= self@.subrange(0, i as int),
                    decreases FRAME_LEN - i,
                {
                    let byte = self.window[wrap(self.start + i)];
                    proof {
                        assert(byte == self@[i as int]);
                    }
                    out.push(byte);
                    proof {
                        assert(out@ =~= self@.subrange(0, i + 1 as int));
                    }
                    i += 1;
                }
                proof {
                    assert(out@ =~= self@);
                }
                let emitted = Frame::from_bytes(out);
                self.start = 0;
                self.len = 0;
                proof {
                    assert(self@ =~= Seq::<u8>::empty());
                }
                Some(emitted)
            } else {
                proof {
                    assert(!emits(w0, b));
                }
                self.start = 0;
                self.len = 0;
                proof {
                    assert(self@ =~= Seq::<u8>::empty());
                }
                None
            }
        } else {
            None
        }
    }
}

/// Running the framer over `a + b` is running it over `a` and then,
/// from the window `a` leaves, over `b`; the emitted frames follow in
/// the same order.
pub proof fn lemma_run_append(w: Seq<u8>, a: Seq<u8>, b: Seq<u8>)
    ensures
        run(w, a + b).0 == run(run(w, a).0, b).0,
        run(w, a + b).1 == run(w, a).1 + run(run(w, a).0, b).1,
    decreases a.len(),
{
    if a.len() == 0 {
        assert(a + b =~= b);
        assert(run(w, a).1 + run(run(w, a).0, b).1 =~= run(w, b).1);
    } else {
        let first = step(w, a[0]);
        assert((a + b)[0] == a[0]);
        assert((a + b).subrange(1, (a + b).len() as int) =~= a.subrange(1, a.len() as int) + b);
        lemma_run_append(first.0, a.subrange(1, a.len() as int), b);
        match first.1 {
            Some(f) => {
                assert(seq![f] + (run(first.0, a.subrange(1, a.len() as int)).1 + run(
                    run(w, a).0,
                    b,
                ).1) =~= (seq![f] + run(first.0, a.subrange(1, a.len() as int)).1) + run(
                    run(w, a).0,
                    b,
                ).1);
            },
            None => {},
        }
    }
}

/// Bytes that are not line feeds only accumulate: as long as the
/// window does not overflow, the framer emits nothing and keeps every
/// byte in order.
pub proof fn lemma_accumulate_no_emit(w: Seq<u8>, s: Seq<u8>)
    requires
        w.len() + s.len() <= FRAME_LEN,
        forall|i: int| 0 <= i < s.len() ==> s[i] != LF,
    ensures
        run(w, s) == (w + s, Seq::<Seq<u8>>::empty()),
    decreases s.len(),
{
    if s.len() == 0 {
        assert(w + s =~= w);
    } else {
        let b = s[0];
        assert(b != LF);
        assert(!emits(w, b));
        assert(window_after(w, b) == w.push(b));
        lemma_accumulate_no_emit(w.push(b), s.subrange(1, s.len() as int));
        assert(w.push(b) + s.subrange(1, s.len() as int) =~= w + s);
    }
}

/// A well-terminated frame fed to a fresh framer comes out whole: the
/// fourteen bytes of a frame ending in a carriage return and a line
/// feed, whose first twelve bytes hold no line feed, yield exactly one
/// emitted frame, equal to the input, on the last byte — and none for
/// any earlier byte.
pub proof fn lemma_clean_frame_emitted(s: Seq<u8>)
    requires
        s.len() == FRAME_LEN,
        s[FRAME_LEN - 2] == CR,
        s[FRAME_LEN - 1] == LF,
        forall|i: int| 0 <= i < FRAME_LEN - 2 ==> s[i] != LF,
    ensures
        run(Seq::empty(), s) == (Seq::<u8>::empty(), seq![s]),
        forall|k: int|
            0 <= k < FRAME_LEN ==> run(Seq::empty(), s.subrange(0, k)).1 == Seq::<Seq<
                u8,
            >>::empty(),
{
    let prefix = s.subrange(0, FRAME_LEN - 1);
    let last = s.subrange(FRAME_LEN - 1, FRAME_LEN as int);
    assert(forall|i: int| 0 <= i < prefix.len() ==> prefix[i] != LF);
    lemma_accumulate_no_emit(Seq::empty(), prefix);
    assert(Seq::empty() + prefix =~= prefix);
    assert(prefix + last =~= s);
    lemma_run_append(Seq::empty(), prefix, last);
    let b = last[0];
    assert(b == LF);
    assert(window_after(prefix, b) =~= s);
    assert(emits(prefix, b));
    assert(last.subrange(1, 1) =~= Seq::<u8>::empty());
    assert(run(step(prefix, b).0, last.subrange(1, 1)).1 == Seq::<Seq<u8>>::empty());
    assert(run(step(prefix, b).0, last.subrange(1, 1)).0 =~= Seq::<u8>::empty());
    assert(run(prefix, last).1 =~= seq![s] + Seq::<Seq<u8>>::empty());
    assert(seq![s] + Seq::<Seq<u8>>::empty() =~= seq![s]);
    assert(run(prefix, last).0 =~= Seq::<u8>::empty());
    assert(run(Seq::empty(), s).1 =~= seq![s]);
    assert(run(Seq::empty(), s).0 =~= Seq::<u8>::empty());
    assert(run(Seq::empty(), s) == (Seq::<u8>::empty(), seq![s]));
    assert forall|k: int| 0 <= k < FRAME_LEN implies run(Seq::empty(), s.subrange(0, k)).1
        == Seq::<Seq<u8>>::empty() by {
        let p = s.subrange(0, k);
        assert(forall|i: int| 0 <= i < p.len() ==> p[i] != LF);
        lemma_accumulate_no_emit(Seq::empty(), p);
    }
}

/// A spurious line feed — one that does not complete a full, properly
/// terminated window — resets the framer without emitting, and a
/// following well-terminated frame still comes out whole: the framer
/// resynchronizes.
pub proof fn lemma_resynchronization(w: Seq<u8>, s: Seq<u8>)
    requires
        !emits(w, LF),
        s.len() == FRAME_LEN,
        s[FRAME_LEN - 2] == CR,
        s[FRAME_LEN - 1] == LF,
        forall|i: int| 0 <= i < FRAME_LEN - 2 ==> s[i] != LF,
    ensures
        run(w, seq![LF]).1 == Seq::<Seq<u8>>::empty(),
        run(w, seq![LF] + s) == (Seq::<u8>::empty(), seq![s]),
{
    let noise = seq![LF];
    assert(noise[0] == LF);
    assert(step(w, LF).0 == Seq::<u8>::empty());
    assert(step(w, LF).1 is None);
    assert(noise.subrange(1, 1) =~= Seq::<u8>::empty());
    assert(run(step(w, LF).0, noise.subrange(1, 1)).0 =~= Seq::<u8>::empty());
    assert(run(step(w, LF).0, noise.subrange(1, 1)).1 == Seq::<Seq<u8>>::empty());
    assert(run(w, noise).0 =~= Seq::<u8>::empty());
    assert(run(w, noise).1 =~= Seq::<Seq<u8>>::empty());
    lemma_run_append(w, noise, s);
    lemma_clean_frame_emitted(s);
    assert(run(w, noise + s).1 =~= seq![s]);
}

/// Wraps an offset into the ring storage.
fn wrap(i: usize) -> (r: usize)
    requires
        i < 2 * FRAME_LEN,
    ensures
        r == wrap_index(i as int),
{
    if i >= FRAME_LEN {
        i - FRAME_LEN
    } else {
        i
    }
}

} // verus!
