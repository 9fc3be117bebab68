use vstd::prelude::*;

verus! {

/// Number of samples over which the pitch voltage is averaged.
pub const AVG_BUF_SIZE: usize = 32;

/// Sum of a sequence of raw samples.
pub open spec fn sum(s: Seq<u16>) -> nat
    decreases s.len(),
{
    if s.len() == 0 {
        0
    } else {
        sum(s.drop_last()) + s.last() as nat
    }
}

/// Integer-floor mean of a window of `AVG_BUF_SIZE` samples.
pub open spec fn mean(s: Seq<u16>) -> nat {
    sum(s) / (AVG_BUF_SIZE as nat)
}

/// Integer-floor arithmetic mean of a full averaging buffer.
pub fn avg(buf: &mut [u16; AVG_BUF_SIZE]) -> (r: u32)
    ensures
        *final(buf) == *old(buf),
        r as nat == mean(old(buf)@),
{
    let mut acc: u32 = 0;
    let mut i: usize = 0;
    while i < AVG_BUF_SIZE
        invariant
            i <= AVG_BUF_SIZE,
            *buf == *old(buf),
            acc as nat == sum(buf@.subrange(0, i as int)),
            acc <= 65535 * i,
        decreases AVG_BUF_SIZE - i,
    {
        proof {
            assert(buf@.subrange(0, i + 1).drop_last() == buf@.subrange(0, i as int));
        }
        acc = acc + buf[i] as u32;
        i = i + 1;
    }
    proof {
        assert(buf@.subrange(0, AVG_BUF_SIZE as int) == buf@);
    }
    acc / (AVG_BUF_SIZE as u32)
}

/// The last `AVG_BUF_SIZE` values of `h`, oldest first, where a history
/// shorter than the buffer is preceded by the zeros the buffer starts with.
pub open spec fn recent(h: Seq<u16>) -> Seq<u16> {
    let padded = Seq::new(AVG_BUF_SIZE as nat, |k: int| 0u16) + h;
    padded.subrange(h.len() as int, h.len() + AVG_BUF_SIZE)
}

/// Once at least `AVG_BUF_SIZE` samples have been taken, the window that the
/// filter averages is exactly the last `AVG_BUF_SIZE` of them, in order.
pub proof fn lemma_recent_is_latest_samples(h: Seq<u16>)
    requires
        h.len() >= AVG_BUF_SIZE,
    ensures
        recent(h) == h.subrange(h.len() - AVG_BUF_SIZE, h.len() as int),
{
    let padded = Seq::new(AVG_BUF_SIZE as nat, |k: int| 0u16) + h;
    assert(recent(h) =~= h.subrange(h.len() - AVG_BUF_SIZE, h.len() as int)) by {
        assert forall|k: int| 0 <= k < AVG_BUF_SIZE implies #[trigger] recent(h)[k] == h[h.len()
            - AVG_BUF_SIZE + k] by {
            assert(padded[h.len() + k] == h[h.len() + k - AVG_BUF_SIZE]);
        }
    }
}

/// State of the voltage sampling task: a circular buffer of raw samples and
/// the position at which the next one is stored.
pub struct Sampler {
    buf: [u16; AVG_BUF_SIZE],
    index: usize,
    history: Ghost<Seq<u16>>,
}

impl Sampler {
    /// Every sample stored so far, oldest first.
    pub closed spec fn history(&self) -> Seq<u16> {
        self.history@
    }

    pub closed spec fn wf(&self) -> bool {
        &&& self.index < AVG_BUF_SIZE
        &&& self.index == self.history@.len() % (AVG_BUF_SIZE as nat)
        &&& forall|k: int|
            0 <= k < AVG_BUF_SIZE ==> #[trigger] recent(self.history@)[k] == self.buf@[(
            self.index + k) % (AVG_BUF_SIZE as int)]
    }

    /// A sampler with an all-zero buffer and no samples taken.
    pub fn new() -> (r: Sampler)
        ensures
            r.wf(),
            r.history() == Seq::<u16>::empty(),
    {
        let r = Sampler { buf: [0u16; AVG_BUF_SIZE], index: 0, history: Ghost(Seq::empty()) };
        proof {
            assert forall|k: int| 0 <= k < AVG_BUF_SIZE implies #[trigger] recent(
                r.history@,
            )[k] == r.buf@[(r.index + k) % (AVG_BUF_SIZE as int)] by {
                assert(r.buf@[k] == 0);
            }
        }
        r
    }

    /// Stores one raw sample. Each time the buffer has been filled through
    /// once more, returns the floor of the mean of the most recent
    /// `AVG_BUF_SIZE` samples.
    pub fn push(&mut self, sample: u16) -> (r: Option<u32>)
        requires
            old(self).wf(),
        ensures
            final(self).wf(),
            final(self).history() == old(self).history().push(sample),
            r == if final(self).history().len() % (AVG_BUF_SIZE as nat) == 0 {
                Some(mean(recent(final(self).history())) as u32)
            } else {
                None::<u32>
            },
    {
        let ghost h0 = self.history@;
        let ghost b0 = self.buf@;
        let ghost i0 = self.index as int;
        let ghost h1 = h0.push(sample);
        let ghost n = AVG_BUF_SIZE as int;
        self.buf[self.index] = sample;
        self.index = (self.index + 1) % AVG_BUF_SIZE;
        self.history = Ghost(h1);
        proof {
            let p0 = Seq::new(AVG_BUF_SIZE as nat, |k: int| 0u16) + h0;
            let p1 = Seq::new(AVG_BUF_SIZE as nat, |k: int| 0u16) + h1;
            assert(p1 == p0.push(sample));
            assert forall|k: int| 0 <= k < n implies #[trigger] recent(h1)[k] == self.buf@[(
            self.index + k) % n] by {
                if k < n - 1 {
                    assert(recent(h1)[k] == recent(h0)[k + 1]);
                    assert((self.index + k) % n == (i0 + (k + 1)) % n);
                    assert((i0 + (k + 1)) % n != i0);
                } else {
                    assert((self.index + k) % n == i0);
                }
            }
        }
        if self.index == 0 {
            proof {
                assert(self.buf@ =~= recent(h1)) by {
                    assert forall|k: int| 0 <= k < n implies #[trigger] self.buf@[k] == recent(
                        h1,
                    )[k] by {
                        assert((self.index + k) % n == k);
                    }
                }
            }
            Some(avg(&mut self.buf))
        } else {
            None
        }
    }
}

} // verus!
