//! The bookkeeping of a copy between an image and a device: how much to move
//! next, where it lands, when the copy is done, and when a progress line is
//! due.
use vstd::prelude::*;

verus! {

/// A progress line is due whenever the running total passes a multiple of
/// 10 MiB.
pub open spec fn progress_step() -> nat {
    10 * 1024 * 1024
}

/// The running total `x` is a multiple of the progress step.
pub open spec fn is_progress_mark(x: nat) -> bool {
    x % progress_step() == 0
}

/// What a transfer has moved and has left to move.
pub ghost struct TransferView {
    /// The bytes the copy is to move.
    pub target: nat,
    /// The bytes moved so far; the next chunk lands at this offset.
    pub done: nat,
    /// The largest chunk moved at once (the buffer size).
    pub chunk: nat,
}

/// What a read of the next chunk leads to.
#[derive(Debug, Clone, Copy, PartialEq, Eq, Structural)]
pub enum Step {
    /// The read returned nothing: the source has ended and the copy stops.
    SourceEnded,
    /// The bytes were moved; says whether the running total passed a
    /// progress mark and whether the copy is now complete.
    Moved { passed_mark: bool, complete: bool },
}

/// A copy of `target` bytes in chunks of at most `chunk` bytes, each landing
/// right after the one before.
pub struct Transfer {
    target: u64,
    done: u64,
    chunk: u64,
}

impl View for Transfer {
    type V = TransferView;

    closed spec fn view(&self) -> TransferView {
        TransferView { target: self.target as nat, done: self.done as nat, chunk: self.chunk as nat }
    }
}

impl Transfer {
    #[verifier::type_invariant]
    spec fn inv(self) -> bool {
        &&& self.done <= self.target
        &&& self.chunk > 0
    }

    /// A transfer of `target` bytes that has moved nothing yet.
    pub fn new(target: u64, chunk: u64) -> (r: Self)
        requires
            chunk > 0,
        ensures
            r@ == (TransferView { target: target as nat, done: 0, chunk: chunk as nat }),
    {
        Transfer { target, done: 0, chunk }
    }

    /// The bytes the copy is to move.
    pub fn target(&self) -> (r: u64)
        ensures
            r == self@.target,
    {
        self.target
    }

    /// The largest chunk moved at once: the size of the copy buffer.
    pub fn chunk_len(&self) -> (r: u64)
        ensures
            r == self@.chunk,
            r > 0,
    {
        proof {
            use_type_invariant(self);
        }
        self.chunk
    }

    /// The bytes moved so far, which is where the next chunk lands.
    pub fn offset(&self) -> (r: u64)
        ensures
            r == self@.done,
            r <= self@.target,
    {
        proof {
            use_type_invariant(self);
        }
        self.done
    }

    /// Whether every byte has been moved (the copy loop runs while this is
    /// false).
    pub fn is_complete(&self) -> (r: bool)
        ensures
            r == (self@.done >= self@.target),
            self@.done <= self@.target,
            self@.chunk > 0,
    {
        proof {
            use_type_invariant(self);
        }
        self.done >= self.target
    }

    /// The size of the next chunk: a full buffer, or what is left when that
    /// is less.
    pub fn next_len(&self) -> (r: u64)
        ensures
            r as nat == if self@.chunk <= self@.target - self@.done {
                self@.chunk
            } else {
                (self@.target - self@.done) as nat
            },
            self@.done < self@.target ==> r > 0,
    {
        proof {
            use_type_invariant(self);
        }
        let remaining = self.target - self.done;
        if self.chunk <= remaining {
            self.chunk
        } else {
            remaining
        }
    }

    /// Records that the next `n` bytes have been moved; says whether the
    /// running total passed a progress mark, as the copy loops compute it
    /// (`total % 10 MiB < n`).
    pub fn record(&mut self, n: u64) -> (passed_mark: bool)
        requires
            n <= old(self)@.chunk,
            old(self)@.done + n <= old(self)@.target,
        ensures
            final(self)@ == (TransferView { done: old(self)@.done + n as nat, ..old(self)@ }),
            passed_mark == ((old(self)@.done + n as nat) % progress_step() < n),
    {
        proof {
            use_type_invariant(&*self);
        }
        self.done = self.done + n;
        self.done % (10 * 1024 * 1024) < n
    }

    /// Takes the result of reading the next chunk, `n` bytes: a read of
    /// nothing ends the copy and changes nothing; otherwise the bytes are
    /// recorded as moved.
    pub fn advance(&mut self, n: u64) -> (r: Step)
        requires
            n <= old(self)@.chunk,
            old(self)@.done + n <= old(self)@.target,
        ensures
            n == 0 ==> r == Step::SourceEnded && final(self)@ == old(self)@,
            n > 0 ==> final(self)@ == (TransferView { done: old(self)@.done + n as nat, ..old(self)@ })
                && r == (Step::Moved {
                passed_mark: (old(self)@.done + n as nat) % progress_step() < n,
                complete: old(self)@.done + n >= old(self)@.target,
            }),
    {
        if n == 0 {
            return Step::SourceEnded;
        }
        let passed_mark = self.record(n);
        let complete = self.is_complete();
        Step::Moved { passed_mark, complete }
    }
}

/// The progress rule passes a mark exactly when a multiple of 10 MiB lies in
/// the stretch that a chunk covers: the total before it (excluded) up to the
/// total after it (included).
pub proof fn lemma_progress_mark(before: nat, n: nat)
    ensures
        ((before + n) % progress_step() < n) <==> exists|x: nat|
            before < x <= before + n && #[trigger] is_progress_mark(x),
{
    let m = progress_step() as int;
    let a = (before + n) as int;
    let q = a / m;
    let r = a % m;
    assert(a == q * m + r && 0 <= r < m) by {
        vstd::arithmetic::div_mod::lemma_fundamental_div_mod(a, m);
    }
    if r < n {
        let x = (q * m) as nat;
        assert(q >= 0) by {
            vstd::arithmetic::div_mod::lemma_div_pos_is_pos(a, m);
        }
        assert((q * m) % m == 0) by {
            vstd::arithmetic::div_mod::lemma_mod_multiples_basic(q, m);
        }
        assert(is_progress_mark(x));
    }
    if exists|x: nat| before < x <= before + n && #[trigger] is_progress_mark(x) {
        let x = choose|x: nat| before < x <= before + n && #[trigger] is_progress_mark(x);
        let k = x as int / m;
        assert(x as int == k * m) by {
            vstd::arithmetic::div_mod::lemma_fundamental_div_mod(x as int, m);
        }
        assert(k <= q) by {
            vstd::arithmetic::div_mod::lemma_div_is_ordered(x as int, a, m);
        }
        assert(k * m <= q * m) by {
            vstd::arithmetic::mul::lemma_mul_inequality(k, q, m);
        }
    }
}

} // verus!
