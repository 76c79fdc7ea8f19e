use vstd::prelude::*;

verus! {

/// Mathematical model of a fill pattern: what a buffer filled with it holds.
pub enum PatternModel {
    Zeros,
    Ones,
    Random,
    Custom(Seq<u8>),
}

impl PatternModel {
    /// A custom pattern must carry at least one byte.
    pub open spec fn wf(self) -> bool {
        match self {
            PatternModel::Custom(p) => p.len() > 0,
            _ => true,
        }
    }

    /// The byte a deterministic pattern puts at position `i` of a buffer.
    pub open spec fn byte_at(self, i: int) -> u8 {
        match self {
            PatternModel::Zeros => 0x00,
            PatternModel::Ones => 0xFF,
            PatternModel::Random => 0x00,
            PatternModel::Custom(p) => p[i % (p.len() as int)],
        }
    }

    /// The first `n` bytes of the pattern repeated end to end.
    pub open spec fn tiled(self, n: nat) -> Seq<u8> {
        Seq::new(n, |i: int| self.byte_at(i))
    }

    /// `buf` is a possible outcome of filling a buffer of length `n` with this pattern:
    /// any bytes for `Random`, exactly the tiled pattern otherwise.
    pub open spec fn is_fill(self, buf: Seq<u8>, n: nat) -> bool {
        &&& buf.len() == n
        &&& (self is Random || buf == self.tiled(n))
    }

    /// What `verify_buffer` reports: `Random` always passes, any other pattern
    /// passes when every byte equals the tiled pattern.
    pub open spec fn matches(self, buf: Seq<u8>) -> bool {
        self is Random || forall|i: int| 0 <= i < buf.len() ==> buf[i] == #[trigger] self.byte_at(i)
    }
}

/// Filling a buffer with a pattern and then verifying it against the same pattern
/// always succeeds, whatever the buffer's length.
pub proof fn lemma_fill_then_verify(p: PatternModel, buf: Seq<u8>, n: nat)
    requires
        p.wf(),
        p.is_fill(buf, n),
    ensures
        p.matches(buf),
{
}

/// A pattern used to overwrite data.
#[derive(Debug)]
pub enum WipePattern {
    /// every byte 0x00
    Zeros,
    /// every byte 0xFF
    Ones,
    /// bytes from a cryptographically secure generator
    Random,
    /// the given bytes repeated end to end
    Custom(Vec<u8>),
}

impl View for WipePattern {
    type V = PatternModel;

    open spec fn view(&self) -> PatternModel {
        match self {
            WipePattern::Zeros => PatternModel::Zeros,
            WipePattern::Ones => PatternModel::Ones,
            WipePattern::Random => PatternModel::Random,
            WipePattern::Custom(p) => PatternModel::Custom(p@),
        }
    }
}

impl Clone for WipePattern {
    fn clone(&self) -> (r: Self)
        ensures
            r@ == self@,
    {
        match self {
            WipePattern::Zeros => WipePattern::Zeros,
            WipePattern::Ones => WipePattern::Ones,
            WipePattern::Random => WipePattern::Random,
            WipePattern::Custom(p) => WipePattern::Custom(p.clone()),
        }
    }
}

/// Relies on `rand::thread_rng` and `rand::RngCore::fill_bytes`: the slice is
/// overwritten in place with generator output and keeps its length.
#[verifier::external_body]
fn fill_random(buffer: &mut [u8])
    ensures
        final(buffer)@.len() == old(buffer)@.len(),
{
    rand::RngCore::fill_bytes(&mut rand::thread_rng(), buffer)
}

impl WipePattern {
    /// Fills `buffer` with the pattern, repeating it end to end; a custom
    /// pattern's last repetition is cut to the bytes that remain.
    pub fn fill_buffer(&self, buffer: &mut [u8])
        requires
            self@.wf(),
        ensures
            self@.is_fill(final(buffer)@, old(buffer)@.len()),
    {
        match self {
            WipePattern::Random => fill_random(buffer),
            _ => {
                let n = buffer.len();
                let mut i: usize = 0;
                while i < n
                    invariant
                        self@.wf(),
                        !(self@ is Random),
                        n == buffer@.len(),
                        n == old(buffer)@.len(),
                        i <= n,
                        forall|j: int| 0 <= j < i ==> buffer@[j] == #[trigger] self@.byte_at(j),
                    decreases n - i,
                {
                    let b = self.byte_at(i);
                    buffer[i] = b;
                    i = i + 1;
                }
                assert(buffer@ =~= self@.tiled(n as nat));
            }
        }
    }

    /// The byte the pattern puts at position `i` (not meaningful for `Random`).
    fn byte_at(&self, i: usize) -> (r: u8)
        requires
            self@.wf(),
        ensures
            r == self@.byte_at(i as int),
    {
        match self {
            WipePattern::Zeros => 0x00,
            WipePattern::Ones => 0xFF,
            WipePattern::Random => 0x00,
            WipePattern::Custom(p) => p[i % p.len()],
        }
    }

    /// Reports whether `buffer` holds the pattern repeated end to end; a `Random`
    /// pattern cannot be checked and always passes.
    pub fn verify_buffer(&self, buffer: &[u8]) -> (r: bool)
        requires
            self@.wf(),
        ensures
            r == self@.matches(buffer@),
    {
        match self {
            WipePattern::Random => true,
            _ => {
                let n = buffer.len();
                let mut i: usize = 0;
                while i < n
                    invariant
                        self@.wf(),
                        !(self@ is Random),
                        n == buffer@.len(),
                        i <= n,
                        forall|j: int| 0 <= j < i ==> buffer@[j] == #[trigger] self@.byte_at(j),
                    decreases n - i,
                {
                    if buffer[i] != self.byte_at(i) {
                        return false;
                    }
                    i = i + 1;
                }
                true
            }
        }
    }
}

} // verus!
