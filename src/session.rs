use vstd::prelude::*;
use crate::plan::{build_plan, has_overwrite, overwrites, plan_model, step_models, steps_wf, Step, StepModel};
use crate::text::{decimal, with_decimal};
use crate::standards::{SanitizationMethod, VerificationLevel, WipeStandard};
use crate::{optimal_buffer_size, Shredder, WipeError};

verus! {

/// Whether a wipe under `s` first tries a hardware secure erase.
pub open spec fn erase_wanted(s: Shredder) -> bool {
    &&& s.standard() is Modern
    &&& s.standard()->Modern_0.method is Purge
    &&& s.storage_type().secure_erase_supported()
}

/// Where a wipe stands: the operation whose outcome the session waits for.
#[derive(Debug, Clone, Copy, PartialEq, Eq, Structural)]
pub enum Stage {
    /// the file is being opened for reading and writing
    Opening,
    /// its length is being read
    Sizing,
    /// a TRIM hint is being sent
    Trimming,
    /// a hardware secure erase is being attempted
    Erasing,
    /// `len` bytes at `offset` are being written, flushed and read back
    Writing { offset: u64, len: usize },
    /// the pass just written is being flushed and synced
    Syncing,
    /// a random pattern-aligned sample at `offset` is being read; `left`
    /// samples remain, this one included
    Sampling { left: u64, offset: u64 },
    /// the pattern-length block at `offset` is being read
    Scanning { offset: u64 },
    /// every step has run; the file is being synced before removal
    Committing,
    /// the file is being removed
    Removing,
    /// the wipe is over
    Finished,
}

/// The outcome of the operation a session asked for.
#[derive(Debug)]
pub enum WipeEvent {
    /// it succeeded and returns nothing
    Done,
    /// the file's length in bytes
    Size(u64),
    /// the bytes read
    Data(Vec<u8>),
    /// a read reached the end of the file before it was filled
    ShortRead(WipeError),
    /// it failed
    Failed(WipeError),
}

/// The operation a session asks its caller to perform next.
#[derive(Debug)]
pub enum WipeAction {
    /// open the file for reading and writing
    Open,
    /// read the open file's length; answer `Size`
    QuerySize,
    /// send the device a TRIM hint for the file
    Trim,
    /// run the device's hardware secure erase on the file's path
    SecureErase,
    /// write the first `len` bytes of `write_buffer()` at `offset`, flush, then
    /// read the same range back; answer `Data` with what was read
    Write { offset: u64, len: usize },
    /// flush and sync the file to the medium
    Sync,
    /// read exactly `len` bytes at `offset`; answer `Data` or `ShortRead`
    Read { offset: u64, len: usize },
    /// close the file and remove it
    Remove,
    /// stop: the wipe is over with this result
    Finish(Result<(), WipeError>),
}

/// `n` bytes of `p` repeated end to end.
pub open spec fn tile(p: Seq<u8>, n: nat) -> Seq<u8> {
    Seq::new(n, |i: int| p[i % (p.len() as int)])
}

/// The smaller of `a` and `b`.
pub open spec fn min(a: int, b: int) -> int {
    if a < b {
        a
    } else {
        b
    }
}

/// Number of random samples Basic verification reads from a file of `size` bytes.
pub open spec fn sample_count(size: u64) -> int {
    if (size as int) / 100 < 1 {
        1
    } else {
        size as int / 100
    }
}

/// `n` zero bytes.
pub open spec fn zeros(n: nat) -> Seq<u8> {
    Seq::new(n, |i: int| 0u8)
}

/// Start of the error message of a chunk that did not read back as written.
pub const WRITE_MISMATCH: &'static str = "Immediate verification failed at offset ";

/// Start of the error message of a Basic sample that did not match.
pub const SAMPLE_MISMATCH: &'static str = "Pattern mismatch at offset ";

/// Start of the error message of a Full block that did not match.
pub const SCAN_MISMATCH: &'static str = "Pattern mismatch during full verification at offset ";

/// Model of a [`WipeSession`].
pub struct SessionView {
    pub shredder: Shredder,
    pub stage: Stage,
    /// the file's length, once read
    pub size: u64,
    /// whether the length is known and the buffers are sized for it
    pub sized: bool,
    /// whether the steps to run are fixed
    pub planned: bool,
    /// whether a hardware secure erase succeeded
    pub erased: bool,
    pub plan: Seq<StepModel>,
    /// index in `plan` of the step under way
    pub step: int,
    /// the buffer the last pass started was generated into (zeros before any)
    pub pattern: Seq<u8>,
    /// the buffer chunks are written from
    pub chunk: Seq<u8>,
    /// index in `plan` of the last pass started, or -1
    pub last_pass: int,
}

impl SessionView {
    /// The step under way, if any.
    pub open spec fn current(self) -> StepModel {
        self.plan[self.step]
    }

    /// Bytes the Full check reads at `offset`: a pattern length, or what is
    /// left of the file.
    pub open spec fn scan_len(self, offset: u64) -> int {
        min(self.pattern.len() as int, self.size - offset)
    }

    /// What holds of a session in every stage.
    pub open spec fn inv(self) -> bool {
        self.base() && self.stage_ok()
    }

    /// What holds whatever the stage.
    pub open spec fn base(self) -> bool {
        &&& self.shredder.wf()
        &&& self.erased ==> erase_wanted(self.shredder)
        &&& self.planned ==> {
            &&& self.plan == plan_model(self.shredder.standard(), self.erased)
            &&& 0 <= self.step <= self.plan.len()
        }
        &&& self.sized ==> {
            &&& self.pattern.len() == optimal_buffer_size(self.size)
            &&& self.chunk.len() == self.shredder.buffer_size()
        }
        &&& self.planned ==> self.sized
        &&& !self.planned ==> !self.erased
        &&& self.pass_buffer_ok()
    }

    /// `pattern` holds what the last pass started was generated into, and
    /// only checks came after that pass; before any pass it is all zeros.
    pub open spec fn pass_buffer_ok(self) -> bool {
        &&& -1 <= self.last_pass
        &&& self.last_pass == -1 ==> self.pattern == zeros(self.pattern.len())
        &&& !self.planned ==> self.last_pass == -1
        &&& self.planned && self.last_pass >= 0 ==> {
            &&& self.last_pass <= self.step
            &&& self.last_pass < self.plan.len()
            &&& self.plan[self.last_pass] is Overwrite
            &&& self.plan[self.last_pass]->Overwrite_0.is_fill(self.pattern, self.pattern.len())
        }
        &&& self.planned ==> forall|k: int|
            self.last_pass < k < self.step ==> (#[trigger] self.plan[k]) is Verify
    }

    /// Some content is destroyed before removal: a hardware erase succeeded,
    /// the file is empty, or the plan overwrites it.
    pub open spec fn destroys(self) -> bool {
        self.erased || self.size == 0 || overwrites(self.plan)
    }

    /// What holds of the stage the session is in.
    pub open spec fn stage_ok(self) -> bool {
        &&& (self.stage is Opening || self.stage is Sizing) ==> !self.sized
        &&& (self.stage is Trimming || self.stage is Erasing) ==> self.sized && !self.planned
        &&& self.stage is Erasing ==> erase_wanted(self.shredder)
        &&& (self.stage is Writing || self.stage is Syncing || self.stage is Sampling
            || self.stage is Scanning || self.stage is Committing || self.stage is Removing)
            ==> self.planned && self.destroys()
        &&& match self.stage {
            Stage::Writing { offset, len } => {
                &&& self.step < self.plan.len()
                &&& self.current() is Overwrite
                &&& self.last_pass == self.step
                &&& self.pattern.len() > 0
                &&& self.chunk == tile(self.pattern, self.chunk.len())
                &&& 0 < len
                &&& len == min(self.size - offset, self.chunk.len() as int)
            },
            Stage::Syncing => {
                &&& self.step < self.plan.len()
                &&& self.current() is Overwrite
                &&& self.last_pass == self.step
            },
            Stage::Sampling { left, offset } => {
                &&& self.step < self.plan.len()
                &&& self.current() == StepModel::Verify(VerificationLevel::Basic)
                &&& left >= 1
                &&& self.pattern.len() > 0
                &&& (offset as int) % (self.pattern.len() as int) == 0
                &&& offset + self.pattern.len() <= self.size
            },
            Stage::Scanning { offset } => {
                &&& self.step < self.plan.len()
                &&& (self.current() == StepModel::Verify(VerificationLevel::Full)
                    || self.current() == StepModel::Verify(VerificationLevel::Enhanced))
                &&& self.pattern.len() > 0
                &&& (offset as int) % (self.pattern.len() as int) == 0
                &&& offset < self.size
            },
            Stage::Committing | Stage::Removing => {
                &&& self.step == self.plan.len()
                &&& self.erased || self.size == 0 || self.last_pass >= 0
            },
            _ => true,
        }
    }
}

/// The orchestrator of one wipe of one file under a [`Shredder`]'s policy.
///
/// It performs no I/O. Its caller performs each [`WipeAction`] it returns on the
/// file and answers with the [`WipeEvent`] the operation produced, until the
/// action is `Finish`.
pub struct WipeSession<'a> {
    shredder: &'a Shredder,
    stage: Stage,
    size: u64,
    sized: bool,
    planned: bool,
    erased: bool,
    plan: Vec<Step>,
    step: usize,
    pattern: Vec<u8>,
    chunk: Vec<u8>,
    last_pass: Ghost<int>,
}

impl<'a> View for WipeSession<'a> {
    type V = SessionView;

    closed spec fn view(&self) -> SessionView {
        SessionView {
            shredder: *self.shredder,
            stage: self.stage,
            size: self.size,
            sized: self.sized,
            planned: self.planned,
            erased: self.erased,
            plan: step_models(self.plan@),
            step: self.step as int,
            pattern: self.pattern@,
            chunk: self.chunk@,
            last_pass: self.last_pass@,
        }
    }
}

/// The action that starts the step `v.step` of the plan, or commits the wipe
/// once every step has run, and the stage it leaves the session in.
pub open spec fn starts_step(v: SessionView, r: WipeAction) -> bool {
    if v.step == v.plan.len() {
        v.stage is Committing && r is Sync
    } else {
        match v.current() {
            StepModel::Overwrite(p) => {
                &&& p.is_fill(v.pattern, v.pattern.len())
                &&& v.last_pass == v.step
                &&& if v.size == 0 {
                    v.stage is Syncing && r is Sync
                } else {
                    &&& v.chunk == tile(v.pattern, v.chunk.len())
                    &&& v.stage matches Stage::Writing { offset, len } && offset == 0 && len == min(
                        v.size as int,
                        v.chunk.len() as int,
                    )
                    &&& r == WipeAction::Write { offset: 0, len: v.stage->Writing_len }
                }
            },
            StepModel::Verify(VerificationLevel::Basic) => {
                &&& v.size > 0
                &&& v.stage matches Stage::Sampling { left, offset } && left == sample_count(v.size)
                &&& r == WipeAction::Read {
                    offset: v.stage->Sampling_offset,
                    len: v.pattern.len() as usize,
                }
            },
            StepModel::Verify(_) => {
                &&& v.size > 0
                &&& v.stage == Stage::Scanning { offset: 0 }
                &&& r == WipeAction::Read { offset: 0, len: v.pattern.len() as usize }
            },
        }
    }
}

/// The steps from `from` up to `v.step` were passed over without any I/O: each
/// is a check, disabled or of an empty file.
pub open spec fn skipped(v: SessionView, from: int) -> bool {
    forall|k: int|
        from <= k < v.step ==> (#[trigger] v.plan[k]) is Verify && (v.size == 0
            || v.plan[k]->Verify_0 is Disabled)
}

/// What follows once the plan is fixed: its first step starts, or, when no
/// step would destroy the content of a non-empty file, the wipe fails before
/// touching it.
pub open spec fn begins(v: SessionView, r: WipeAction) -> bool {
    &&& v.planned
    &&& if v.destroys() {
        skipped(v, 0) && starts_step(v, r)
    } else {
        &&& v.stage is Finished
        &&& r is Finish
        &&& r->Finish_0 is Err
        &&& r->Finish_0->Err_0 is UnsupportedOperation
    }
}

/// What follows the TRIM decision: a hardware erase where the standard and
/// device call for one, else the plan without it.
pub open spec fn after_trim_spec(v: SessionView, r: WipeAction) -> bool {
    &&& erase_wanted(v.shredder) ==> r is SecureErase && v.stage is Erasing && !v.planned
    &&& !erase_wanted(v.shredder) ==> !v.erased && begins(v, r)
}

/// Whether going from `o` to `n` started a new overwrite pass.
pub open spec fn started_pass(o: SessionView, n: SessionView) -> bool {
    &&& n.planned
    &&& 0 <= n.step < n.plan.len()
    &&& n.current() is Overwrite
    &&& (!o.planned || n.step > o.step)
}

/// Relies on `rand::random::<u64>`: any `u64` may come back.
#[verifier::external_body]
fn random_u64() -> (r: u64) {
    rand::random::<u64>()
}

/// Fills `chunk` with `pattern` repeated end to end.
fn tile_into(chunk: &mut Vec<u8>, pattern: &Vec<u8>)
    requires
        pattern@.len() > 0,
    ensures
        final(chunk)@ == tile(pattern@, old(chunk)@.len()),
{
    let n = chunk.len();
    let plen = pattern.len();
    let mut i: usize = 0;
    while i < n
        invariant
            n == chunk@.len(),
            n == old(chunk)@.len(),
            plen == pattern@.len(),
            plen > 0,
            i <= n,
            forall|j: int| 0 <= j < i ==> chunk@[j] == #[trigger] pattern@[j % (plen as int)],
        decreases n - i,
    {
        chunk[i] = pattern[i % plen];
        i = i + 1;
    }
    assert(chunk@ =~= tile(pattern@, n as nat));
}

/// Whether `data` holds exactly the first `len` bytes of `expected`.
fn same_bytes(data: &Vec<u8>, expected: &Vec<u8>, len: usize) -> (r: bool)
    requires
        len <= expected@.len(),
    ensures
        r == (data@ == expected@.subrange(0, len as int)),
{
    if data.len() != len {
        return false;
    }
    let mut i: usize = 0;
    while i < len
        invariant
            len == data@.len(),
            len <= expected@.len(),
            i <= len,
            forall|j: int| 0 <= j < i ==> data@[j] == expected@[j],
        decreases len - i,
    {
        if data[i] != expected[i] {
            assert(data@[i as int] != expected@.subrange(0, len as int)[i as int]);
            return false;
        }
        i = i + 1;
    }
    assert(data@ =~= expected@.subrange(0, len as int));
    true
}

/// A random offset of a whole pattern-length block of a `size`-byte file.
fn sample_offset(size: u64, plen: usize) -> (r: u64)
    requires
        0 < plen <= size,
    ensures
        (r as int) % (plen as int) == 0,
        r + plen <= size,
{
    let p = plen as u64;
    let blocks = size / p;
    assert(blocks >= 1) by (nonlinear_arith)
        requires
            blocks == size / p,
            0 < p <= size,
    ;
    let k = random_u64() % blocks;
    assert(k * p + p <= size && (k * p) % (p as int) == 0) by (nonlinear_arith)
        requires
            k < blocks,
            blocks == size / p,
            0 < p,
    {
        vstd::arithmetic::div_mod::lemma_fundamental_div_mod(size as int, p as int);
        vstd::arithmetic::div_mod::lemma_mod_multiples_basic(k as int, p as int);
    }
    k * p
}

/// A failure of a caller that answered with an outcome of another operation.
fn unexpected_event() -> (r: WipeError)
    ensures
        r is UnsupportedOperation,
{
    WipeError::UnsupportedOperation(String::from_str("outcome does not answer the pending operation"))
}

impl<'a> WipeSession<'a> {
    /// The session's internal consistency.
    pub closed spec fn wf(&self) -> bool {
        &&& self@.inv()
        &&& steps_wf(step_models(self.plan@))
        &&& self.plan@.len() <= usize::MAX
    }

    /// A session for one wipe under `shredder`. It waits for the outcome of
    /// opening the file: a caller's first operation is always `WipeAction::Open`.
    pub fn new(shredder: &'a Shredder) -> (r: Self)
        requires
            shredder.wf(),
        ensures
            r.wf(),
            r@.inv(),
            r@.shredder == *shredder,
            r@.stage is Opening,
            !r@.sized,
            !r@.planned,
            !r@.erased,
    {
        let r = WipeSession {
            shredder,
            stage: Stage::Opening,
            size: 0,
            sized: false,
            planned: false,
            erased: false,
            plan: Vec::new(),
            step: 0,
            pattern: Vec::new(),
            chunk: Vec::new(),
            last_pass: Ghost(-1),
        };
        assert(r.pattern@ =~= zeros(0));
        r
    }

    /// The stage the session is in.
    pub fn stage(&self) -> (r: Stage)
        ensures
            r == self@.stage,
    {
        self.stage
    }

    /// The buffer whose first `len` bytes a `Write` action writes.
    pub fn write_buffer(&self) -> (r: &[u8])
        ensures
            r@ == self@.chunk,
    {
        self.chunk.as_slice()
    }

    fn finish(&mut self, result: Result<(), WipeError>) -> (r: WipeAction)
        requires
            old(self).wf(),
        ensures
            final(self).wf(),
            final(self)@ == (SessionView { stage: Stage::Finished, ..old(self)@ }),
            r == WipeAction::Finish(result),
    {
        self.stage = Stage::Finished;
        WipeAction::Finish(result)
    }

    /// Starts the step under way, passing over checks that need no I/O; commits
    /// once every step has run.
    fn advance(&mut self) -> (r: WipeAction)
        requires
            old(self)@.base(),
            steps_wf(step_models(old(self).plan@)),
            old(self).plan@.len() <= usize::MAX,
            old(self)@.planned,
            old(self)@.destroys(),
            old(self)@.step <= old(self)@.plan.len(),
        ensures
            final(self).wf(),
            final(self)@.shredder == old(self)@.shredder,
            final(self)@.size == old(self)@.size,
            final(self)@.sized,
            final(self)@.planned,
            final(self)@.erased == old(self)@.erased,
            final(self)@.plan == old(self)@.plan,
            final(self)@.step >= old(self)@.step,
            skipped(final(self)@, old(self)@.step),
            starts_step(final(self)@, r),
            !(final(self)@.step < final(self)@.plan.len() && final(self)@.current() is Overwrite)
                ==> final(self)@.pattern == old(self)@.pattern && final(self)@.chunk == old(
                self,
            )@.chunk,
    {
        let ghost from = self.step as int;
        while self.step < self.plan.len()
            invariant
                self@.base(),
                steps_wf(step_models(self.plan@)),
                self.plan@.len() <= usize::MAX,
                from == old(self)@.step,
                self@.planned,
                self@.sized,
                self@.destroys(),
                self@.shredder == old(self)@.shredder,
                self@.size == old(self)@.size,
                self@.erased == old(self)@.erased,
                self@.plan == old(self)@.plan,
                self@.pattern == old(self)@.pattern,
                self@.chunk == old(self)@.chunk,
                from <= self.step <= self.plan@.len(),
                skipped(self@, from),
            decreases self.plan@.len() - self.step,
        {
            let ghost v = self@;
            match &self.plan[self.step] {
                Step::Overwrite(p) => {
                    assert(v.current() == StepModel::Overwrite(p@));
                    p.fill_buffer(self.pattern.as_mut_slice());
                    self.last_pass = Ghost(self.step as int);
                    if self.size == 0 {
                        self.stage = Stage::Syncing;
                        return WipeAction::Sync;
                    }
                    assert(self.pattern@.len() > 0);
                    tile_into(&mut self.chunk, &self.pattern);
                    let len: usize = if self.size < self.chunk.len() as u64 {
                        self.size as usize
                    } else {
                        self.chunk.len()
                    };
                    self.stage = Stage::Writing { offset: 0, len };
                    return WipeAction::Write { offset: 0, len };
                },
                Step::Verify(level) => {
                    if self.size > 0 {
                        let plen = self.pattern.len();
                        assert(0 < plen <= self.size);
                        match level {
                            VerificationLevel::Disabled => {},
                            VerificationLevel::Basic => {
                                let samples = if self.size / 100 < 1 {
                                    1
                                } else {
                                    self.size / 100
                                };
                                let offset = sample_offset(self.size, plen);
                                self.stage = Stage::Sampling { left: samples, offset };
                                return WipeAction::Read { offset, len: plen };
                            },
                            _ => {
                                assert(0int % (plen as int) == 0);
                                self.stage = Stage::Scanning { offset: 0 };
                                return WipeAction::Read { offset: 0, len: plen };
                            },
                        }
                    }
                },
            }
            assert(self@.plan[self.step as int] is Verify);
            self.step = self.step + 1;
        }
        proof {
            if !self@.erased && self@.size != 0 && self@.last_pass < 0 {
                let i = choose|i: int| 0 <= i < self@.plan.len() && (#[trigger] self@.plan[i]) is Overwrite;
                assert(self@.plan[i] is Verify);
            }
        }
        self.stage = Stage::Committing;
        WipeAction::Sync
    }

    /// Records the file's length, sizes the buffers, then sends the TRIM hint
    /// when the device wants one, else goes on to the erase decision.
    fn on_size(&mut self, size: u64) -> (r: WipeAction)
        requires
            old(self).wf(),
            old(self)@.stage is Sizing,
        ensures
            final(self).wf(),
            final(self)@.shredder == old(self)@.shredder,
            final(self)@.size == size,
            final(self)@.sized,
            old(self)@.shredder.storage_type().trim_wanted() ==> r is Trim && final(self)@.stage
                is Trimming && !final(self)@.planned,
            !old(self)@.shredder.storage_type().trim_wanted() ==> after_trim_spec(final(self)@, r),
    {
        let plen = self.shredder.calculate_optimal_buffer_size(size);
        self.size = size;
        self.pattern = vec![0u8; plen];
        assert(self.pattern@ =~= zeros(plen as nat));
        self.chunk = vec![0u8; self.shredder.get_buffer_size()];
        self.sized = true;
        if self.shredder.get_storage_type().wants_trim() {
            self.stage = Stage::Trimming;
            WipeAction::Trim
        } else {
            self.after_trim()
        }
    }

    fn after_trim(&mut self) -> (r: WipeAction)
        requires
            old(self)@.base(),
            steps_wf(step_models(old(self).plan@)),
            old(self).plan@.len() <= usize::MAX,
            old(self)@.sized,
            !old(self)@.planned,
        ensures
            final(self).wf(),
            final(self)@.shredder == old(self)@.shredder,
            final(self)@.size == old(self)@.size,
            final(self)@.sized,
            after_trim_spec(final(self)@, r),
            !started_pass(old(self)@, final(self)@) ==> final(self)@.pattern == old(self)@.pattern
                && final(self)@.chunk == old(self)@.chunk,
    {
        let wanted = match self.shredder.get_standard() {
            WipeStandard::Modern(c) => match c.method {
                SanitizationMethod::Purge => self.shredder.get_storage_type().supports_secure_erase(),
                SanitizationMethod::Clear => false,
            },
            _ => false,
        };
        if wanted {
            self.stage = Stage::Erasing;
            WipeAction::SecureErase
        } else {
            self.begin_plan(false)
        }
    }

    /// Fixes the plan, given whether a hardware erase succeeded, and starts it;
    /// refuses a plan that would leave a non-empty file's content in place.
    fn begin_plan(&mut self, erased: bool) -> (r: WipeAction)
        requires
            old(self)@.base(),
            steps_wf(step_models(old(self).plan@)),
            old(self)@.sized,
            !old(self)@.planned,
            erased ==> erase_wanted(old(self)@.shredder),
        ensures
            final(self).wf(),
            final(self)@.shredder == old(self)@.shredder,
            final(self)@.size == old(self)@.size,
            final(self)@.sized,
            final(self)@.erased == erased,
            begins(final(self)@, r),
            !started_pass(old(self)@, final(self)@) ==> final(self)@.pattern == old(self)@.pattern
                && final(self)@.chunk == old(self)@.chunk,
    {
        self.plan = build_plan(self.shredder.get_standard(), erased);
        self.erased = erased;
        self.planned = true;
        self.step = 0;
        let any = has_overwrite(&self.plan);
        if !erased && self.size > 0 && !any {
            self.stage = Stage::Finished;
            return WipeAction::Finish(
                Err(
                    WipeError::UnsupportedOperation(
                        String::from_str("no pass of the standard overwrites the file"),
                    ),
                ),
            );
        }
        self.advance()
    }

    /// Hands the session the outcome of the operation it asked for last (of
    /// opening the file, for a new session) and returns the next operation.
    pub fn step(&mut self, event: WipeEvent) -> (r: WipeAction)
        requires
            old(self).wf(),
        ensures
            final(self).wf(),
            final(self)@.inv(),
            final(self)@.shredder == old(self)@.shredder,
            !(r is Open),
            // the length and the buffers, once known, change only as passes start
            old(self)@.sized ==> final(self)@.sized && final(self)@.size == old(self)@.size,
            old(self)@.sized && !started_pass(old(self)@, final(self)@) ==> final(self)@.pattern
                == old(self)@.pattern && final(self)@.chunk == old(self)@.chunk,
            // a finished wipe stays finished
            (r is Finish) == (final(self)@.stage is Finished),
            old(self)@.stage is Finished ==> r is Finish && r->Finish_0 is Err,
            // success is reported only once the file was removed
            r is Finish && r->Finish_0 is Ok ==> old(self)@.stage is Removing && event is Done,
            old(self)@.stage is Removing && event is Done ==> r == WipeAction::Finish(Ok(())),
            // removal comes only after every step has run and the file was synced,
            // and only when some content was destroyed
            r is Remove ==> {
                &&& old(self)@.stage is Committing
                &&& event is Done
                &&& final(self)@.planned
                &&& final(self)@.step == final(self)@.plan.len()
                &&& final(self)@.destroys()
            },
            old(self)@.stage is Committing && event is Done ==> r is Remove,
            // failures end the wipe with the caller's error, but a failed hardware
            // erase and a scan that reaches the end of the file
            event is Failed && !(old(self)@.stage is Erasing) && !(old(self)@.stage is Finished)
                ==> r == WipeAction::Finish(Err(event->Failed_0)),
            event is ShortRead && !(old(self)@.stage is Erasing) && !(old(self)@.stage is Scanning)
                && !(old(self)@.stage is Finished) ==> r == WipeAction::Finish(
                Err(event->ShortRead_0),
            ),
            // opening, sizing, TRIM
            old(self)@.stage is Opening && event is Done ==> r is QuerySize,
            old(self)@.stage is Sizing && event is Size ==> {
                &&& final(self)@.size == event->Size_0
                &&& final(self)@.sized
                &&& old(self)@.shredder.storage_type().trim_wanted() ==> r is Trim
                &&& !old(self)@.shredder.storage_type().trim_wanted() ==> after_trim_spec(
                    final(self)@,
                    r,
                )
            },
            old(self)@.stage is Trimming && event is Done ==> after_trim_spec(final(self)@, r),
            // the hardware erase: success skips the overwrite, failure falls back to it
            old(self)@.stage is Erasing ==> final(self)@.erased == (event is Done) && begins(
                final(self)@,
                r,
            ),
            !(old(self)@.stage is Erasing) ==> final(self)@.erased == old(self)@.erased,
            // each chunk is read back; a mismatch ends the wipe naming its offset
            old(self)@.stage is Writing && event is Data ==> {
                let offset = old(self)@.stage->Writing_offset;
                let len = old(self)@.stage->Writing_len;
                if event->Data_0@ == old(self)@.chunk.subrange(0, len as int) {
                    if offset + len < old(self)@.size {
                        &&& final(self)@.step == old(self)@.step
                        &&& final(self)@.stage matches Stage::Writing { offset: o, len: l }
                            && o == offset + len && l == min(
                            old(self)@.size - o,
                            old(self)@.chunk.len() as int,
                        )
                        &&& r == WipeAction::Write {
                            offset: final(self)@.stage->Writing_offset,
                            len: final(self)@.stage->Writing_len,
                        }
                    } else {
                        final(self)@.step == old(self)@.step && final(self)@.stage is Syncing
                            && r is Sync
                    }
                } else {
                    &&& r is Finish
                    &&& r->Finish_0 is Err
                    &&& r->Finish_0->Err_0 is VerificationFailed
                    &&& r->Finish_0->Err_0->VerificationFailed_0@ == WRITE_MISMATCH@ + decimal(
                        offset as nat,
                    )
                }
            },
            // a synced pass ends its step
            old(self)@.stage is Syncing && event is Done ==> {
                &&& final(self)@.step > old(self)@.step
                &&& skipped(final(self)@, old(self)@.step + 1)
                &&& starts_step(final(self)@, r)
            },
            // checks compare each block read with the buffer of the last pass
            old(self)@.stage is Sampling && event is Data && event->Data_0@ != old(self)@.pattern
                ==> {
                &&& r is Finish
                &&& r->Finish_0 is Err
                &&& r->Finish_0->Err_0 is VerificationFailed
                &&& r->Finish_0->Err_0->VerificationFailed_0@ == SAMPLE_MISMATCH@ + decimal(
                    old(self)@.stage->Sampling_offset as nat,
                )
            },
            old(self)@.stage is Sampling && event is Data && event->Data_0@ == old(self)@.pattern
                ==> if old(self)@.stage->Sampling_left > 1 {
                &&& final(self)@.step == old(self)@.step
                &&& final(self)@.stage matches Stage::Sampling { left, offset } && left
                    == old(self)@.stage->Sampling_left - 1
                &&& r == WipeAction::Read {
                    offset: final(self)@.stage->Sampling_offset,
                    len: old(self)@.pattern.len() as usize,
                }
            } else {
                &&& final(self)@.step > old(self)@.step
                &&& skipped(final(self)@, old(self)@.step + 1)
                &&& starts_step(final(self)@, r)
            },
            old(self)@.stage is Scanning && event is Data ==> {
                let offset = old(self)@.stage->Scanning_offset;
                let len = old(self)@.scan_len(offset);
                let next = offset + old(self)@.pattern.len();
                if event->Data_0@ == old(self)@.pattern.subrange(0, len) {
                    if next < old(self)@.size {
                        &&& final(self)@.step == old(self)@.step
                        &&& final(self)@.stage == Stage::Scanning { offset: next as u64 }
                        &&& r == WipeAction::Read {
                            offset: next as u64,
                            len: final(self)@.scan_len(next as u64) as usize,
                        }
                    } else {
                        &&& final(self)@.step > old(self)@.step
                        &&& skipped(final(self)@, old(self)@.step + 1)
                        &&& starts_step(final(self)@, r)
                    }
                } else {
                    &&& r is Finish
                    &&& r->Finish_0 is Err
                    &&& r->Finish_0->Err_0 is VerificationFailed
                    &&& r->Finish_0->Err_0->VerificationFailed_0@ == SCAN_MISMATCH@ + decimal(
                        offset as nat,
                    )
                }
            },
            old(self)@.stage is Scanning && event is ShortRead ==> {
                &&& final(self)@.step > old(self)@.step
                &&& skipped(final(self)@, old(self)@.step + 1)
                &&& starts_step(final(self)@, r)
            },
            // each action names the stage it leaves the session in
            r is QuerySize ==> final(self)@.stage is Sizing,
            r is Trim ==> final(self)@.stage is Trimming,
            r is SecureErase ==> final(self)@.stage is Erasing,
            r is Remove ==> final(self)@.stage is Removing,
            r is Sync ==> final(self)@.stage is Syncing || final(self)@.stage is Committing,
            // every Write is the chunk the session waits to read back, every Read a
            // block the session waits to compare
            r is Write ==> final(self)@.stage == (Stage::Writing {
                offset: r->Write_offset,
                len: r->Write_len,
            }),
            r is Read ==> {
                ||| r->Read_len == final(self)@.pattern.len() && final(self)@.stage == (
                Stage::Sampling { left: final(self)@.stage->Sampling_left, offset: r->Read_offset })
                ||| r->Read_len == final(self)@.scan_len(r->Read_offset) && final(self)@.stage == (
                Stage::Scanning { offset: r->Read_offset })
            },
            // a pass is synced only once its last chunk was read back intact, or
            // when the file is empty
            final(self)@.stage is Syncing ==> {
                ||| old(self)@.stage is Writing && event is Data && event->Data_0@ == old(
                    self,
                )@.chunk.subrange(0, old(self)@.stage->Writing_len as int)
                    && old(self)@.stage->Writing_offset + old(self)@.stage->Writing_len
                    == old(self)@.size
                ||| final(self)@.size == 0
            },
            // the plan moves on only in the ways above
            old(self)@.planned ==> final(self)@.step >= old(self)@.step,
            old(self)@.planned && final(self)@.step > old(self)@.step ==> {
                ||| old(self)@.stage is Syncing && event is Done
                ||| old(self)@.stage is Sampling && old(self)@.stage->Sampling_left == 1
                    && event is Data && event->Data_0@ == old(self)@.pattern
                ||| old(self)@.stage is Scanning && (event is ShortRead || event is Data
                    && event->Data_0@ == old(self)@.pattern.subrange(
                    0,
                    old(self)@.scan_len(old(self)@.stage->Scanning_offset),
                ))
            },
    {
        match self.stage {
            Stage::Finished => {
                let e = WipeError::UnsupportedOperation(String::from_str("the wipe is already over"));
                self.finish(Err(e))
            },
            Stage::Opening => match event {
                WipeEvent::Done => {
                    self.stage = Stage::Sizing;
                    WipeAction::QuerySize
                },
                WipeEvent::Failed(e) | WipeEvent::ShortRead(e) => self.finish(Err(e)),
                _ => self.finish(Err(unexpected_event())),
            },
            Stage::Sizing => match event {
                WipeEvent::Size(n) => self.on_size(n),
                WipeEvent::Failed(e) | WipeEvent::ShortRead(e) => self.finish(Err(e)),
                _ => self.finish(Err(unexpected_event())),
            },
            Stage::Trimming => match event {
                WipeEvent::Done => self.after_trim(),
                WipeEvent::Failed(e) | WipeEvent::ShortRead(e) => self.finish(Err(e)),
                _ => self.finish(Err(unexpected_event())),
            },
            Stage::Erasing => {
                let erased = match event {
                    WipeEvent::Done => true,
                    _ => false,
                };
                self.begin_plan(erased)
            },
            Stage::Writing { offset, len } => match event {
                WipeEvent::Data(d) => {
                    if same_bytes(&d, &self.chunk, len) {
                        let next = offset + len as u64;
                        if next < self.size {
                            let rest = self.size - next;
                            let l: usize = if rest < self.chunk.len() as u64 {
                                rest as usize
                            } else {
                                self.chunk.len()
                            };
                            self.stage = Stage::Writing { offset: next, len: l };
                            WipeAction::Write { offset: next, len: l }
                        } else {
                            self.stage = Stage::Syncing;
                            WipeAction::Sync
                        }
                    } else {
                        let e = WipeError::VerificationFailed(with_decimal(WRITE_MISMATCH, offset));
                        self.finish(Err(e))
                    }
                },
                WipeEvent::Failed(e) | WipeEvent::ShortRead(e) => self.finish(Err(e)),
                _ => self.finish(Err(unexpected_event())),
            },
            Stage::Syncing => match event {
                WipeEvent::Done => {
                    self.step = self.step + 1;
                    self.advance()
                },
                WipeEvent::Failed(e) | WipeEvent::ShortRead(e) => self.finish(Err(e)),
                _ => self.finish(Err(unexpected_event())),
            },
            Stage::Sampling { left, offset } => match event {
                WipeEvent::Data(d) => {
                    let plen = self.pattern.len();
                    assert(self.pattern@.subrange(0, plen as int) =~= self.pattern@);
                    if same_bytes(&d, &self.pattern, plen) {
                        if left > 1 {
                            let next = sample_offset(self.size, plen);
                            self.stage = Stage::Sampling { left: left - 1, offset: next };
                            WipeAction::Read { offset: next, len: plen }
                        } else {
                            self.step = self.step + 1;
                            self.advance()
                        }
                    } else {
                        let e = WipeError::VerificationFailed(with_decimal(SAMPLE_MISMATCH, offset));
                        self.finish(Err(e))
                    }
                },
                WipeEvent::Failed(e) | WipeEvent::ShortRead(e) => self.finish(Err(e)),
                _ => self.finish(Err(unexpected_event())),
            },
            Stage::Scanning { offset } => match event {
                WipeEvent::Data(d) => {
                    let plen = self.pattern.len();
                    let rest = self.size - offset;
                    let len: usize = if rest < plen as u64 {
                        rest as usize
                    } else {
                        plen
                    };
                    if same_bytes(&d, &self.pattern, len) {
                        if (plen as u64) < rest {
                            let next = offset + plen as u64;
                            proof {
                                vstd::arithmetic::div_mod::lemma_mod_add_multiples_vanish(
                                    offset as int,
                                    plen as int,
                                );
                            }
                            let after = self.size - next;
                            let l: usize = if after < plen as u64 {
                                after as usize
                            } else {
                                plen
                            };
                            self.stage = Stage::Scanning { offset: next };
                            WipeAction::Read { offset: next, len: l }
                        } else {
                            self.step = self.step + 1;
                            self.advance()
                        }
                    } else {
                        let e = WipeError::VerificationFailed(with_decimal(SCAN_MISMATCH, offset));
                        self.finish(Err(e))
                    }
                },
                WipeEvent::ShortRead(_) => {
                    self.step = self.step + 1;
                    self.advance()
                },
                WipeEvent::Failed(e) => self.finish(Err(e)),
                _ => self.finish(Err(unexpected_event())),
            },
            Stage::Committing => match event {
                WipeEvent::Done => {
                    self.stage = Stage::Removing;
                    WipeAction::Remove
                },
                WipeEvent::Failed(e) | WipeEvent::ShortRead(e) => self.finish(Err(e)),
                _ => self.finish(Err(unexpected_event())),
            },
            Stage::Removing => match event {
                WipeEvent::Done => self.finish(Ok(())),
                WipeEvent::Failed(e) | WipeEvent::ShortRead(e) => self.finish(Err(e)),
                _ => self.finish(Err(unexpected_event())),
            },
        }
    }
}

} // verus!
