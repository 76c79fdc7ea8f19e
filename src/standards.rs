use vstd::prelude::*;
use crate::patterns::{PatternModel, WipePattern};

verus! {

/// A sanitization standard: the passes to run and how to verify them.
#[derive(Debug, Clone)]
pub enum WipeStandard {
    /// NIST 800-88 sanitization, chosen by method and verification level
    Modern(Nist80088Config),
    /// one of the historical multi-pass overwrite standards
    Legacy(LegacyConfig),
    /// a caller-supplied sequence of passes
    Custom(WipeConfig),
}

/// Configuration of a NIST 800-88 sanitization.
#[derive(Debug, Clone)]
pub struct Nist80088Config {
    /// Clear (one overwrite) or Purge (hardware erase, else four overwrites)
    pub method: SanitizationMethod,
    /// how the result is checked once every pass has run
    pub verify_level: VerificationLevel,
}

/// The NIST 800-88 sanitization tiers.
#[derive(Debug, Clone, Copy, PartialEq, Eq, Structural)]
pub enum SanitizationMethod {
    /// a single adequate overwrite
    Clear,
    /// hardware-assisted erasure with a more thorough software fallback
    Purge,
}

/// Configuration of a legacy overwrite standard.
#[derive(Debug, Clone)]
pub struct LegacyConfig {
    /// which standard's pass sequence to run
    pub standard: LegacyStandard,
    /// sample-check after each pass and fully check after the last one
    pub extra_verification: bool,
}

/// The historical multi-pass overwrite standards.
#[derive(Debug, Clone, Copy, PartialEq, Eq, Structural)]
pub enum LegacyStandard {
    /// DoD 5220.22-M, three passes
    Dod522022M,
    /// Gutmann's 35-pass method
    Gutmann,
    /// German VSITR, seven passes
    VsitrStandard,
}

/// A caller-defined sequence of passes.
#[derive(Debug, Clone)]
pub struct WipeConfig {
    /// the patterns to write, in order
    pub passes: Vec<WipePattern>,
    /// fully check the file after each pass
    pub verify_each_pass: bool,
}

/// How thoroughly the overwritten content is checked.
#[derive(Debug, Clone, Copy, PartialEq, Eq, Structural)]
pub enum VerificationLevel {
    /// no check
    Disabled,
    /// pattern-aligned samples at random offsets, about one per hundred bytes
    Basic,
    /// every pattern-length block of the file, in order
    Full,
    /// the same scan as `Full`, kept as its own level
    Enhanced,
}

impl WipeStandard {
    /// Every custom pattern the standard names carries at least one byte.
    pub open spec fn wf(&self) -> bool {
        match self {
            WipeStandard::Custom(c) => forall|i: int|
                0 <= i < c.passes@.len() ==> (#[trigger] c.passes@[i])@.wf(),
            _ => true,
        }
    }

    /// Whether every custom pattern the standard names carries at least one byte.
    pub fn is_well_formed(&self) -> (r: bool)
        ensures
            r == self.wf(),
    {
        match self {
            WipeStandard::Custom(c) => {
                let mut i: usize = 0;
                while i < c.passes.len()
                    invariant
                        self.wf() == (forall|j: int|
                            0 <= j < c.passes@.len() ==> (#[trigger] c.passes@[j])@.wf()),
                        i <= c.passes@.len(),
                        forall|j: int| 0 <= j < i ==> (#[trigger] c.passes@[j])@.wf(),
                    decreases c.passes@.len() - i,
                {
                    match &c.passes[i] {
                        WipePattern::Custom(p) => {
                            if p.len() == 0 {
                                assert(!c.passes@[i as int]@.wf());
                                return false;
                            }
                        },
                        _ => {},
                    }
                    i = i + 1;
                }
                true
            },
            _ => true,
        }
    }
}

/// The models of a sequence of patterns.
pub open spec fn pattern_models(ps: Seq<WipePattern>) -> Seq<PatternModel> {
    ps.map_values(|p: WipePattern| p@)
}

/// A Gutmann fixed pass: three bytes repeated.
pub open spec fn triple(a: u8, b: u8, c: u8) -> PatternModel {
    PatternModel::Custom(seq![a, b, c])
}

/// The 27 fixed overwrites of Gutmann's method, in his order.
pub open spec fn gutmann_fixed() -> Seq<PatternModel> {
    seq![
        triple(0x55, 0x55, 0x55), triple(0xAA, 0xAA, 0xAA), triple(0x92, 0x49, 0x24),
        triple(0x49, 0x24, 0x92), triple(0x24, 0x92, 0x49), triple(0x00, 0x00, 0x00),
        triple(0x11, 0x11, 0x11), triple(0x22, 0x22, 0x22), triple(0x33, 0x33, 0x33),
        triple(0x44, 0x44, 0x44), triple(0x55, 0x55, 0x55), triple(0x66, 0x66, 0x66),
        triple(0x77, 0x77, 0x77), triple(0x88, 0x88, 0x88), triple(0x99, 0x99, 0x99),
        triple(0xAA, 0xAA, 0xAA), triple(0xBB, 0xBB, 0xBB), triple(0xCC, 0xCC, 0xCC),
        triple(0xDD, 0xDD, 0xDD), triple(0xEE, 0xEE, 0xEE), triple(0xFF, 0xFF, 0xFF),
        triple(0x92, 0x49, 0x24), triple(0x49, 0x24, 0x92), triple(0x24, 0x92, 0x49),
        triple(0x6D, 0xB6, 0xDB), triple(0xB6, 0xDB, 0x6D), triple(0xDB, 0x6D, 0xB6),
    ]
}

/// Four random passes.
pub open spec fn four_random() -> Seq<PatternModel> {
    seq![PatternModel::Random, PatternModel::Random, PatternModel::Random, PatternModel::Random]
}

/// Gutmann's 35 passes: four random, the fixed table, four random.
pub open spec fn gutmann_model() -> Seq<PatternModel> {
    four_random() + gutmann_fixed() + four_random()
}

impl LegacyStandard {
    /// The pass sequence of each legacy standard.
    pub open spec fn patterns_model(self) -> Seq<PatternModel> {
        match self {
            LegacyStandard::Dod522022M => seq![
                PatternModel::Zeros,
                PatternModel::Ones,
                PatternModel::Random,
            ],
            LegacyStandard::VsitrStandard => seq![
                PatternModel::Zeros,
                PatternModel::Ones,
                PatternModel::Zeros,
                PatternModel::Ones,
                PatternModel::Zeros,
                PatternModel::Ones,
                PatternModel::Random,
            ],
            LegacyStandard::Gutmann => gutmann_model(),
        }
    }

    /// Returns the standard's passes in the order they are written.
    pub fn get_patterns(&self) -> (r: Vec<WipePattern>)
        ensures
            pattern_models(r@) == self.patterns_model(),
            forall|i: int| 0 <= i < r@.len() ==> (#[trigger] r@[i])@.wf(),
    {
        match self {
            LegacyStandard::Dod522022M => {
                let r = vec![WipePattern::Zeros, WipePattern::Ones, WipePattern::Random];
                assert(pattern_models(r@) =~= self.patterns_model());
                r
            },
            LegacyStandard::VsitrStandard => {
                let r = vec![
                    WipePattern::Zeros,
                    WipePattern::Ones,
                    WipePattern::Zeros,
                    WipePattern::Ones,
                    WipePattern::Zeros,
                    WipePattern::Ones,
                    WipePattern::Random,
                ];
                assert(pattern_models(r@) =~= self.patterns_model());
                r
            },
            LegacyStandard::Gutmann => Self::gutmann_patterns(),
        }
    }

    /// Gutmann's 35-pass sequence.
    #[verifier::rlimit(40)]
    fn gutmann_patterns() -> (r: Vec<WipePattern>)
        ensures
            pattern_models(r@) == gutmann_model(),
            forall|i: int| 0 <= i < r@.len() ==> (#[trigger] r@[i])@.wf(),
    {
        let mut r: Vec<WipePattern> = Vec::with_capacity(35);
        push_random(&mut r);
        let fixed: [(u8, u8, u8); 27] = [
            (0x55, 0x55, 0x55), (0xAA, 0xAA, 0xAA), (0x92, 0x49, 0x24),
            (0x49, 0x24, 0x92), (0x24, 0x92, 0x49), (0x00, 0x00, 0x00),
            (0x11, 0x11, 0x11), (0x22, 0x22, 0x22), (0x33, 0x33, 0x33),
            (0x44, 0x44, 0x44), (0x55, 0x55, 0x55), (0x66, 0x66, 0x66),
            (0x77, 0x77, 0x77), (0x88, 0x88, 0x88), (0x99, 0x99, 0x99),
            (0xAA, 0xAA, 0xAA), (0xBB, 0xBB, 0xBB), (0xCC, 0xCC, 0xCC),
            (0xDD, 0xDD, 0xDD), (0xEE, 0xEE, 0xEE), (0xFF, 0xFF, 0xFF),
            (0x92, 0x49, 0x24), (0x49, 0x24, 0x92), (0x24, 0x92, 0x49),
            (0x6D, 0xB6, 0xDB), (0xB6, 0xDB, 0x6D), (0xDB, 0x6D, 0xB6),
        ];
        assert(fixed@.map_values(|t: (u8, u8, u8)| triple(t.0, t.1, t.2)) =~= gutmann_fixed());
        let mut k: usize = 0;
        while k < 27
            invariant
                k <= 27,
                r@.len() == 4 + k,
                pattern_models(r@) =~= four_random() + gutmann_fixed().subrange(0, k as int),
                fixed@.map_values(|t: (u8, u8, u8)| triple(t.0, t.1, t.2)) == gutmann_fixed(),
                forall|i: int| 0 <= i < r@.len() ==> (#[trigger] r@[i])@.wf(),
            decreases 27 - k,
        {
            let (a, b, c) = fixed[k];
            let p = WipePattern::Custom(vec![a, b, c]);
            let ghost pm = p@;
            let ghost before = r@;
            assert(pm == gutmann_fixed()[k as int]);
            r.push(p);
            assert(pattern_models(r@) =~= pattern_models(before).push(pm));
            assert(four_random() + gutmann_fixed().subrange(0, k + 1) =~= (four_random()
                + gutmann_fixed().subrange(0, k as int)).push(pm));
            assert(pattern_models(r@) =~= four_random() + gutmann_fixed().subrange(0, k + 1));
            k = k + 1;
        }
        assert(gutmann_fixed().subrange(0, 27) =~= gutmann_fixed());
        push_random(&mut r);
        assert(pattern_models(r@) =~= gutmann_model());
        r
    }
}

/// DoD 5220.22-M runs zeros, ones, random; VSITR alternates zeros and ones
/// six times and ends random; Gutmann runs 35 passes.
pub proof fn lemma_legacy_pass_counts()
    ensures
        LegacyStandard::Dod522022M.patterns_model() == seq![
            PatternModel::Zeros,
            PatternModel::Ones,
            PatternModel::Random,
        ],
        LegacyStandard::VsitrStandard.patterns_model().len() == 7,
        forall|i: int|
            0 <= i < 6 ==> #[trigger] LegacyStandard::VsitrStandard.patterns_model()[i] == if i % 2
                == 0 {
                PatternModel::Zeros
            } else {
                PatternModel::Ones
            },
        LegacyStandard::VsitrStandard.patterns_model()[6] == PatternModel::Random,
        LegacyStandard::Gutmann.patterns_model().len() == 35,
{
}

/// Appends four `Random` passes.
fn push_random(r: &mut Vec<WipePattern>)
    ensures
        final(r)@.len() == old(r)@.len() + 4,
        pattern_models(final(r)@) =~= pattern_models(old(r)@) + four_random(),
        forall|i: int| 0 <= i < old(r)@.len() ==> final(r)@[i] == old(r)@[i],
        forall|i: int| old(r)@.len() <= i < final(r)@.len() ==> (#[trigger] final(r)@[i])@ is Random,
{
    let mut k: usize = 0;
    while k < 4
        invariant
            k <= 4,
            r@.len() == old(r)@.len() + k,
            pattern_models(r@) =~= pattern_models(old(r)@) + four_random().subrange(0, k as int),
            forall|i: int| 0 <= i < old(r)@.len() ==> r@[i] == old(r)@[i],
            forall|i: int| old(r)@.len() <= i < r@.len() ==> (#[trigger] r@[i])@ is Random,
        decreases 4 - k,
    {
        r.push(WipePattern::Random);
        assert(pattern_models(r@) =~= pattern_models(old(r)@) + four_random().subrange(0, k + 1));
        k = k + 1;
    }
    assert(four_random().subrange(0, 4) =~= four_random());
}

} // verus!
