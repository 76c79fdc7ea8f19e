//! The sequence of passes and checks each standard runs.

use vstd::prelude::*;
use crate::patterns::{PatternModel, WipePattern};
use crate::standards::{pattern_models, SanitizationMethod, VerificationLevel, WipeStandard};

verus! {

/// One step of a wipe: a full overwrite pass, or a check of the file's content
/// against the buffer the last pass was generated from.
#[derive(Debug)]
pub enum Step {
    /// overwrite the whole file with the pattern
    Overwrite(WipePattern),
    /// check the file at this level
    Verify(VerificationLevel),
}

/// Model of a [`Step`].
pub enum StepModel {
    Overwrite(PatternModel),
    Verify(VerificationLevel),
}

impl View for Step {
    type V = StepModel;

    open spec fn view(&self) -> StepModel {
        match self {
            Step::Overwrite(p) => StepModel::Overwrite(p@),
            Step::Verify(l) => StepModel::Verify(*l),
        }
    }
}

/// The models of a sequence of steps.
pub open spec fn step_models(s: Seq<Step>) -> Seq<StepModel> {
    s.map_values(|x: Step| x@)
}

/// Every pattern a plan overwrites with is well formed.
pub open spec fn steps_wf(s: Seq<StepModel>) -> bool {
    forall|i: int| 0 <= i < s.len() && (#[trigger] s[i]) is Overwrite ==> s[i]->Overwrite_0.wf()
}

/// A check at `level`, or nothing when checking is disabled.
pub open spec fn verify_with(level: VerificationLevel) -> Seq<StepModel> {
    if level is Disabled {
        seq![]
    } else {
        seq![StepModel::Verify(level)]
    }
}

/// Each pattern of `ps` as a pass, each pass followed by a check at `each`.
pub open spec fn passes_then(ps: Seq<PatternModel>, each: VerificationLevel) -> Seq<StepModel>
    decreases ps.len(),
{
    if ps.len() == 0 {
        seq![]
    } else {
        passes_then(ps.drop_last(), each) + seq![StepModel::Overwrite(ps.last())] + verify_with(
            each,
        )
    }
}

/// The software Purge sequence.
pub open spec fn purge_patterns() -> Seq<PatternModel> {
    seq![PatternModel::Random, PatternModel::Zeros, PatternModel::Ones, PatternModel::Random]
}

/// The steps a standard runs. `erased` says that a hardware secure erase
/// succeeded, which only a Modern Purge wipe takes into account.
pub open spec fn plan_model(standard: WipeStandard, erased: bool) -> Seq<StepModel> {
    match standard {
        WipeStandard::Modern(c) => {
            let passes = match c.method {
                SanitizationMethod::Clear => seq![PatternModel::Random],
                SanitizationMethod::Purge => if erased {
                    seq![]
                } else {
                    purge_patterns()
                },
            };
            passes_then(passes, VerificationLevel::Disabled) + verify_with(c.verify_level)
        },
        WipeStandard::Legacy(c) => {
            let each = if c.extra_verification {
                VerificationLevel::Basic
            } else {
                VerificationLevel::Disabled
            };
            let last = if c.extra_verification {
                VerificationLevel::Full
            } else {
                VerificationLevel::Disabled
            };
            passes_then(c.standard.patterns_model(), each) + verify_with(last)
        },
        WipeStandard::Custom(c) => {
            let each = if c.verify_each_pass {
                VerificationLevel::Full
            } else {
                VerificationLevel::Disabled
            };
            passes_then(pattern_models(c.passes@), each)
        },
    }
}

proof fn lemma_passes_then_push(ps: Seq<PatternModel>, p: PatternModel, each: VerificationLevel)
    ensures
        passes_then(ps.push(p), each) == passes_then(ps, each) + seq![StepModel::Overwrite(p)]
            + verify_with(each),
{
    assert(ps.push(p).drop_last() =~= ps);
}

/// Appends each of `ps` as a pass, each followed by a check at `each`.
fn append_passes(plan: &mut Vec<Step>, ps: &Vec<WipePattern>, each: VerificationLevel)
    requires
        forall|i: int| 0 <= i < ps@.len() ==> (#[trigger] ps@[i])@.wf(),
        steps_wf(step_models(old(plan)@)),
    ensures
        step_models(final(plan)@) == step_models(old(plan)@) + passes_then(pattern_models(ps@), each),
        steps_wf(step_models(final(plan)@)),
{
    let ghost start = step_models(plan@);
    let mut i: usize = 0;
    while i < ps.len()
        invariant
            i <= ps@.len(),
            forall|j: int| 0 <= j < ps@.len() ==> (#[trigger] ps@[j])@.wf(),
            step_models(plan@) == start + passes_then(pattern_models(ps@).subrange(0, i as int), each),
            steps_wf(step_models(plan@)),
        decreases ps@.len() - i,
    {
        let ghost before = step_models(plan@);
        let p = ps[i].clone();
        let ghost pm = p@;
        plan.push(Step::Overwrite(p));
        assert(step_models(plan@) =~= before.push(StepModel::Overwrite(pm)));
        match each {
            VerificationLevel::Disabled => {},
            _ => {
                plan.push(Step::Verify(each));
            },
        }
        assert(step_models(plan@) =~= before + seq![StepModel::Overwrite(pm)] + verify_with(each));
        assert(pattern_models(ps@).subrange(0, i + 1) =~= pattern_models(ps@).subrange(0, i as int).push(pm));
        proof { lemma_passes_then_push(pattern_models(ps@).subrange(0, i as int), pm, each); }
        assert(step_models(plan@) =~= start + passes_then(pattern_models(ps@).subrange(0, i + 1), each));
        i = i + 1;
    }
    assert(pattern_models(ps@).subrange(0, i as int) =~= pattern_models(ps@));
}

/// Appends a check at `level`, if checking is enabled.
fn append_verify(plan: &mut Vec<Step>, level: VerificationLevel)
    requires
        steps_wf(step_models(old(plan)@)),
    ensures
        step_models(final(plan)@) == step_models(old(plan)@) + verify_with(level),
        steps_wf(step_models(final(plan)@)),
{
    match level {
        VerificationLevel::Disabled => {
            assert(step_models(plan@) =~= step_models(plan@) + verify_with(level));
        },
        _ => {
            let ghost before = step_models(plan@);
            plan.push(Step::Verify(level));
            assert(step_models(plan@) =~= before + verify_with(level));
        },
    }
}

/// The steps `standard` runs, given whether a hardware erase succeeded.
pub fn build_plan(standard: &WipeStandard, erased: bool) -> (r: Vec<Step>)
    requires
        standard.wf(),
    ensures
        step_models(r@) == plan_model(*standard, erased),
        steps_wf(step_models(r@)),
{
    let mut plan: Vec<Step> = Vec::new();
    assert(step_models(plan@) =~= seq![]);
    match standard {
        WipeStandard::Modern(c) => {
            let passes: Vec<WipePattern> = match c.method {
                SanitizationMethod::Clear => vec![WipePattern::Random],
                SanitizationMethod::Purge => if erased {
                    Vec::new()
                } else {
                    vec![WipePattern::Random, WipePattern::Zeros, WipePattern::Ones, WipePattern::Random]
                },
            };
            let ghost pm = pattern_models(passes@);
            proof {
                match c.method {
                    SanitizationMethod::Clear => assert(pm =~= seq![PatternModel::Random]),
                    SanitizationMethod::Purge => if erased {
                        assert(pm =~= seq![]);
                    } else {
                        assert(pm =~= purge_patterns());
                    },
                }
            }
            append_passes(&mut plan, &passes, VerificationLevel::Disabled);
            append_verify(&mut plan, c.verify_level);
            assert(step_models(plan@) =~= plan_model(*standard, erased));
        },
        WipeStandard::Legacy(c) => {
            let passes = c.standard.get_patterns();
            let (each, last) = if c.extra_verification {
                (VerificationLevel::Basic, VerificationLevel::Full)
            } else {
                (VerificationLevel::Disabled, VerificationLevel::Disabled)
            };
            append_passes(&mut plan, &passes, each);
            append_verify(&mut plan, last);
            assert(step_models(plan@) =~= plan_model(*standard, erased));
        },
        WipeStandard::Custom(c) => {
            let each = if c.verify_each_pass {
                VerificationLevel::Full
            } else {
                VerificationLevel::Disabled
            };
            append_passes(&mut plan, &c.passes, each);
            assert(step_models(plan@) =~= plan_model(*standard, erased));
        },
    }
    plan
}

/// Some step of `s` overwrites the file.
pub open spec fn overwrites(s: Seq<StepModel>) -> bool {
    exists|i: int| 0 <= i < s.len() && (#[trigger] s[i]) is Overwrite
}

/// Whether some step of `plan` overwrites the file.
pub fn has_overwrite(plan: &Vec<Step>) -> (r: bool)
    ensures
        r == overwrites(step_models(plan@)),
        plan@.len() <= usize::MAX,
{
    let n = plan.len();
    let mut i: usize = 0;
    while i < n
        invariant
            n == plan@.len(),
            i <= n,
            forall|k: int| 0 <= k < i ==> !((#[trigger] step_models(plan@)[k]) is Overwrite),
        decreases n - i,
    {
        match &plan[i] {
            Step::Overwrite(_) => {
                assert(step_models(plan@)[i as int] is Overwrite);
                return true;
            },
            Step::Verify(_) => {},
        }
        i = i + 1;
    }
    false
}

} // verus!
