//! Protocol context in the malicious setting, secure against one active adversary among the
//! three helpers.
use crate::ff::Field;
use crate::helpers::Role;
use crate::protocol::context::semi_honest::{self, SemiHonestContext};
use crate::protocol::malicious::SecurityValidatorAccumulator;
use crate::protocol::Step;
use crate::secret_sharing::Replicated;
use std::sync::Arc;
use vstd::prelude::*;

verus! {

/// Calls `<Arc<T> as Clone>::clone`, which makes another pointer to the same allocation; the
/// contract claims that it holds the same value.
#[verifier::external_body]
fn arc_clone<T>(this: &Arc<T>) -> (r: Arc<T>)
    ensures
        r == *this,
{
    Arc::clone(this)
}

/// What the contexts of all steps of a malicious computation share.
#[derive(Debug)]
struct ContextInner<F: Field> {
    role: Role,
    accumulator: SecurityValidatorAccumulator<F>,
    r_share: Replicated<F>,
}

impl<F: Field> ContextInner<F> {
    fn new(
        source: &semi_honest::ContextInner,
        accumulator: SecurityValidatorAccumulator<F>,
        r_share: Replicated<F>,
    ) -> (r: Arc<Self>)
        ensures
            r.role == source.role,
            r.accumulator == accumulator,
            r.r_share == r_share,
    {
        Arc::new(ContextInner { role: source.role, accumulator, r_share })
    }
}

/// Protocol context in the malicious setting: that of the semi-honest setting, together with
/// the validator's accumulator and this helper's share of the random value `r`.
#[derive(Debug)]
pub struct MaliciousContext<F: Field> {
    inner: Arc<ContextInner<F>>,
    step: Step,
}

impl<F: Field> MaliciousContext<F> {
    pub closed spec fn spec_role(&self) -> Role {
        self.inner.role
    }

    pub closed spec fn spec_step(&self) -> Step {
        self.step
    }

    pub closed spec fn spec_accumulator(&self) -> SecurityValidatorAccumulator<F> {
        self.inner.accumulator
    }

    pub closed spec fn spec_r_share(&self) -> Replicated<F> {
        self.inner.r_share
    }

    /// The malicious context that `source` upgrades to: same role and step.
    pub(crate) fn new(
        source: &SemiHonestContext<F>,
        acc: SecurityValidatorAccumulator<F>,
        r_share: Replicated<F>,
    ) -> (r: Self)
        ensures
            r.spec_role() == source.spec_role(),
            r.spec_step()@ == source.spec_step()@,
            r.spec_accumulator() == acc,
            r.spec_r_share() == r_share,
    {
        Self { inner: ContextInner::new(source.inner(), acc, r_share), step: source.step().clone() }
    }

    /// The accumulator of the security validator.
    pub fn accumulator(&self) -> (r: SecurityValidatorAccumulator<F>)
        ensures
            r == self.spec_accumulator(),
    {
        self.inner.accumulator
    }

    /// Reinterprets the context as semi-honest, for protocols that are not generic over the
    /// kind of share. The result is tied to the same role and step.
    pub fn to_semi_honest(self) -> (r: SemiHonestContext<F>)
        ensures
            r.spec_role() == self.spec_role(),
            r.spec_step() == self.spec_step(),
    {
        let ctx = SemiHonestContext::new(self.inner.role);
        ctx.with_step(self.step)
    }

    /// The role this helper plays.
    pub fn role(&self) -> (r: Role)
        ensures
            r == self.spec_role(),
    {
        self.inner.role
    }

    /// The step the computation is in.
    pub fn step(&self) -> (r: &Step)
        ensures
            *r == self.spec_step(),
    {
        &self.step
    }

    /// The context of the substep `step` of this one. It shares everything else with this
    /// context.
    pub fn narrow(&self, step: &str) -> (r: Self)
        ensures
            r.spec_role() == self.spec_role(),
            r.spec_step()@ == self.spec_step()@ + "/"@ + step@,
            r.spec_accumulator() == self.spec_accumulator(),
            r.spec_r_share() == self.spec_r_share(),
    {
        Self { inner: arc_clone(&self.inner), step: self.step.narrow(step) }
    }
}

/// `to` is the context of the substep `substep` of `from`, as `narrow` makes it.
pub open spec fn narrowed<F: Field>(
    from: MaliciousContext<F>,
    to: MaliciousContext<F>,
    substep: Seq<char>,
) -> bool {
    &&& to.spec_role() == from.spec_role()
    &&& to.spec_step()@ == from.spec_step()@ + "/"@ + substep
    &&& to.spec_accumulator() == from.spec_accumulator()
    &&& to.spec_r_share() == from.spec_r_share()
}

/// The path of the step reached from `path` through the substeps `substeps`, in order.
pub open spec fn path_below(path: Seq<char>, substeps: Seq<Seq<char>>) -> Seq<char>
    decreases substeps.len(),
{
    if substeps.len() == 0 {
        path
    } else {
        path_below(path, substeps.drop_last()) + "/"@ + substeps.last()
    }
}

/// Every context derived from one context by any number of narrowings returns the same
/// accumulator, plays the same role and holds the same share of `r`; its step is the path of
/// the substeps below the first context's step. Here `contexts[i + 1]` is the context of the
/// substep `substeps[i]` of `contexts[i]`.
pub proof fn law_narrowing_keeps_accumulator<F: Field>(
    contexts: Seq<MaliciousContext<F>>,
    substeps: Seq<Seq<char>>,
)
    requires
        contexts.len() == substeps.len() + 1,
        forall|i: int|
            0 <= i < substeps.len() ==> #[trigger] narrowed(contexts[i], contexts[i + 1], substeps[i]),
    ensures
        contexts.last().spec_accumulator() == contexts[0].spec_accumulator(),
        contexts.last().spec_role() == contexts[0].spec_role(),
        contexts.last().spec_r_share() == contexts[0].spec_r_share(),
        contexts.last().spec_step()@ == path_below(contexts[0].spec_step()@, substeps),
    decreases substeps.len(),
{
    if substeps.len() > 0 {
        let n = substeps.len() - 1;
        let shorter = contexts.drop_last();
        assert forall|i: int| 0 <= i < substeps.drop_last().len() implies #[trigger] narrowed(
            shorter[i],
            shorter[i + 1],
            substeps.drop_last()[i],
        ) by {
            assert(narrowed(contexts[i], contexts[i + 1], substeps[i]));
        }
        law_narrowing_keeps_accumulator(shorter, substeps.drop_last());
        assert(narrowed(contexts[n], contexts[n + 1], substeps[n]));
    }
}

impl<F: Field> SemiHonestContext<F> {
    /// Upgrades the context to the malicious setting, with the validator's accumulator and
    /// this helper's share of `r`.
    pub fn upgrade_to_malicious(
        self,
        accumulator: SecurityValidatorAccumulator<F>,
        r_share: Replicated<F>,
    ) -> (r: MaliciousContext<F>)
        ensures
            r.spec_role() == self.spec_role(),
            r.spec_step()@ == self.spec_step()@,
            r.spec_accumulator() == accumulator,
            r.spec_r_share() == r_share,
    {
        MaliciousContext::new(&self, accumulator, r_share)
    }
}

} // verus!
