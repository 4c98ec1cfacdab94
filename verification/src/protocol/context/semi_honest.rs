//! Protocol context in the semi-honest setting.
use crate::ff::Field;
use crate::helpers::Role;
use crate::protocol::Step;
use std::marker::PhantomData;
use std::sync::Arc;
use vstd::prelude::*;

verus! {

/// What the contexts of all steps of a query share.
#[derive(Debug)]
pub struct ContextInner {
    pub role: Role,
}

/// Protocol context in the semi-honest setting: the role this helper plays and the step the
/// computation is in.
#[derive(Debug)]
pub struct SemiHonestContext<F: Field> {
    inner: Arc<ContextInner>,
    step: Step,
    field: PhantomData<F>,
}

impl<F: Field> SemiHonestContext<F> {
    /// The context of the root step, for a helper playing `role`.
    pub fn new(role: Role) -> (r: Self)
        ensures
            r.spec_role() == role,
            r.spec_step()@ == Step::root_path(),
    {
        SemiHonestContext {
            inner: Arc::new(ContextInner { role }),
            step: Step::root(),
            field: PhantomData,
        }
    }

    pub closed spec fn spec_role(&self) -> Role {
        self.inner.role
    }

    pub closed spec fn spec_step(&self) -> Step {
        self.step
    }

    /// What this context shares with the contexts of the other steps.
    pub(crate) fn inner(&self) -> (r: &ContextInner)
        ensures
            r.role == self.spec_role(),
    {
        &self.inner
    }

    /// The role this helper plays.
    pub fn role(&self) -> (r: Role)
        ensures
            r == self.spec_role(),
    {
        self.inner.role
    }

    /// The step the computation is in.
    pub fn step(&self) -> (r: &Step)
        ensures
            *r == self.spec_step(),
    {
        &self.step
    }

    /// The same context, moved to `step`.
    pub fn with_step(self, step: Step) -> (r: Self)
        ensures
            r.spec_role() == self.spec_role(),
            r.spec_step() == step,
    {
        SemiHonestContext { inner: self.inner, step, field: PhantomData }
    }
}

} // verus!
