//! The guarded action pipeline: a rule capability that judges actions
//! against a context and a target, a guard that couples the judgement with
//! the application so the target mutates only after the check passes, and a
//! compound rule set that chains independent checks.

use vstd::prelude::*;

use crate::action::Action;

verus! {

/// A rule set: decides whether an action is legal against a context and a
/// read-only view of the target, without touching either.
pub trait Rules<C, T: View, A>: Sized {
    type Error;

    /// Whether the rules allow the action.
    spec fn allows(&self, context: C, target: T::V, action: A) -> bool;

    /// The error reported when they do not.
    spec fn denial(&self, context: C, target: T::V, action: A) -> Self::Error;

    fn validate(&self, context: &C, target: &T, action: &A) -> (r: Result<(), Self::Error>)
        ensures
            r is Ok <==> self.allows(*context, target@, *action),
            !self.allows(*context, target@, *action) ==> r == Err::<(), Self::Error>(
                self.denial(*context, target@, *action),
            ),
    ;
}

/// Why a guarded application failed: the rules rejected the action, or the
/// rules passed but the action itself could not be mechanically applied.
/// The two cases stay distinct; a rule rejection never mutates the target.
#[derive(Debug)]
pub enum RulesGuardError<RE, AE, A> {
    RuleError { action: A, source: RE },
    ActionError { action: A, source: AE },
}

/// A target paired with the rule set that guards it: the target can only
/// be mutated through `apply_guarded`, which applies an action exactly when
/// the rules allow it and it mechanically succeeds.
#[derive(Debug, Clone)]
pub struct RulesGuard<R, T> {
    rules: R,
    target: T,
}

impl<R, T> RulesGuard<R, T> {
    /// The guarding rule set.
    pub closed spec fn spec_rules(&self) -> R {
        self.rules
    }

    /// The guarded target.
    pub closed spec fn spec_target(&self) -> T {
        self.target
    }

    pub fn new(rules: R, target: T) -> (s: Self)
        ensures
            s.spec_rules() == rules,
            s.spec_target() == target,
    {
        Self { rules, target }
    }

    pub fn rules(&self) -> (r: &R)
        ensures
            *r == self.spec_rules(),
    {
        &self.rules
    }

    pub fn target(&self) -> (t: &T)
        ensures
            *t == self.spec_target(),
    {
        &self.target
    }

    pub fn set_target(&mut self, target: T)
        ensures
            final(self).spec_target() == target,
            final(self).spec_rules() == old(self).spec_rules(),
    {
        self.target = target;
    }
}

impl<R, T: View> RulesGuard<R, T> {
    /// Check the action against the rules; only when they allow it, apply
    /// it to the target. A rejected or failed action leaves the target
    /// completely unmutated, and the two failures stay distinguishable.
    pub fn apply_guarded<C, A>(&mut self, action: A, context: &C) -> (r: Result<
        (),
        RulesGuardError<R::Error, A::Error, A>,
    >) where A: Action<T> + Copy, R: Rules<C, T, A>
        ensures
            final(self).spec_rules() == old(self).spec_rules(),
            r is Ok <==> (old(self).spec_rules().allows(
                *context,
                old(self).spec_target()@,
                action,
            ) && action.succeeds(old(self).spec_target()@)),
            r is Ok ==> final(self).spec_target()@ == action.applied(old(self).spec_target()@),
            !old(self).spec_rules().allows(*context, old(self).spec_target()@, action) ==> {
                &&& final(self).spec_target() == old(self).spec_target()
                &&& r matches Err(RulesGuardError::RuleError { action: a, source }) && a == action
                    && source == old(self).spec_rules().denial(
                    *context,
                    old(self).spec_target()@,
                    action,
                )
            },
            (old(self).spec_rules().allows(*context, old(self).spec_target()@, action)
                && !action.succeeds(old(self).spec_target()@)) ==> {
                &&& final(self).spec_target()@ == old(self).spec_target()@
                &&& r matches Err(RulesGuardError::ActionError { action: a, source }) && a == action
                    && source == action.failure(old(self).spec_target()@)
            },
    {
        match self.rules.validate(context, &self.target, &action) {
            Ok(()) => {},
            Err(source) => {
                return Err(RulesGuardError::RuleError { action, source });
            },
        }
        match action.apply_to(&mut self.target) {
            Ok(()) => Ok(()),
            Err(source) => Err(RulesGuardError::ActionError { action, source }),
        }
    }
}

/// The error of the first rule set in a sequence that denies the action;
/// meaningful only when one does.
pub open spec fn first_denial<C, T: View, A, R: Rules<C, T, A>>(
    rules: Seq<R>,
    context: C,
    target: T::V,
    action: A,
) -> R::Error
    decreases rules.len(),
{
    if rules.len() == 0 {
        arbitrary()
    } else if !rules[0].allows(context, target, action) {
        rules[0].denial(context, target, action)
    } else {
        first_denial(rules.drop_first(), context, target, action)
    }
}

/// If every rule set before position `i` allows the action and the one at
/// `i` denies it, the compound denial is the denial at `i`.
proof fn lemma_first_denial<C, T: View, A, R: Rules<C, T, A>>(
    rules: Seq<R>,
    context: C,
    target: T::V,
    action: A,
    i: int,
)
    requires
        0 <= i < rules.len(),
        forall|j: int| 0 <= j < i ==> #[trigger] rules[j].allows(context, target, action),
        !rules[i].allows(context, target, action),
    ensures
        first_denial(rules, context, target, action) == rules[i].denial(context, target, action),
    decreases rules.len(),
{
    if i > 0 {
        lemma_first_denial(rules.drop_first(), context, target, action, i - 1);
    }
}

/// Several independent rule sets applied in turn: the compound allows an
/// action only if every constituent does, and reports the first denial.
#[derive(Debug, Clone)]
pub struct CompoundRules<R> {
    rules: Vec<R>,
}

impl<R> CompoundRules<R> {
    /// The constituent rule sets, in the order they are consulted.
    pub closed spec fn spec_rules(&self) -> Seq<R> {
        self.rules@
    }

    pub fn new(rules: Vec<R>) -> (s: Self)
        ensures
            s.spec_rules() == rules@,
    {
        Self { rules }
    }
}

impl<C, T: View, A, R> Rules<C, T, A> for CompoundRules<R> where
    C: Copy,
    A: Copy,
    R: Rules<C, T, A>,
 {
    type Error = R::Error;

    open spec fn allows(&self, context: C, target: T::V, action: A) -> bool {
        forall|i: int|
            0 <= i < self.spec_rules().len() ==> #[trigger] self.spec_rules()[i].allows(
                context,
                target,
                action,
            )
    }

    open spec fn denial(&self, context: C, target: T::V, action: A) -> R::Error {
        first_denial(self.spec_rules(), context, target, action)
    }

    fn validate(&self, context: &C, target: &T, action: &A) -> (r: Result<(), R::Error>) {
        let mut i: usize = 0;
        while i < self.rules.len()
            invariant
                0 <= i <= self.rules.len(),
                forall|j: int|
                    0 <= j < i ==> #[trigger] self.spec_rules()[j].allows(
                        *context,
                        target@,
                        *action,
                    ),
            decreases self.rules.len() - i,
        {
            match self.rules[i].validate(context, target, action) {
                Ok(()) => {},
                Err(source) => {
                    proof {
                        lemma_first_denial(self.spec_rules(), *context, target@, *action, i as int);
                    }
                    return Err(source);
                },
            }
            i = i + 1;
        }
        Ok(())
    }
}

} // verus!
