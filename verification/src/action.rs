//! The generic action capability: something that can be applied to a
//! target, mutating it exactly when it mechanically succeeds and leaving it
//! untouched when it fails.

use vstd::prelude::*;

verus! {

/// An action on a target of type `T`. Applying it either succeeds, leaving
/// the target in the state `applied` describes, or fails with the error
/// `failure` describes, leaving the target unchanged.
pub trait Action<T: View>: Sized {
    type Error;

    /// Whether applying this action to a target in the given state
    /// completes.
    spec fn succeeds(self, target: T::V) -> bool;

    /// The target's state after a successful application.
    spec fn applied(self, target: T::V) -> T::V;

    /// The error reported when the application cannot complete.
    spec fn failure(self, target: T::V) -> Self::Error;

    fn apply_to(self, target: &mut T) -> (r: Result<(), Self::Error>)
        ensures
            r is Ok <==> self.succeeds(old(target)@),
            self.succeeds(old(target)@) ==> final(target)@ == self.applied(old(target)@),
            !self.succeeds(old(target)@) ==> final(target)@ == old(target)@ && r == Err::<
                (),
                Self::Error,
            >(self.failure(old(target)@)),
    ;
}

/// Whether a sequence of actions, applied in order, all succeed.
pub open spec fn all_succeed<T: View, A: Action<T>>(actions: Seq<A>, target: T::V) -> bool
    decreases actions.len(),
{
    actions.len() == 0 || (actions[0].succeeds(target) && all_succeed(
        actions.drop_first(),
        actions[0].applied(target),
    ))
}

/// The target's state after applying a sequence of actions in order, when
/// they all succeed.
pub open spec fn applied_all<T: View, A: Action<T>>(actions: Seq<A>, target: T::V) -> T::V
    decreases actions.len(),
{
    if actions.len() == 0 {
        target
    } else {
        applied_all(actions.drop_first(), actions[0].applied(target))
    }
}

/// The target's state when a sequence of actions is applied in order and
/// one fails: everything before the first failing action has been applied.
pub open spec fn failed_state<T: View, A: Action<T>>(actions: Seq<A>, target: T::V) -> T::V
    decreases actions.len(),
{
    if actions.len() == 0 {
        target
    } else if !actions[0].succeeds(target) {
        target
    } else {
        failed_state(actions.drop_first(), actions[0].applied(target))
    }
}

/// The error of the first failing action in a sequence; meaningful only
/// when one fails.
pub open spec fn first_failure<T: View, A: Action<T>>(actions: Seq<A>, target: T::V) -> A::Error
    decreases actions.len(),
{
    if actions.len() == 0 {
        arbitrary()
    } else if !actions[0].succeeds(target) {
        actions[0].failure(target)
    } else {
        first_failure(actions.drop_first(), actions[0].applied(target))
    }
}

/// The mirror capability on the target's side: a target is actionable by
/// every action on it, one at a time or in sequence. Applying a sequence
/// stops at the first failing action, leaving everything before it
/// applied.
pub trait Actionable<A>: View + Sized where A: Action<Self> {
    fn apply(&mut self, action: A) -> (r: Result<(), A::Error>)
        ensures
            r is Ok <==> action.succeeds(old(self)@),
            action.succeeds(old(self)@) ==> final(self)@ == action.applied(old(self)@),
            !action.succeeds(old(self)@) ==> final(self)@ == old(self)@ && r == Err::<
                (),
                A::Error,
            >(action.failure(old(self)@)),
    ;

    fn apply_all(&mut self, actions: Vec<A>) -> (r: Result<(), A::Error>) where A: Copy
        ensures
            r is Ok <==> all_succeed::<Self, A>(actions@, old(self)@),
            r is Ok ==> final(self)@ == applied_all::<Self, A>(actions@, old(self)@),
            !all_succeed::<Self, A>(actions@, old(self)@) ==> final(self)@ == failed_state::<
                Self,
                A,
            >(actions@, old(self)@) && r == Err::<(), A::Error>(
                first_failure::<Self, A>(actions@, old(self)@),
            ),
    ;
}

/// Apply the actions from position `i` on, stopping at the first failure.
fn apply_all_from<T: View, A: Action<T> + Copy>(target: &mut T, actions: &Vec<A>, i: usize) -> (r:
    Result<(), A::Error>)
    requires
        i <= actions@.len(),
    ensures
        r is Ok <==> all_succeed::<T, A>(actions@.skip(i as int), old(target)@),
        r is Ok ==> final(target)@ == applied_all::<T, A>(actions@.skip(i as int), old(target)@),
        !all_succeed::<T, A>(actions@.skip(i as int), old(target)@) ==> final(target)@
            == failed_state::<T, A>(actions@.skip(i as int), old(target)@) && r == Err::<
            (),
            A::Error,
        >(first_failure::<T, A>(actions@.skip(i as int), old(target)@)),
    decreases actions@.len() - i,
{
    let ghost suffix = actions@.skip(i as int);
    if i == actions.len() {
        assert(suffix.len() == 0);
        Ok(())
    } else {
        proof {
            assert(suffix.drop_first() =~= actions@.skip(i + 1));
            assert(suffix[0] == actions@[i as int]);
        }
        let action = actions[i];
        match action.apply_to(target) {
            Ok(()) => apply_all_from(target, actions, i + 1),
            Err(e) => Err(e),
        }
    }
}

impl<A, T> Actionable<A> for T where T: View, A: Action<T> {
    fn apply(&mut self, action: A) -> (r: Result<(), A::Error>) {
        action.apply_to(self)
    }

    fn apply_all(&mut self, actions: Vec<A>) -> (r: Result<(), A::Error>) where A: Copy {
        let r = apply_all_from(self, &actions, 0);
        proof {
            assert(actions@.skip(0) =~= actions@);
        }
        r
    }
}

} // verus!
