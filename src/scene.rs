use vstd::prelude::*;

verus! {

/// What one tick does to a body, once its force has been accumulated.
#[derive(Clone, Copy, Debug, PartialEq, Eq, Structural)]
pub enum Step {
    /// The locked body: moved by its own displacement from the origin, and
    /// not integrated.
    Anchor,
    /// Any other body: moved by the opposite of the locked body's
    /// displacement, then integrated over the step.
    Follow,
}

/// The step that body `i` takes when the view is locked on body `lock_at`.
pub open spec fn step_for(i: int, lock_at: int) -> Step {
    if i == lock_at {
        Step::Anchor
    } else {
        Step::Follow
    }
}

/// The steps of one tick over `count` bodies, the view locked on `lock_at`.
pub fn tick_plan(count: usize, lock_at: usize) -> (r: Vec<Step>)
    requires
        lock_at < count,
    ensures
        r@.len() == count,
        forall|i: int| 0 <= i < count ==> r@[i] == step_for(i, lock_at as int),
{
    let mut r: Vec<Step> = Vec::with_capacity(count);
    let mut i: usize = 0;
    while i < count
        invariant
            i <= count,
            r@.len() == i,
            forall|j: int| 0 <= j < i ==> r@[j] == step_for(j, lock_at as int),
        decreases count - i,
    {
        if i == lock_at {
            r.push(Step::Anchor);
        } else {
            r.push(Step::Follow);
        }
        i = i + 1;
    }
    r
}

/// The number of ticks advanced per frame: `speed` where given, else one.
pub fn ticks_per_frame(speed: Option<usize>) -> (r: usize)
    ensures
        r == match speed {
            Some(s) => s,
            None => 1,
        },
{
    match speed {
        Some(s) => s,
        None => 1,
    }
}

} // verus!
