//! Who holds the guards. Every dispatch on its way, every live handle and
//! every handle that is being finished holds exactly one guard, and the module
//! is active exactly while any of them exists. This module states that of
//! every course that the operations of this library can take.

use crate::dispatch::{completed, keeps_guard, shown, Completion, Dispatch};
use crate::lifecycle::{transition_of, users_after, LifecycleEvent, Transition};
use crate::notification::ended;
use crate::request::{Kind, NotificationRequest};
use crate::status::{NotificationError, StatusCodes};
use vstd::prelude::*;

verus! {

/// One operation of the library, as far as guards are concerned.
pub enum Step {
    /// `show` on a builder; `accepted` says whether its text was taken.
    Show { accepted: bool },
    /// `complete` on a dispatch of `kind` whose call returned `status`.
    Complete { kind: Kind, status: i32 },
    /// `finish` on a handle.
    Finish,
    /// `complete` or `fail` on the end of a handle whose call returned
    /// `status`.
    End { status: i32 },
}

/// The step that a `show` is.
pub open spec fn show_step(accepted: bool) -> Step {
    Step::Show { accepted }
}

/// The step that a `complete` or a `fail` on the end of a handle is.
pub open spec fn end_step(status: i32) -> Step {
    Step::End { status }
}

/// The step that a `complete` on a dispatch is.
pub open spec fn complete_step(kind: Kind, status: i32) -> Step {
    Step::Complete { kind, status }
}

/// What is out at some moment: the users that the lifecycle counts, the
/// holders of guards by their sort, and whether the module is initialised.
pub struct Holdings {
    pub users: nat,
    pub dispatches: nat,
    pub handles: nat,
    pub endings: nat,
    pub initialised: bool,
}

impl Holdings {
    /// Nothing is out and the module is not initialised.
    pub open spec fn none() -> Holdings {
        Holdings { users: 0, dispatches: 0, handles: 0, endings: 0, initialised: false }
    }

    /// Every holder has one guard, nobody else has one, and the module is
    /// initialised exactly while a guard is out.
    pub open spec fn consistent(self) -> bool {
        &&& self.users == self.dispatches + self.handles + self.endings
        &&& self.initialised == (self.users > 0)
    }

    /// Nobody holds a guard.
    pub open spec fn idle(self) -> bool {
        self.dispatches == 0 && self.handles == 0 && self.endings == 0
    }

    /// `step` has something to work on: a dispatch to complete, a handle to
    /// finish, an ending to settle. A `show` is always possible.
    pub open spec fn allows(self, step: Step) -> bool {
        match step {
            Step::Show { .. } => true,
            Step::Complete { .. } => self.dispatches > 0,
            Step::Finish => self.handles > 0,
            Step::End { .. } => self.endings > 0,
        }
    }

    /// The bracket call that `step` makes due.
    pub open spec fn transition(self, codes: StatusCodes, step: Step) -> Transition {
        match step {
            Step::Show { accepted } => if accepted {
                transition_of(self.users, LifecycleEvent::Acquire)
            } else {
                Transition::Stay
            },
            Step::Complete { kind, status } => if keeps_guard(kind, codes, status) {
                Transition::Stay
            } else {
                transition_of(self.users, LifecycleEvent::Release)
            },
            Step::Finish => Transition::Stay,
            Step::End { .. } => transition_of(self.users, LifecycleEvent::Release),
        }
    }

    /// What is out after `step`.
    pub open spec fn after(self, codes: StatusCodes, step: Step) -> Holdings {
        let initialised = match self.transition(codes, step) {
            Transition::Stay => self.initialised,
            Transition::Activate => true,
            Transition::Deactivate => false,
        };
        match step {
            Step::Show { accepted } => if accepted {
                Holdings {
                    users: users_after(self.users, LifecycleEvent::Acquire),
                    dispatches: self.dispatches + 1,
                    initialised,
                    ..self
                }
            } else {
                self
            },
            Step::Complete { kind, status } => if keeps_guard(kind, codes, status) {
                Holdings {
                    dispatches: (self.dispatches - 1) as nat,
                    handles: self.handles + 1,
                    initialised,
                    ..self
                }
            } else {
                Holdings {
                    users: users_after(self.users, LifecycleEvent::Release),
                    dispatches: (self.dispatches - 1) as nat,
                    initialised,
                    ..self
                }
            },
            Step::Finish => Holdings {
                handles: (self.handles - 1) as nat,
                endings: self.endings + 1,
                initialised,
                ..self
            },
            Step::End { status } => Holdings {
                users: users_after(self.users, LifecycleEvent::Release),
                endings: (self.endings - 1) as nat,
                initialised,
                ..self
            },
        }
    }

    /// Every step of `steps` has something to work on when its turn comes.
    pub open spec fn allows_all(self, codes: StatusCodes, steps: Seq<Step>) -> bool
        decreases steps.len(),
    {
        if steps.len() == 0 {
            true
        } else {
            &&& self.allows(steps[0])
            &&& self.after(codes, steps[0]).allows_all(codes, steps.drop_first())
        }
    }

    /// What is out after `steps`, in order.
    pub open spec fn after_all(self, codes: StatusCodes, steps: Seq<Step>) -> Holdings
        decreases steps.len(),
    {
        if steps.len() == 0 {
            self
        } else {
            self.after(codes, steps[0]).after_all(codes, steps.drop_first())
        }
    }
}

/// A step that has something to work on keeps the holdings consistent. Where
/// it gives a guard back, a guard is out, so that the lifecycle can take it;
/// and it deinitialises the module only where it leaves no holder at all.
pub proof fn lemma_step(holdings: Holdings, codes: StatusCodes, step: Step)
    requires
        holdings.consistent(),
        holdings.allows(step),
    ensures
        holdings.after(codes, step).consistent(),
        (step is Complete || step is End) ==> holdings.users > 0,
        holdings.transition(codes, step) == Transition::Deactivate ==> holdings.after(
            codes,
            step,
        ).idle(),
        holdings.transition(codes, step) == Transition::Activate ==> holdings.idle(),
{
}

/// Whatever course the operations take, consistent holdings stay consistent.
pub proof fn lemma_course(holdings: Holdings, codes: StatusCodes, steps: Seq<Step>)
    requires
        holdings.consistent(),
        holdings.allows_all(codes, steps),
    ensures
        holdings.after_all(codes, steps).consistent(),
    decreases steps.len(),
{
    if steps.len() > 0 {
        lemma_step(holdings, codes, steps[0]);
        lemma_course(holdings.after(codes, steps[0]), codes, steps.drop_first());
    }
}

/// Whatever course the operations take from a start with nothing out, every
/// holder has its guard, nobody else has one, and the module is initialised
/// exactly while there is a holder.
pub proof fn lemma_course_from_nothing(codes: StatusCodes, steps: Seq<Step>)
    requires
        Holdings::none().allows_all(codes, steps),
    ensures
        Holdings::none().after_all(codes, steps).consistent(),
        Holdings::none().after_all(codes, steps).initialised <==> !Holdings::none().after_all(
            codes,
            steps,
        ).idle(),
{
    lemma_course(Holdings::none(), codes, steps);
}

/// The steps count users as `show` does: what `show` leaves of the count of
/// users is what the step of that name leaves, and the module's initialise
/// entry point is due exactly where the step says so.
pub proof fn lemma_show_is_a_step<T, C>(
    holdings: Holdings,
    codes: StatusCodes,
    kind: Kind,
    request: NotificationRequest<C>,
    pending: Map<usize, C>,
    result: Result<Dispatch<T>, NotificationError>,
    users_after: nat,
    pending_after: Map<usize, C>,
)
    requires
        shown(kind, request, holdings.users, pending, result, users_after, pending_after),
    ensures
        users_after == holdings.after(codes, show_step(result is Ok)).users,
        result matches Ok(dispatch) ==> (dispatch.spec_activate() <==> holdings.transition(
            codes,
            show_step(true),
        ) == Transition::Activate),
{
}

/// The steps count users as `complete` does, and the module's deinitialise
/// entry point is due exactly where the step says so.
pub proof fn lemma_complete_is_a_step<R>(
    holdings: Holdings,
    codes: StatusCodes,
    kind: Kind,
    status: i32,
    completion: Completion<R>,
    users_after: nat,
)
    requires
        holdings.users > 0,
        completed(kind, codes, status, holdings.users, completion, users_after),
    ensures
        users_after == holdings.after(codes, complete_step(kind, status)).users,
        completion.deactivate <==> holdings.transition(codes, complete_step(kind, status))
            == Transition::Deactivate,
{
}

/// The steps count users as the end of a handle does, whether the finishing
/// call succeeded or not, and the module's deinitialise entry point is due
/// exactly where the step says so.
pub proof fn lemma_end_is_a_step(
    holdings: Holdings,
    codes: StatusCodes,
    status: i32,
    deactivate: bool,
    users_after: nat,
)
    requires
        holdings.users > 0,
        ended(holdings.users, deactivate, users_after),
    ensures
        users_after == holdings.after(codes, end_step(status)).users,
        deactivate <==> holdings.transition(codes, end_step(status)) == Transition::Deactivate,
{
}

} // verus!
