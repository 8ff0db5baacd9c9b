//! The count of users that brackets the overlay module's initialise and
//! deinitialise entry points: the module is to be active exactly while at
//! least one user holds a guard.
//!
//! Every operation takes the lifecycle by `&mut`, so each is one indivisible
//! step. Threads that share a lifecycle share it behind a lock, and make the
//! bracket call that a step says is due before they let the lock go.
//!
//! A lifecycle has an identity, which whoever makes it chooses, and every
//! guard names the lifecycle that handed it out: a guard goes back where it
//! came from and nowhere else. Lifecycles that are in use side by side are to
//! have different identities.

use vstd::prelude::*;

verus! {

/// What a user does to the lifecycle.
#[derive(Clone, Copy, Debug, PartialEq, Eq, Structural)]
pub enum LifecycleEvent {
    Acquire,
    Release,
}

/// The bracket call that an event makes due.
#[derive(Clone, Copy, Debug, PartialEq, Eq, Structural)]
pub enum Transition {
    /// Nothing to call: the module stays as it is.
    Stay,
    /// The first user arrived: the module's initialise entry point is due.
    Activate,
    /// The last user left: the module's deinitialise entry point is due.
    Deactivate,
}

/// The number of users after `event`. A release with no user changes nothing.
pub open spec fn users_after(users: nat, event: LifecycleEvent) -> nat {
    match event {
        LifecycleEvent::Acquire => users + 1,
        LifecycleEvent::Release => if users == 0 {
            0
        } else {
            (users - 1) as nat
        },
    }
}

/// The bracket call that `event` makes due when `users` hold a guard.
pub open spec fn transition_of(users: nat, event: LifecycleEvent) -> Transition {
    match event {
        LifecycleEvent::Acquire => if users == 0 {
            Transition::Activate
        } else {
            Transition::Stay
        },
        LifecycleEvent::Release => if users == 1 {
            Transition::Deactivate
        } else {
            Transition::Stay
        },
    }
}

/// The number of users after the events of `trace`, in order.
pub open spec fn users_after_all(users: nat, trace: Seq<LifecycleEvent>) -> nat
    decreases trace.len(),
{
    if trace.len() == 0 {
        users
    } else {
        users_after_all(users_after(users, trace[0]), trace.drop_first())
    }
}

/// How often the events of `trace` make `wanted` due.
pub open spec fn count_transitions(
    users: nat,
    trace: Seq<LifecycleEvent>,
    wanted: Transition,
) -> nat
    decreases trace.len(),
{
    if trace.len() == 0 {
        0
    } else {
        let here: nat = if transition_of(users, trace[0]) == wanted {
            1
        } else {
            0
        };
        here + count_transitions(users_after(users, trace[0]), trace.drop_first(), wanted)
    }
}

/// How often the module is initialised over `trace`.
pub open spec fn activations(users: nat, trace: Seq<LifecycleEvent>) -> nat {
    count_transitions(users, trace, Transition::Activate)
}

/// How often the module is deinitialised over `trace`.
pub open spec fn deactivations(users: nat, trace: Seq<LifecycleEvent>) -> nat {
    count_transitions(users, trace, Transition::Deactivate)
}

/// No event of `trace` releases a guard that nobody holds.
pub open spec fn balanced(users: nat, trace: Seq<LifecycleEvent>) -> bool
    decreases trace.len(),
{
    if trace.len() == 0 {
        true
    } else {
        &&& trace[0] == LifecycleEvent::Release ==> users > 0
        &&& balanced(users_after(users, trace[0]), trace.drop_first())
    }
}

/// Some user holds a guard after every event of `trace` but, perhaps, the
/// last: the acquisitions overlap.
pub open spec fn overlapping(users: nat, trace: Seq<LifecycleEvent>) -> bool
    decreases trace.len(),
{
    if trace.len() <= 1 {
        true
    } else {
        &&& users_after(users, trace[0]) > 0
        &&& overlapping(users_after(users, trace[0]), trace.drop_first())
    }
}

/// `n` times the same event.
pub open spec fn repeated(event: LifecycleEvent, n: nat) -> Seq<LifecycleEvent> {
    Seq::new(n, |i: int| event)
}

/// 1 where the module is active, 0 where it is not.
pub open spec fn active(users: nat) -> nat {
    if users > 0 {
        1
    } else {
        0
    }
}

/// A token for one acquisition. It cannot be copied; handing it back to
/// `release` on the lifecycle that it names ends the acquisition.
#[derive(Debug)]
pub struct Guard {
    owner: u64,
}

impl Guard {
    pub closed spec fn spec_owner(&self) -> u64 {
        self.owner
    }

    /// The identity of the lifecycle that handed the guard out.
    #[verifier::when_used_as_spec(spec_owner)]
    pub fn owner(&self) -> (r: u64)
        ensures
            r == self.spec_owner(),
    {
        self.owner
    }
}

/// The process-wide count of users of the overlay module.
#[derive(Debug)]
pub struct LibraryLifecycle {
    id: u64,
    users: usize,
}

impl View for LibraryLifecycle {
    type V = nat;

    /// The number of guards that are out.
    closed spec fn view(&self) -> nat {
        self.users as nat
    }
}

impl LibraryLifecycle {
    /// A lifecycle of this identity that nobody uses: the module is not
    /// active.
    pub fn new(id: u64) -> (r: Self)
        ensures
            r@ == 0,
            r.spec_id() == id,
    {
        LibraryLifecycle { id, users: 0 }
    }

    pub closed spec fn spec_id(&self) -> u64 {
        self.id
    }

    /// The identity that the guards of this lifecycle name.
    #[verifier::when_used_as_spec(spec_id)]
    pub fn id(&self) -> (r: u64)
        ensures
            r == self.spec_id(),
    {
        self.id
    }

    /// The number of guards that are out.
    pub fn active_users(&self) -> (r: usize)
        ensures
            r == self@,
    {
        self.users
    }

    /// Whether the module is active: whether any guard is out.
    pub fn is_active(&self) -> (r: bool)
        ensures
            r == (self@ > 0),
    {
        self.users > 0
    }

    /// Whether one more guard can be handed out.
    pub fn can_acquire(&self) -> (r: bool)
        ensures
            r == (self@ < usize::MAX),
    {
        self.users < usize::MAX
    }

    /// Counts one more user and hands out its guard, which names this
    /// lifecycle. The flag says whether this is the first user, so that the
    /// module's initialise entry point is due before anything else is called.
    pub fn acquire(&mut self) -> (r: (Guard, bool))
        requires
            old(self)@ < usize::MAX,
        ensures
            final(self)@ == users_after(old(self)@, LifecycleEvent::Acquire),
            final(self)@ == old(self)@ + 1,
            final(self).spec_id() == old(self).spec_id(),
            r.0.spec_owner() == old(self).spec_id(),
            r.1 == (transition_of(old(self)@, LifecycleEvent::Acquire) == Transition::Activate),
            r.1 == (old(self)@ == 0),
    {
        let first = self.users == 0;
        self.users = self.users + 1;
        (Guard { owner: self.id }, first)
    }

    /// Takes back a guard that this lifecycle handed out and counts one user
    /// less. The flag says whether this was the last user, so that the
    /// module's deinitialise entry point is due.
    pub fn release(&mut self, guard: Guard) -> (r: bool)
        requires
            guard.spec_owner() == old(self).spec_id(),
            old(self)@ > 0,
        ensures
            final(self)@ == users_after(old(self)@, LifecycleEvent::Release),
            final(self)@ == old(self)@ - 1,
            final(self).spec_id() == old(self).spec_id(),
            r == (transition_of(old(self)@, LifecycleEvent::Release) == Transition::Deactivate),
            r == (final(self)@ == 0),
    {
        let Guard { owner: _ } = guard;
        self.users = self.users - 1;
        self.users == 0
    }
}

/// The module is deinitialised only by the release that leaves no user, and
/// initialised only by the acquisition that finds none.
pub proof fn lemma_transitions(users: nat, event: LifecycleEvent)
    requires
        event == LifecycleEvent::Release ==> users > 0,
    ensures
        transition_of(users, event) == Transition::Deactivate ==> users_after(users, event) == 0,
        transition_of(users, event) == Transition::Activate ==> users == 0 && users_after(
            users,
            event,
        ) == 1,
        active(users_after(users, event)) == active(users) + (if transition_of(users, event)
            == Transition::Activate {
            1int
        } else {
            0int
        }) - (if transition_of(users, event) == Transition::Deactivate {
            1int
        } else {
            0int
        }),
{
}

/// Over any trace that releases only guards that are out, initialisations and
/// deinitialisations alternate: the module has been initialised once more
/// than deinitialised exactly while some user holds a guard.
pub proof fn lemma_bracketed(users: nat, trace: Seq<LifecycleEvent>)
    requires
        balanced(users, trace),
    ensures
        active(users) + activations(users, trace) == deactivations(users, trace) + active(
            users_after_all(users, trace),
        ),
    decreases trace.len(),
{
    if trace.len() > 0 {
        lemma_transitions(users, trace[0]);
        lemma_bracketed(users_after(users, trace[0]), trace.drop_first());
    }
}

/// While the acquisitions of a trace overlap, nothing but its last event
/// deinitialises the module and nothing but an acquisition that finds no user
/// initialises it.
pub proof fn lemma_overlapping(users: nat, trace: Seq<LifecycleEvent>)
    requires
        balanced(users, trace),
        overlapping(users, trace),
        trace.len() > 0,
    ensures
        activations(users, trace) == 1 - active(users),
        deactivations(users, trace) == 1 - active(users_after_all(users, trace)),
    decreases trace.len(),
{
    let rest = trace.drop_first();
    let next = users_after(users, trace[0]);
    lemma_transitions(users, trace[0]);
    if rest.len() == 0 {
        assert(users_after_all(next, rest) == next);
        assert(count_transitions(next, rest, Transition::Activate) == 0);
        assert(count_transitions(next, rest, Transition::Deactivate) == 0);
    } else {
        lemma_overlapping(next, rest);
    }
}

/// Any number of acquisitions that overlap, followed in any order by as many
/// releases, initialise the module exactly once and deinitialise it exactly
/// once: `trace` starts with no user, ends with none, and in between some
/// user always holds a guard.
pub proof fn lemma_initialised_once(trace: Seq<LifecycleEvent>)
    requires
        trace.len() > 0,
        balanced(0, trace),
        overlapping(0, trace),
        users_after_all(0, trace) == 0,
    ensures
        activations(0, trace) == 1,
        deactivations(0, trace) == 1,
{
    lemma_overlapping(0, trace);
}

/// `n` acquisitions followed by `n` releases are such a trace.
pub proof fn lemma_acquire_then_release(n: nat)
    requires
        n > 0,
    ensures
        ({
            let trace = repeated(LifecycleEvent::Acquire, n) + repeated(
                LifecycleEvent::Release,
                n,
            );
            &&& balanced(0, trace)
            &&& overlapping(0, trace)
            &&& users_after_all(0, trace) == 0
            &&& activations(0, trace) == 1
            &&& deactivations(0, trace) == 1
        }),
{
    let trace = repeated(LifecycleEvent::Acquire, n) + repeated(LifecycleEvent::Release, n);
    lemma_rise_and_fall(0, n, n);
    lemma_initialised_once(trace);
}

/// `up` acquisitions followed by `down` releases, none of which finds the
/// count at zero, leave `users + up - down` users and overlap.
proof fn lemma_rise_and_fall(users: nat, up: nat, down: nat)
    requires
        down <= users + up,
        up + down > 0,
        users + up > 0,
    ensures
        ({
            let trace = repeated(LifecycleEvent::Acquire, up) + repeated(
                LifecycleEvent::Release,
                down,
            );
            &&& balanced(users, trace)
            &&& overlapping(users, trace)
            &&& users_after_all(users, trace) == users + up - down
        }),
    decreases up + down,
{
    let trace = repeated(LifecycleEvent::Acquire, up) + repeated(LifecycleEvent::Release, down);
    let rest = trace.drop_first();
    let next = users_after(users, trace[0]);
    assert(trace.len() == up + down);
    if up > 0 {
        let shorter = repeated(LifecycleEvent::Acquire, (up - 1) as nat) + repeated(
            LifecycleEvent::Release,
            down,
        );
        assert(rest =~= shorter);
        assert(trace[0] == LifecycleEvent::Acquire);
        assert(next == users + 1);
        if up - 1 + down > 0 {
            lemma_rise_and_fall(users + 1, (up - 1) as nat, down);
        } else {
            assert(rest.len() == 0);
        }
    } else {
        let shorter = repeated(LifecycleEvent::Acquire, 0) + repeated(
            LifecycleEvent::Release,
            (down - 1) as nat,
        );
        assert(rest =~= shorter);
        assert(trace[0] == LifecycleEvent::Release);
        assert(next == users - 1);
        if down - 1 > 0 {
            lemma_rise_and_fall((users - 1) as nat, 0, (down - 1) as nat);
        } else {
            assert(rest.len() == 0);
        }
    }
    assert(balanced(next, rest));
    assert(overlapping(next, rest));
    assert(users_after_all(next, rest) == users + up - down);
    assert(balanced(users, trace));
    assert(overlapping(users, trace));
    assert(users_after_all(users, trace) == users + up - down);
}

} // verus!
