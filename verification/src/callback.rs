//! One-shot callbacks on their way through the overlay. A callback that is
//! handed in stays with the bridge under a context value; the overlay gets the
//! context and signals it back when the notification has finished, and the
//! callback is then handed out, once.

use vstd::prelude::*;

verus! {

/// The context that stands for "no callback".
pub const NULL_CONTEXT: usize = 0;

/// What the overlay is handed for a callback: whether it gets the trampoline
/// and the context that it is to signal back.
#[derive(Clone, Copy, Debug, PartialEq, Eq, Structural)]
pub struct Submission {
    pub trampoline: bool,
    pub context: usize,
}

/// `context` is the least context that is not null and not in use.
pub open spec fn least_free<C>(pending: Map<usize, C>, context: usize) -> bool {
    &&& context != NULL_CONTEXT
    &&& !pending.dom().contains(context)
    &&& forall|k: usize| 0 < k < context ==> pending.dom().contains(k)
}

/// `after` and `submission` are what handing in `callback` makes of `before`:
/// without a callback there is no trampoline, the null context, and nothing
/// new is kept; with one, it is kept under the least context that is not null
/// and was not in use.
pub open spec fn submitted<C>(
    before: Map<usize, C>,
    callback: Option<C>,
    submission: Submission,
    after: Map<usize, C>,
) -> bool {
    match callback {
        None => {
            &&& !submission.trampoline
            &&& submission.context == NULL_CONTEXT
            &&& after == before
        },
        Some(c) => {
            &&& submission.trampoline
            &&& least_free(before, submission.context)
            &&& after == before.insert(submission.context, c)
        },
    }
}

/// What the trampoline gets for `context`, and what stays pending: the
/// callback kept under that context, which then is kept no longer, or nothing
/// where the context is null or unknown.
pub open spec fn reclaimed<C>(pending: Map<usize, C>, context: usize) -> (Option<C>, Map<usize, C>) {
    if context != NULL_CONTEXT && pending.dom().contains(context) {
        (Some(pending[context]), pending.remove(context))
    } else {
        (None, pending)
    }
}

/// How often the callback under `context` is handed out while the overlay
/// signals the contexts of `signals`, in order.
pub open spec fn deliveries<C>(pending: Map<usize, C>, signals: Seq<usize>, context: usize) -> nat
    decreases signals.len(),
{
    if signals.len() == 0 {
        0
    } else {
        let (out, rest) = reclaimed(pending, signals[0]);
        let here: nat = if signals[0] == context && out is Some {
            1
        } else {
            0
        };
        here + deliveries(rest, signals.drop_first(), context)
    }
}

/// The callbacks that the overlay has been promised and has not yet asked
/// for.
pub struct CallbackBridge<C> {
    slots: Vec<Option<C>>,
}

impl<C> View for CallbackBridge<C> {
    type V = Map<usize, C>;

    /// The pending callbacks, by context.
    closed spec fn view(&self) -> Map<usize, C> {
        Map::new(
            |k: usize| 0 < k <= self.slots@.len() && self.slots@[k - 1] is Some,
            |k: usize| self.slots@[k - 1]->Some_0,
        )
    }
}

impl<C> CallbackBridge<C> {
    /// A bridge with nothing pending.
    pub fn new() -> (r: Self)
        ensures
            r@ == Map::<usize, C>::empty(),
    {
        let r = CallbackBridge { slots: Vec::new() };
        assert(r@ =~= Map::<usize, C>::empty());
        r
    }

    /// Nothing is ever pending under the null context.
    pub proof fn lemma_null_not_pending(&self)
        ensures
            !self@.dom().contains(NULL_CONTEXT),
    {
    }

    /// Whether a callback is pending under `context`.
    pub fn is_pending(&self, context: usize) -> (r: bool)
        ensures
            r == self@.dom().contains(context),
    {
        if context == 0 || context > self.slots.len() {
            false
        } else {
            self.slots[context - 1].is_some()
        }
    }

    /// Takes a callback on its way to the overlay. Without one, nothing is
    /// kept and the overlay gets no trampoline and the null context. With one,
    /// it is kept under a fresh context, which the overlay gets along with the
    /// trampoline.
    pub fn submit(&mut self, callback: Option<C>) -> (r: Submission)
        ensures
            submitted(old(self)@, callback, r, final(self)@),
            r.trampoline == callback.is_some(),
            r.trampoline == (r.context != NULL_CONTEXT),
    {
        match callback {
            None => Submission { trampoline: false, context: NULL_CONTEXT },
            Some(c) => {
                let n: usize = self.slots.len();
                let mut i: usize = 0;
                while i < n && self.slots[i].is_some()
                    invariant
                        n == self.slots@.len(),
                        0 <= i <= n,
                        forall|j: int| 0 <= j < i ==> self.slots@[j] is Some,
                    decreases n - i,
                {
                    i = i + 1;
                }
                if i < n {
                    self.slots.set(i, Some(c));
                } else {
                    self.slots.push(Some(c));
                }
                let context: usize = self.slots.len();
                let context: usize = if i < n {
                    i + 1
                } else {
                    context
                };
                assert(self@ =~= old(self)@.insert(context, c));
                assert forall|k: usize| 0 < k < context implies old(self)@.dom().contains(k) by {
                    assert(old(self).slots@[k - 1] is Some);
                }
                Submission { trampoline: true, context }
            },
        }
    }

    /// Hands out the callback that is pending under `context`, for the
    /// trampoline to run it, and forgets it. Gives nothing for the null
    /// context, and nothing for a context that is not pending: so nothing the
    /// second time.
    pub fn reclaim(&mut self, context: usize) -> (r: Option<C>)
        ensures
            (r, final(self)@) == reclaimed(old(self)@, context),
            r is Some <==> old(self)@.dom().contains(context),
            !final(self)@.dom().contains(context),
    {
        if context == 0 || context > self.slots.len() {
            return None;
        }
        let i: usize = context - 1;
        let taken = self.slots[i].take();
        assert(self@ =~= reclaimed(old(self)@, context).1);
        taken
    }
}

/// Handing in no callback gives the overlay nothing to call.
pub proof fn lemma_no_callback_no_trampoline<C>(
    before: Map<usize, C>,
    submission: Submission,
    after: Map<usize, C>,
)
    requires
        submitted(before, None, submission, after),
    ensures
        !submission.trampoline,
        submission.context == NULL_CONTEXT,
        after == before,
        forall|signals: Seq<usize>| #[trigger] deliveries(after, signals, submission.context) == 0,
{
    assert forall|signals: Seq<usize>| #[trigger]
        deliveries(after, signals, submission.context) == 0 by {
        lemma_never_delivered(after, signals, submission.context);
    }
}

/// A callback that is handed in is pending under its context, and is handed
/// out exactly once if the overlay signals that context.
pub proof fn lemma_callback_delivered<C>(
    before: Map<usize, C>,
    callback: C,
    submission: Submission,
    after: Map<usize, C>,
    signals: Seq<usize>,
)
    requires
        submitted(before, Some(callback), submission, after),
    ensures
        submission.trampoline,
        reclaimed(after, submission.context).0 == Some(callback),
        deliveries(after, signals, submission.context) <= 1,
        signals.contains(submission.context) ==> deliveries(after, signals, submission.context)
            == 1,
{
    lemma_delivered_at_most_once(after, signals, submission.context);
    if signals.contains(submission.context) {
        lemma_delivered_once(after, signals, submission.context);
    }
}

/// A callback that was handed out is not handed out again.
pub proof fn lemma_reclaimed_twice<C>(pending: Map<usize, C>, context: usize)
    ensures
        reclaimed(reclaimed(pending, context).1, context).0 is None,
{
}

/// Nothing is handed out for a context under which nothing is pending, the
/// null context among them, whatever the overlay signals.
pub proof fn lemma_never_delivered<C>(pending: Map<usize, C>, signals: Seq<usize>, context: usize)
    requires
        context == NULL_CONTEXT || !pending.dom().contains(context),
    ensures
        deliveries(pending, signals, context) == 0,
    decreases signals.len(),
{
    if signals.len() > 0 {
        let (out, rest) = reclaimed(pending, signals[0]);
        lemma_never_delivered(rest, signals.drop_first(), context);
    }
}

/// Whatever the overlay signals, and how often, a callback is handed out at
/// most once.
pub proof fn lemma_delivered_at_most_once<C>(
    pending: Map<usize, C>,
    signals: Seq<usize>,
    context: usize,
)
    ensures
        deliveries(pending, signals, context) <= 1,
    decreases signals.len(),
{
    if signals.len() > 0 {
        let (out, rest) = reclaimed(pending, signals[0]);
        if signals[0] == context && out is Some {
            lemma_never_delivered(rest, signals.drop_first(), context);
        } else {
            lemma_delivered_at_most_once(rest, signals.drop_first(), context);
        }
    }
}

/// A pending callback whose context the overlay signals is handed out exactly
/// once.
pub proof fn lemma_delivered_once<C>(pending: Map<usize, C>, signals: Seq<usize>, context: usize)
    requires
        context != NULL_CONTEXT,
        pending.dom().contains(context),
        signals.contains(context),
    ensures
        deliveries(pending, signals, context) == 1,
    decreases signals.len(),
{
    let (out, rest) = reclaimed(pending, signals[0]);
    if signals[0] == context {
        lemma_never_delivered(rest, signals.drop_first(), context);
    } else {
        let k = choose|k: int| 0 <= k < signals.len() && signals[k] == context;
        assert(signals.drop_first()[k - 1] == context);
        lemma_delivered_once(rest, signals.drop_first(), context);
    }
}

} // verus!
