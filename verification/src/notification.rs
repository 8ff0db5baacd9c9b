//! The handle of a dynamic notification: while it lives the notification is
//! shown and can be changed; giving it up finishes the notification.

use crate::color::{Color, NMColor};
use crate::lifecycle::{Guard, LibraryLifecycle};
use crate::native::{Call, NativeCall, NotificationModuleHandle};
use crate::status::{NotificationError, StatusCodes};
use crate::text::{c_string, terminated};
use crate::time::Duration;
use vstd::prelude::*;
use vstd::string::StringSliceAdditionalSpecFns;

verus! {

/// A dynamic notification that the overlay shows. It holds the overlay's name
/// for it, the delay and the shake that were asked for when it was made, and
/// the guard that keeps the module active.
#[derive(Debug)]
pub struct Notification {
    handle: NotificationModuleHandle,
    delay: Duration,
    shake: Duration,
    resource: Guard,
}

/// The end of a dynamic notification: the call that finishes it, and the guard
/// that goes back once the call has returned.
#[derive(Debug)]
pub struct Finalization {
    call: NativeCall,
    resource: Guard,
}

/// What the owner of a handle can ask for while the notification is shown.
pub enum Mutation {
    /// Another text, as the bytes of its UTF-8 encoding.
    Text(Seq<u8>),
    TextColor(Color),
    BackgroundColor(Color),
}

/// The call that makes `mutation` of the notification `handle`, or the error
/// for a text with a zero byte.
pub open spec fn update_call(
    handle: NotificationModuleHandle,
    mutation: Mutation,
) -> Result<Call, NotificationError> {
    match mutation {
        Mutation::Text(bytes) => match terminated(bytes) {
            Ok(text) => Ok(Call::UpdateDynamicNotificationText { handle, text }),
            Err(e) => Err(e),
        },
        Mutation::TextColor(color) => Ok(
            Call::UpdateDynamicNotificationTextColor { handle, color: NMColor::of(color) },
        ),
        Mutation::BackgroundColor(color) => Ok(
            Call::UpdateDynamicNotificationBackgroundColor { handle, color: NMColor::of(color) },
        ),
    }
}

/// The calls that `mutations` of the notification `handle` make due, in
/// order. A text that is refused makes no call.
pub open spec fn update_calls(
    handle: NotificationModuleHandle,
    mutations: Seq<Mutation>,
) -> Seq<Call>
    decreases mutations.len(),
{
    if mutations.len() == 0 {
        Seq::<Call>::empty()
    } else {
        let earlier = update_calls(handle, mutations.drop_last());
        match update_call(handle, mutations.last()) {
            Ok(call) => earlier.push(call),
            Err(_) => earlier,
        }
    }
}

/// The call that finishes the notification `handle`.
pub open spec fn finish_call(
    handle: NotificationModuleHandle,
    delay: Duration,
    shake: Duration,
) -> Call {
    Call::FinishDynamicNotificationWithShake { handle, delay, shake }
}

/// What the end of a handle makes of the count of users, whatever the
/// finishing call returned: one user less, and the module's deinitialise
/// entry point due if that leaves none.
pub open spec fn ended(users: nat, deactivate: bool, users_after: nat) -> bool {
    &&& users_after == users - 1
    &&& deactivate == (users == 1)
}

/// A finish that the overlay refused. It cannot be made good and is not
/// handed on as a result that a caller might pass over: whoever gets this
/// makes the bracket call if it is due and then stops with `error`.
#[derive(Debug)]
pub struct FatalFinish {
    pub error: NotificationError,
    pub deactivate: bool,
}

/// All the calls that a handle makes due from the moment it is made: those
/// of `mutations`, then, when it is given up, the one that finishes the
/// notification.
pub open spec fn life_calls(
    handle: NotificationModuleHandle,
    delay: Duration,
    shake: Duration,
    mutations: Seq<Mutation>,
) -> Seq<Call> {
    update_calls(handle, mutations).push(finish_call(handle, delay, shake))
}

/// How many calls of `calls` finish a notification.
pub open spec fn count_finishes(calls: Seq<Call>) -> nat
    decreases calls.len(),
{
    if calls.len() == 0 {
        0
    } else {
        let here: nat = if calls.last().is_finish() {
            1
        } else {
            0
        };
        count_finishes(calls.drop_last()) + here
    }
}

/// `mutations` make no call but updates of the notification `handle`, and at
/// most one each.
pub proof fn lemma_update_calls(handle: NotificationModuleHandle, mutations: Seq<Mutation>)
    ensures
        update_calls(handle, mutations).len() <= mutations.len(),
        count_finishes(update_calls(handle, mutations)) == 0,
        forall|i: int|
            0 <= i < update_calls(handle, mutations).len() ==> (#[trigger] update_calls(
                handle,
                mutations,
            )[i]).is_update(),
    decreases mutations.len(),
{
    if mutations.len() > 0 {
        let earlier = update_calls(handle, mutations.drop_last());
        lemma_update_calls(handle, mutations.drop_last());
        match update_call(handle, mutations.last()) {
            Ok(call) => {
                assert(call.is_update());
                assert(earlier.push(call).drop_last() =~= earlier);
            },
            Err(_) => {},
        }
    }
}

/// Whatever is asked of a handle while it lives, and how often, giving it up
/// finishes its notification exactly once: the last call that it makes due
/// is the finishing call, with the delay and the shake that the handle was
/// made with, and every call before it is an update.
pub proof fn lemma_finished_exactly_once(
    handle: NotificationModuleHandle,
    delay: Duration,
    shake: Duration,
    mutations: Seq<Mutation>,
)
    ensures
        count_finishes(life_calls(handle, delay, shake, mutations)) == 1,
        life_calls(handle, delay, shake, mutations).last() == finish_call(handle, delay, shake),
        forall|i: int|
            0 <= i < life_calls(handle, delay, shake, mutations).len() - 1 ==> (
            #[trigger] life_calls(handle, delay, shake, mutations)[i]).is_update(),
{
    let updates = update_calls(handle, mutations);
    let calls = life_calls(handle, delay, shake, mutations);
    lemma_update_calls(handle, mutations);
    assert(calls.drop_last() =~= updates);
    assert forall|i: int| 0 <= i < calls.len() - 1 implies (#[trigger] calls[i]).is_update() by {
        assert(calls[i] == updates[i]);
    }
}

impl Notification {
    pub(crate) fn new(
        handle: NotificationModuleHandle,
        delay: Duration,
        shake: Duration,
        resource: Guard,
    ) -> (r: Notification)
        ensures
            r.spec_handle() == handle,
            r.spec_delay() == delay,
            r.spec_shake() == shake,
            r.spec_owner() == resource.spec_owner(),
    {
        Notification { handle, delay, shake, resource }
    }

    pub closed spec fn spec_owner(&self) -> u64 {
        self.resource.spec_owner()
    }

    /// The identity of the lifecycle that counts this handle as a user.
    #[verifier::when_used_as_spec(spec_owner)]
    pub fn owner(&self) -> (r: u64)
        ensures
            r == self.spec_owner(),
    {
        self.resource.owner()
    }

    pub closed spec fn spec_handle(&self) -> NotificationModuleHandle {
        self.handle
    }

    /// The overlay's name for the notification.
    #[verifier::when_used_as_spec(spec_handle)]
    pub fn handle(&self) -> (r: NotificationModuleHandle)
        ensures
            r == self.spec_handle(),
    {
        self.handle
    }

    pub closed spec fn spec_delay(&self) -> Duration {
        self.delay
    }

    /// How long the notification stays after it is finished.
    #[verifier::when_used_as_spec(spec_delay)]
    pub fn delay(&self) -> (r: Duration)
        ensures
            r == self.spec_delay(),
    {
        self.delay
    }

    pub closed spec fn spec_shake(&self) -> Duration {
        self.shake
    }

    /// How long the notification shakes when it is finished.
    #[verifier::when_used_as_spec(spec_shake)]
    pub fn shake(&self) -> (r: Duration)
        ensures
            r == self.spec_shake(),
    {
        self.shake
    }

    /// Replaces the text: the call that does it, or the error for a text with
    /// a zero byte. The handle stays as it is either way.
    pub fn text(&self, text: &str) -> (r: Result<NativeCall, NotificationError>)
        ensures
            match update_call(self.spec_handle(), Mutation::Text(text.spec_bytes())) {
                Ok(call) => r matches Ok(out) && out@ == call,
                Err(e) => r matches Err(err) && err == e,
            },
            r is Ok <==> !text.spec_bytes().contains(0u8),
            r matches Ok(out) ==> out@ == (Call::UpdateDynamicNotificationText {
                handle: self.spec_handle(),
                text: text.spec_bytes().push(0u8),
            }),
    {
        match c_string(text) {
            Ok(text) => Ok(NativeCall::UpdateDynamicNotificationText { handle: self.handle, text }),
            Err(e) => Err(e),
        }
    }

    /// Replaces the text colour: the call that does it.
    pub fn text_color(&self, color: Color) -> (r: NativeCall)
        ensures
            Ok::<Call, NotificationError>(r@) == update_call(
                self.spec_handle(),
                Mutation::TextColor(color),
            ),
            r@ == (Call::UpdateDynamicNotificationTextColor {
                handle: self.spec_handle(),
                color: NMColor::of(color),
            }),
    {
        NativeCall::UpdateDynamicNotificationTextColor {
            handle: self.handle,
            color: NMColor::from(color),
        }
    }

    /// Replaces the background colour: the call that does it.
    pub fn bg_color(&self, color: Color) -> (r: NativeCall)
        ensures
            Ok::<Call, NotificationError>(r@) == update_call(
                self.spec_handle(),
                Mutation::BackgroundColor(color),
            ),
            r@ == (Call::UpdateDynamicNotificationBackgroundColor {
                handle: self.spec_handle(),
                color: NMColor::of(color),
            }),
    {
        NativeCall::UpdateDynamicNotificationBackgroundColor {
            handle: self.handle,
            color: NMColor::from(color),
        }
    }

    /// Gives the handle up. The call that is due finishes the notification
    /// with the delay and the shake that the handle was made with; the guard
    /// stays out until that call has returned.
    pub fn finish(self) -> (r: Finalization)
        ensures
            r.spec_call()@ == finish_call(self.spec_handle(), self.spec_delay(), self.spec_shake()),
            r.spec_owner() == self.spec_owner(),
    {
        Finalization {
            call: NativeCall::FinishDynamicNotificationWithShake {
                handle: self.handle,
                delay: self.delay,
                shake: self.shake,
            },
            resource: self.resource,
        }
    }
}

impl Finalization {
    pub closed spec fn spec_call(&self) -> &NativeCall {
        &self.call
    }

    /// The call that finishes the notification.
    #[verifier::when_used_as_spec(spec_call)]
    pub fn call(&self) -> (r: &NativeCall)
        ensures
            *r == self.spec_call(),
    {
        &self.call
    }

    pub closed spec fn spec_owner(&self) -> u64 {
        self.resource.spec_owner()
    }

    /// The identity of the lifecycle that counts this ending as a user.
    #[verifier::when_used_as_spec(spec_owner)]
    pub fn owner(&self) -> (r: u64)
        ensures
            r == self.spec_owner(),
    {
        self.resource.owner()
    }

    /// Ends the handle's life after the finishing call has returned the
    /// success code. The guard goes back to the lifecycle that handed it out,
    /// and the flag says whether the module's deinitialise entry point is
    /// due. Any other status is no business of this function: a finish that
    /// failed is fatal, and `fail` is the way down.
    pub fn complete(self, codes: &StatusCodes, lifecycle: &mut LibraryLifecycle, status: i32) -> (r:
        bool)
        requires
            status == codes.success,
            self.spec_owner() == old(lifecycle).spec_id(),
            old(lifecycle)@ > 0,
        ensures
            ended(old(lifecycle)@, r, final(lifecycle)@),
            final(lifecycle).spec_id() == old(lifecycle).spec_id(),
    {
        lifecycle.release(self.resource)
    }

    /// Ends the handle's life after the finishing call has returned anything
    /// but the success code. The guard goes back all the same, so that the
    /// module is not held active by a handle that is gone; what comes out is
    /// the failure that the status stands for, for the caller to stop with.
    pub fn fail(self, codes: &StatusCodes, lifecycle: &mut LibraryLifecycle, status: i32) -> (r:
        FatalFinish)
        requires
            status != codes.success,
            self.spec_owner() == old(lifecycle).spec_id(),
            old(lifecycle)@ > 0,
        ensures
            Some(r.error) == codes.error_of(status),
            ended(old(lifecycle)@, r.deactivate, final(lifecycle)@),
            final(lifecycle).spec_id() == old(lifecycle).spec_id(),
    {
        let deactivate = lifecycle.release(self.resource);
        match NotificationError::try_from(codes, status) {
            Err(error) => FatalFinish { error, deactivate },
            Ok(()) => vstd::pervasive::unreached(),
        }
    }
}

} // verus!
