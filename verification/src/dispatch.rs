//! Dispatching a request to the overlay. `show` checks the text, hands the
//! callback to the bridge, counts the request as a user of the module and
//! says which call is due; `complete` takes the status that the call returned
//! and settles the matter: the guard goes back, or into the handle of a
//! dynamic notification.

use crate::callback::{submitted, CallbackBridge, Submission, NULL_CONTEXT};
use crate::color::{Color, NMColor};
use crate::lifecycle::{Guard, LibraryLifecycle};
use crate::native::{Call, NativeCall, NotificationModuleHandle};
use crate::notification::Notification;
use crate::request::{Kind, NotificationBuilder, NotificationRequest};
use crate::status::{NotificationError, StatusCodes};
use crate::text::{c_string, terminated};
use crate::time::{or_zero, spec_or_zero, Duration};
use std::marker::PhantomData;
use vstd::prelude::*;
use vstd::string::StringSliceAdditionalSpecFns;

verus! {

/// Marks a notification that stays until it is finished.
#[derive(Debug)]
pub struct Dynamic;

/// Marks a notification that fades out by itself.
#[derive(Debug)]
pub struct Info;

/// Marks a notification that shakes and fades out by itself.
#[derive(Debug)]
pub struct Error;

/// The callback arguments of a call that asks for a notification.
pub open spec fn callback_of(call: Call) -> Submission {
    match call {
        Call::AddDynamicNotificationEx { callback, .. } => callback,
        Call::AddInfoNotificationEx { callback, .. } => callback,
        Call::AddErrorNotificationEx { callback, .. } => callback,
        _ => Submission { trampoline: false, context: NULL_CONTEXT },
    }
}

/// The call that asks the overlay for the notification of `kind` that
/// `request` describes, with `text` as its zero-terminated text and
/// `callback` in place of its callback. Colours go over as the overlay's
/// structure; a shake that is not set is no time at all.
pub open spec fn add_call<C>(
    kind: Kind,
    request: NotificationRequest<C>,
    text: Seq<u8>,
    callback: Submission,
) -> Call {
    match kind {
        Kind::Dynamic => Call::AddDynamicNotificationEx {
            text,
            text_color: NMColor::of(request.text_color),
            background_color: NMColor::of(request.background_color),
            callback,
            keep_until_shown: request.keep_until_shown,
        },
        Kind::Info => Call::AddInfoNotificationEx {
            text,
            duration: request.duration,
            text_color: NMColor::of(request.text_color),
            background_color: NMColor::of(request.background_color),
            callback,
            keep_until_shown: request.keep_until_shown,
        },
        Kind::Error => Call::AddErrorNotificationEx {
            text,
            duration: request.duration,
            shake: spec_or_zero(request.shake),
            text_color: NMColor::of(request.text_color),
            background_color: NMColor::of(request.background_color),
            callback,
            keep_until_shown: request.keep_until_shown,
        },
    }
}

/// A request on its way: the call that is due, whether the module has to be
/// initialised first, and the guard that keeps the module active meanwhile.
#[derive(Debug)]
pub struct Dispatch<T> {
    call: NativeCall,
    activate: bool,
    delay: Duration,
    shake: Duration,
    guard: Guard,
    marker: PhantomData<T>,
}

impl<T> Dispatch<T> {
    pub closed spec fn spec_call(&self) -> &NativeCall {
        &self.call
    }

    /// The call that is due.
    #[verifier::when_used_as_spec(spec_call)]
    pub fn call(&self) -> (r: &NativeCall)
        ensures
            *r == self.spec_call(),
    {
        &self.call
    }

    pub closed spec fn spec_activate(&self) -> bool {
        self.activate
    }

    /// Whether the module's initialise entry point is due before the call.
    #[verifier::when_used_as_spec(spec_activate)]
    pub fn activate(&self) -> (r: bool)
        ensures
            r == self.spec_activate(),
    {
        self.activate
    }

    pub closed spec fn spec_delay(&self) -> Duration {
        self.delay
    }

    /// The delay that the request asked for; no time at all if it asked for
    /// none.
    #[verifier::when_used_as_spec(spec_delay)]
    pub fn delay(&self) -> (r: Duration)
        ensures
            r == self.spec_delay(),
    {
        self.delay
    }

    pub closed spec fn spec_shake(&self) -> Duration {
        self.shake
    }

    /// The shake that the request asked for; no time at all if it asked for
    /// none.
    #[verifier::when_used_as_spec(spec_shake)]
    pub fn shake(&self) -> (r: Duration)
        ensures
            r == self.spec_shake(),
    {
        self.shake
    }

    pub closed spec fn spec_owner(&self) -> u64 {
        self.guard.spec_owner()
    }

    /// The identity of the lifecycle that counts this dispatch as a user.
    #[verifier::when_used_as_spec(spec_owner)]
    pub fn owner(&self) -> (r: u64)
        ensures
            r == self.spec_owner(),
    {
        self.guard.owner()
    }

    fn into_parts(self) -> (r: (Guard, Duration, Duration))
        ensures
            r.0.spec_owner() == self.spec_owner(),
            r.1 == self.spec_delay(),
            r.2 == self.spec_shake(),
    {
        (self.guard, self.delay, self.shake)
    }
}

/// How a dispatch ended: what the caller is left with, or the error, and
/// whether the module's deinitialise entry point is due.
#[derive(Debug)]
pub struct Completion<R> {
    pub result: Result<R, NotificationError>,
    pub deactivate: bool,
}

/// What `show` makes of a request of `kind`. A text with a zero byte is
/// refused with that error and nothing else happens: no user is counted, no
/// callback kept, no call is due. Any other request goes on its way: it counts
/// as one more user, its callback is with the bridge, and the call that is due
/// is the one that `add_call` describes.
pub open spec fn shown<T, C>(
    kind: Kind,
    request: NotificationRequest<C>,
    users: nat,
    pending: Map<usize, C>,
    result: Result<Dispatch<T>, NotificationError>,
    users_after: nat,
    pending_after: Map<usize, C>,
) -> bool {
    match terminated(request.bytes()) {
        Err(e) => {
            &&& result == Err::<Dispatch<T>, NotificationError>(e)
            &&& users_after == users
            &&& pending_after == pending
        },
        Ok(text) => {
            &&& result matches Ok(dispatch)
            &&& users_after == users + 1
            &&& dispatch.spec_activate() == (users == 0)
            &&& submitted(
                pending,
                request.callback,
                callback_of(dispatch.spec_call()@),
                pending_after,
            )
            &&& dispatch.spec_call()@ == add_call(
                kind,
                request,
                text,
                callback_of(dispatch.spec_call()@),
            )
            &&& dispatch.spec_delay() == spec_or_zero(request.delay)
            &&& dispatch.spec_shake() == spec_or_zero(request.shake)
        },
    }
}

/// Whether a dispatch of `kind` whose call returned `status` keeps its guard:
/// only a dynamic notification that the overlay accepted does, in its handle.
pub open spec fn keeps_guard(kind: Kind, codes: StatusCodes, status: i32) -> bool {
    kind == Kind::Dynamic && status == codes.success
}

/// What `complete` makes of the `status` that the call of a dispatch of `kind`
/// returned. Every status but the success code ends the dispatch with the
/// error that it stands for. The guard goes back unless a handle keeps it,
/// and the module's deinitialise entry point is due if that leaves no user.
pub open spec fn completed<R>(
    kind: Kind,
    codes: StatusCodes,
    status: i32,
    users: nat,
    completion: Completion<R>,
    users_after: nat,
) -> bool {
    &&& match codes.error_of(status) {
        Some(e) => completion.result == Err::<R, NotificationError>(e),
        None => completion.result is Ok,
    }
    &&& if keeps_guard(kind, codes, status) {
        &&& users_after == users
        &&& !completion.deactivate
    } else {
        &&& users_after == users - 1
        &&& completion.deactivate == (users == 1)
    }
}

/// A dispatch leaks no user. From `show` to `complete` the count of users goes
/// up by one and, unless a handle keeps the guard, down again; and where the
/// dispatch leaves no one, the module that it initialised is deinitialised.
/// In particular a call that the overlay refuses leaves the count as `show`
/// found it, with the error that the status stands for. The one call in
/// between asks for a notification.
pub proof fn lemma_dispatch_settles<T, C, R>(
    kind: Kind,
    request: NotificationRequest<C>,
    users: nat,
    pending: Map<usize, C>,
    result: Result<Dispatch<T>, NotificationError>,
    users_between: nat,
    pending_between: Map<usize, C>,
    codes: StatusCodes,
    status: i32,
    completion: Completion<R>,
    users_after: nat,
)
    requires
        shown(kind, request, users, pending, result, users_between, pending_between),
        result is Ok,
        completed(kind, codes, status, users_between, completion, users_after),
    ensures
        users_after == users + (if keeps_guard(kind, codes, status) {
            1nat
        } else {
            0nat
        }),
        status != codes.success ==> users_after == users && completion.result == Err::<
            R,
            NotificationError,
        >(codes.error_of(status)->Some_0),
        completion.deactivate <==> users_after == 0,
        completion.deactivate ==> result->Ok_0.spec_activate(),
        result->Ok_0.spec_call()@.is_add(),
{
    crate::text::lemma_terminated(request.bytes());
}

/// A kind of notification: how its request is dispatched and what the caller
/// is left with.
pub trait NotificationType: Sized {
    /// What the caller is left with once the overlay has accepted the
    /// request.
    type T;

    spec fn kind() -> Kind;

    /// `product` is what a dispatch leaves the caller with when the overlay
    /// names the notification `handle`, the request asked for `delay` and
    /// `shake`, and the guard of the dispatch names the lifecycle `owner`.
    spec fn produced(
        product: Self::T,
        handle: NotificationModuleHandle,
        delay: Duration,
        shake: Duration,
        owner: u64,
    ) -> bool;

    /// A builder of this kind with nothing set: it holds what the kind
    /// starts from.
    fn initial<C>() -> (r: NotificationBuilder<Self, C>)
        ensures
            r@ == NotificationRequest::<C>::initial_of(Self::kind()),
    ;

    /// Starts the dispatch of the request that `builder` holds.
    fn show<C>(
        builder: NotificationBuilder<Self, C>,
        lifecycle: &mut LibraryLifecycle,
        callbacks: &mut CallbackBridge<C>,
    ) -> (r: Result<Dispatch<Self>, NotificationError>)
        requires
            old(lifecycle)@ < usize::MAX,
        ensures
            shown(
                Self::kind(),
                builder@,
                old(lifecycle)@,
                old(callbacks)@,
                r,
                final(lifecycle)@,
                final(callbacks)@,
            ),
            final(lifecycle).spec_id() == old(lifecycle).spec_id(),
            r matches Ok(dispatch) ==> dispatch.spec_owner() == old(lifecycle).spec_id(),
    ;

    /// Ends a dispatch with the `status` that its call returned and, for a
    /// dynamic notification, the `handle` that the overlay wrote.
    fn complete(
        dispatch: Dispatch<Self>,
        codes: &StatusCodes,
        lifecycle: &mut LibraryLifecycle,
        status: i32,
        handle: NotificationModuleHandle,
    ) -> (r: Completion<Self::T>)
        requires
            dispatch.spec_owner() == old(lifecycle).spec_id(),
            old(lifecycle)@ > 0,
        ensures
            completed(Self::kind(), *codes, status, old(lifecycle)@, r, final(lifecycle)@),
            final(lifecycle).spec_id() == old(lifecycle).spec_id(),
            r.result matches Ok(product) ==> Self::produced(
                product,
                handle,
                dispatch.spec_delay(),
                dispatch.spec_shake(),
                dispatch.spec_owner(),
            ),
    ;
}

/// The common part of every `show`: the text, the callback, the guard, in
/// that order, so that a text that is refused leaves everything as it was.
fn prepare<C>(
    text: &str,
    callback: Option<C>,
    lifecycle: &mut LibraryLifecycle,
    callbacks: &mut CallbackBridge<C>,
) -> (r: Result<(Vec<u8>, Submission, Guard, bool), NotificationError>)
    requires
        old(lifecycle)@ < usize::MAX,
    ensures
        match terminated(text.spec_bytes()) {
            Err(e) => {
                &&& r matches Err(err)
                &&& err == e
                &&& final(lifecycle)@ == old(lifecycle)@
                &&& final(callbacks)@ == old(callbacks)@
            },
            Ok(bytes) => {
                &&& r matches Ok((out, submission, guard, activate))
                &&& out@ == bytes
                &&& submitted(old(callbacks)@, callback, submission, final(callbacks)@)
                &&& final(lifecycle)@ == old(lifecycle)@ + 1
                &&& activate == (old(lifecycle)@ == 0)
                &&& guard.spec_owner() == old(lifecycle).spec_id()
            },
        },
        final(lifecycle).spec_id() == old(lifecycle).spec_id(),
{
    match c_string(text) {
        Err(e) => Err(e),
        Ok(out) => {
            let submission = callbacks.submit(callback);
            let (guard, activate) = lifecycle.acquire();
            Ok((out, submission, guard, activate))
        },
    }
}

/// The common end of a dispatch that leaves no handle: the guard goes back
/// whatever the status says.
fn settle(
    guard: Guard,
    codes: &StatusCodes,
    lifecycle: &mut LibraryLifecycle,
    status: i32,
) -> (r: Completion<()>)
    requires
        guard.spec_owner() == old(lifecycle).spec_id(),
        old(lifecycle)@ > 0,
    ensures
        r.result == codes.outcome(status),
        final(lifecycle)@ == old(lifecycle)@ - 1,
        final(lifecycle).spec_id() == old(lifecycle).spec_id(),
        r.deactivate == (old(lifecycle)@ == 1),
{
    let result = NotificationError::try_from(codes, status);
    let deactivate = lifecycle.release(guard);
    Completion { result, deactivate }
}

impl NotificationType for Dynamic {
    type T = Notification;

    open spec fn kind() -> Kind {
        Kind::Dynamic
    }

    /// The handle names that notification, holds that delay and shake, and
    /// its guard names that lifecycle.
    open spec fn produced(
        product: Notification,
        handle: NotificationModuleHandle,
        delay: Duration,
        shake: Duration,
        owner: u64,
    ) -> bool {
        &&& product.spec_handle() == handle
        &&& product.spec_delay() == delay
        &&& product.spec_shake() == shake
        &&& product.spec_owner() == owner
    }

    fn initial<C>() -> (r: NotificationBuilder<Self, C>) {
        NotificationBuilder::common()
    }

    fn show<C>(
        builder: NotificationBuilder<Self, C>,
        lifecycle: &mut LibraryLifecycle,
        callbacks: &mut CallbackBridge<C>,
    ) -> (r: Result<Dispatch<Self>, NotificationError>) {
        let (text, callback, settings) = builder.into_parts();
        match prepare(text.as_str(), callback, lifecycle, callbacks) {
            Err(e) => Err(e),
            Ok((text, submission, guard, activate)) => Ok(
                Dispatch {
                    call: NativeCall::AddDynamicNotificationEx {
                        text,
                        text_color: NMColor::from(settings.text_color),
                        background_color: NMColor::from(settings.background_color),
                        callback: submission,
                        keep_until_shown: settings.keep_until_shown,
                    },
                    activate,
                    delay: or_zero(settings.delay),
                    shake: or_zero(settings.shake),
                    guard,
                    marker: PhantomData,
                },
            ),
        }
    }

    fn complete(
        dispatch: Dispatch<Self>,
        codes: &StatusCodes,
        lifecycle: &mut LibraryLifecycle,
        status: i32,
        handle: NotificationModuleHandle,
    ) -> (r: Completion<Notification>) {
        let (guard, delay, shake) = dispatch.into_parts();
        match NotificationError::try_from(codes, status) {
            Ok(()) => Completion {
                result: Ok(Notification::new(handle, delay, shake, guard)),
                deactivate: false,
            },
            Err(e) => {
                let deactivate = lifecycle.release(guard);
                Completion { result: Err(e), deactivate }
            },
        }
    }
}

impl NotificationType for Info {
    type T = ();

    open spec fn kind() -> Kind {
        Kind::Info
    }

    /// Nothing is left to hold.
    open spec fn produced(
        product: (),
        handle: NotificationModuleHandle,
        delay: Duration,
        shake: Duration,
        owner: u64,
    ) -> bool {
        true
    }

    fn initial<C>() -> (r: NotificationBuilder<Self, C>) {
        NotificationBuilder::common()
    }

    fn show<C>(
        builder: NotificationBuilder<Self, C>,
        lifecycle: &mut LibraryLifecycle,
        callbacks: &mut CallbackBridge<C>,
    ) -> (r: Result<Dispatch<Self>, NotificationError>) {
        let (text, callback, settings) = builder.into_parts();
        match prepare(text.as_str(), callback, lifecycle, callbacks) {
            Err(e) => Err(e),
            Ok((text, submission, guard, activate)) => Ok(
                Dispatch {
                    call: NativeCall::AddInfoNotificationEx {
                        text,
                        duration: settings.duration,
                        text_color: NMColor::from(settings.text_color),
                        background_color: NMColor::from(settings.background_color),
                        callback: submission,
                        keep_until_shown: settings.keep_until_shown,
                    },
                    activate,
                    delay: or_zero(settings.delay),
                    shake: or_zero(settings.shake),
                    guard,
                    marker: PhantomData,
                },
            ),
        }
    }

    fn complete(
        dispatch: Dispatch<Self>,
        codes: &StatusCodes,
        lifecycle: &mut LibraryLifecycle,
        status: i32,
        handle: NotificationModuleHandle,
    ) -> (r: Completion<()>) {
        let (guard, _, _) = dispatch.into_parts();
        settle(guard, codes, lifecycle, status)
    }
}

impl NotificationType for Error {
    type T = ();

    open spec fn kind() -> Kind {
        Kind::Error
    }

    /// Nothing is left to hold.
    open spec fn produced(
        product: (),
        handle: NotificationModuleHandle,
        delay: Duration,
        shake: Duration,
        owner: u64,
    ) -> bool {
        true
    }

    /// Solid red behind the text, and a shake of one second.
    fn initial<C>() -> (r: NotificationBuilder<Self, C>) {
        NotificationBuilder::common().background_color(Color::red()).with_shake(
            Some(Duration::from_secs(1)),
        )
    }

    fn show<C>(
        builder: NotificationBuilder<Self, C>,
        lifecycle: &mut LibraryLifecycle,
        callbacks: &mut CallbackBridge<C>,
    ) -> (r: Result<Dispatch<Self>, NotificationError>) {
        let (text, callback, settings) = builder.into_parts();
        match prepare(text.as_str(), callback, lifecycle, callbacks) {
            Err(e) => Err(e),
            Ok((text, submission, guard, activate)) => Ok(
                Dispatch {
                    call: NativeCall::AddErrorNotificationEx {
                        text,
                        duration: settings.duration,
                        shake: or_zero(settings.shake),
                        text_color: NMColor::from(settings.text_color),
                        background_color: NMColor::from(settings.background_color),
                        callback: submission,
                        keep_until_shown: settings.keep_until_shown,
                    },
                    activate,
                    delay: or_zero(settings.delay),
                    shake: or_zero(settings.shake),
                    guard,
                    marker: PhantomData,
                },
            ),
        }
    }

    fn complete(
        dispatch: Dispatch<Self>,
        codes: &StatusCodes,
        lifecycle: &mut LibraryLifecycle,
        status: i32,
        handle: NotificationModuleHandle,
    ) -> (r: Completion<()>) {
        let (guard, _, _) = dispatch.into_parts();
        settle(guard, codes, lifecycle, status)
    }
}

impl<T: NotificationType, C> Default for NotificationBuilder<T, C> {
    /// A builder with nothing set holds what its kind starts from: an error
    /// notification is red and shakes for a second, the other two are on half
    /// transparent black and do not shake.
    fn default() -> (r: Self)
        ensures
            r@ == NotificationRequest::<C>::initial_of(T::kind()),
    {
        T::initial()
    }
}

impl<T: NotificationType, C> NotificationBuilder<T, C> {
    /// Queues the notification for display: checks the text, hands the
    /// callback to the bridge, counts one more user of the module and says
    /// which call is due. A text with a zero byte is refused before anything
    /// else happens.
    pub fn show(
        self,
        lifecycle: &mut LibraryLifecycle,
        callbacks: &mut CallbackBridge<C>,
    ) -> (r: Result<Dispatch<T>, NotificationError>)
        requires
            old(lifecycle)@ < usize::MAX,
        ensures
            shown(
                T::kind(),
                self@,
                old(lifecycle)@,
                old(callbacks)@,
                r,
                final(lifecycle)@,
                final(callbacks)@,
            ),
            final(lifecycle).spec_id() == old(lifecycle).spec_id(),
            r matches Ok(dispatch) ==> dispatch.spec_owner() == old(lifecycle).spec_id(),
            r is Ok <==> !self@.bytes().contains(0u8),
            r matches Err(e) ==> e is InternalZeroByte,
    {
        proof {
            crate::text::lemma_terminated(self@.bytes());
        }
        T::show(self, lifecycle, callbacks)
    }
}

impl<C> NotificationBuilder<Dynamic, C> {
    /// How long the notification shakes when it is finished.
    pub fn shake(self, duration: Option<Duration>) -> (r: Self)
        ensures
            r@ == (NotificationRequest { shake: duration, ..self@ }),
    {
        self.with_shake(duration)
    }

    /// How long the notification stays after it is finished.
    pub fn delay(self, duration: Option<Duration>) -> (r: Self)
        ensures
            r@ == (NotificationRequest { delay: duration, ..self@ }),
    {
        self.with_delay(duration)
    }
}

impl<C> NotificationBuilder<Error, C> {
    /// How long the notification shakes when it appears.
    pub fn shake(self, duration: Option<Duration>) -> (r: Self)
        ensures
            r@ == (NotificationRequest { shake: duration, ..self@ }),
    {
        self.with_shake(duration)
    }
}

impl<T: NotificationType> Dispatch<T> {
    /// Ends the dispatch with the `status` that its call returned and, for a
    /// dynamic notification, the `handle` that the overlay wrote. Any status
    /// but the success code is the error of that name, and the guard goes
    /// back; on success it goes back too, unless the handle of a dynamic
    /// notification keeps it. A callback that went with the request stays
    /// with the bridge either way: only the overlay's signal takes it out.
    /// The lifecycle is the one that `show` was given.
    pub fn complete(
        self,
        codes: &StatusCodes,
        lifecycle: &mut LibraryLifecycle,
        status: i32,
        handle: NotificationModuleHandle,
    ) -> (r: Completion<T::T>)
        requires
            self.spec_owner() == old(lifecycle).spec_id(),
            old(lifecycle)@ > 0,
        ensures
            completed(T::kind(), *codes, status, old(lifecycle)@, r, final(lifecycle)@),
            final(lifecycle).spec_id() == old(lifecycle).spec_id(),
            r.result matches Ok(product) ==> T::produced(
                product,
                handle,
                self.spec_delay(),
                self.spec_shake(),
                self.spec_owner(),
            ),
            r.result is Ok <==> status == codes.success,
    {
        T::complete(self, codes, lifecycle, status, handle)
    }
}

} // verus!
