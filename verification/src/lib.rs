//! Safe requests to the console's notification overlay: transient "info" and
//! "error" messages and a persistent "dynamic" message that can be changed
//! while it is shown.
//!
//! The library decides and keeps count; it makes no call into the overlay
//! module itself. Every operation says which call is due, as a
//! [`NativeCall`], and takes back the status that the call returned. The
//! caller makes the call in between:
//!
//! - [`NotificationBuilder::show`] checks the text, hands the callback to the
//!   [`CallbackBridge`], takes a guard from the [`LibraryLifecycle`] and gives
//!   a [`Dispatch`]: the call that is due, and whether the module has to be
//!   initialised first.
//! - [`Dispatch::complete`] takes the status of that call. A failure is the
//!   [`NotificationError`] that the status stands for. The guard goes back,
//!   unless the request was for a dynamic notification and succeeded: then
//!   the [`Notification`] that comes out keeps it.
//! - A [`Notification`] says which call changes its text or its colours, and
//!   [`Notification::finish`] which call ends it. When that call has returned
//!   the success code, [`Finalization::complete`] gives the guard back. A
//!   finish that failed is fatal: [`Finalization::fail`] gives the guard back
//!   and hands out the failure for the caller to stop with.
//! - When the overlay signals a context, [`CallbackBridge::reclaim`] hands out
//!   the callback that is pending under it, once.

pub mod callback;
pub mod color;
pub mod dispatch;
pub mod lifecycle;
pub mod native;
pub mod notification;
pub mod ownership;
pub mod request;
pub mod status;
pub mod text;
pub mod time;

pub use crate::callback::{CallbackBridge, Submission, NULL_CONTEXT};
pub use crate::color::{Color, NMColor};
pub use crate::dispatch::{Completion, Dispatch, Dynamic, Error, Info, NotificationType};
pub use crate::lifecycle::{Guard, LibraryLifecycle};
pub use crate::native::{NativeCall, NotificationModuleHandle};
pub use crate::notification::{FatalFinish, Finalization, Notification};
pub use crate::request::{Kind, NotificationBuilder};
pub use crate::status::{NotificationError, StatusCodes};
pub use crate::time::Duration;

use crate::request::NotificationRequest;
use vstd::prelude::*;

verus! {

/// A builder for a dynamic notification with this text.
pub fn dynamic<C>(text: &str) -> (r: NotificationBuilder<Dynamic, C>)
    ensures
        r@ == (NotificationRequest {
            text: text@,
            ..NotificationRequest::<C>::initial_of(Kind::Dynamic)
        }),
{
    NotificationBuilder::<Dynamic, C>::default().text(text)
}

/// A builder for an info notification with this text.
pub fn info<C>(text: &str) -> (r: NotificationBuilder<Info, C>)
    ensures
        r@ == (NotificationRequest {
            text: text@,
            ..NotificationRequest::<C>::initial_of(Kind::Info)
        }),
{
    NotificationBuilder::<Info, C>::default().text(text)
}

/// A builder for an error notification with this text: red behind the text,
/// and a shake of one second.
pub fn error<C>(text: &str) -> (r: NotificationBuilder<Error, C>)
    ensures
        r@ == (NotificationRequest {
            text: text@,
            ..NotificationRequest::<C>::initial_of(Kind::Error)
        }),
        r@.background_color == Color::spec_red(),
        r@.shake == Some(Duration::spec_from_secs(1)),
{
    NotificationBuilder::<Error, C>::default().text(text)
}

} // verus!
