//! The calls into the overlay module, marshalled: each names an entry point
//! and holds the arguments that it takes. The library decides which call is
//! due and with what; making the call is left to the caller, who hands back
//! the status that came out of it.

use crate::callback::Submission;
use crate::color::NMColor;
use crate::time::Duration;
use vstd::prelude::*;

verus! {

/// The overlay's name for a dynamic notification.
pub type NotificationModuleHandle = u32;

/// A call into the overlay module. Text is zero-terminated; times are handed
/// over as fractional seconds.
#[derive(Debug, PartialEq, Eq)]
pub enum NativeCall {
    AddDynamicNotificationEx {
        text: Vec<u8>,
        text_color: NMColor,
        background_color: NMColor,
        callback: Submission,
        keep_until_shown: bool,
    },
    AddInfoNotificationEx {
        text: Vec<u8>,
        duration: Duration,
        text_color: NMColor,
        background_color: NMColor,
        callback: Submission,
        keep_until_shown: bool,
    },
    AddErrorNotificationEx {
        text: Vec<u8>,
        duration: Duration,
        shake: Duration,
        text_color: NMColor,
        background_color: NMColor,
        callback: Submission,
        keep_until_shown: bool,
    },
    UpdateDynamicNotificationText { handle: NotificationModuleHandle, text: Vec<u8> },
    UpdateDynamicNotificationTextColor { handle: NotificationModuleHandle, color: NMColor },
    UpdateDynamicNotificationBackgroundColor { handle: NotificationModuleHandle, color: NMColor },
    FinishDynamicNotificationWithShake {
        handle: NotificationModuleHandle,
        delay: Duration,
        shake: Duration,
    },
}

/// A call as a plain value.
pub enum Call {
    AddDynamicNotificationEx {
        text: Seq<u8>,
        text_color: NMColor,
        background_color: NMColor,
        callback: Submission,
        keep_until_shown: bool,
    },
    AddInfoNotificationEx {
        text: Seq<u8>,
        duration: Duration,
        text_color: NMColor,
        background_color: NMColor,
        callback: Submission,
        keep_until_shown: bool,
    },
    AddErrorNotificationEx {
        text: Seq<u8>,
        duration: Duration,
        shake: Duration,
        text_color: NMColor,
        background_color: NMColor,
        callback: Submission,
        keep_until_shown: bool,
    },
    UpdateDynamicNotificationText { handle: NotificationModuleHandle, text: Seq<u8> },
    UpdateDynamicNotificationTextColor { handle: NotificationModuleHandle, color: NMColor },
    UpdateDynamicNotificationBackgroundColor { handle: NotificationModuleHandle, color: NMColor },
    FinishDynamicNotificationWithShake {
        handle: NotificationModuleHandle,
        delay: Duration,
        shake: Duration,
    },
}

impl View for NativeCall {
    type V = Call;

    open spec fn view(&self) -> Call {
        match *self {
            NativeCall::AddDynamicNotificationEx {
                text,
                text_color,
                background_color,
                callback,
                keep_until_shown,
            } => Call::AddDynamicNotificationEx {
                text: text@,
                text_color,
                background_color,
                callback,
                keep_until_shown,
            },
            NativeCall::AddInfoNotificationEx {
                text,
                duration,
                text_color,
                background_color,
                callback,
                keep_until_shown,
            } => Call::AddInfoNotificationEx {
                text: text@,
                duration,
                text_color,
                background_color,
                callback,
                keep_until_shown,
            },
            NativeCall::AddErrorNotificationEx {
                text,
                duration,
                shake,
                text_color,
                background_color,
                callback,
                keep_until_shown,
            } => Call::AddErrorNotificationEx {
                text: text@,
                duration,
                shake,
                text_color,
                background_color,
                callback,
                keep_until_shown,
            },
            NativeCall::UpdateDynamicNotificationText { handle, text } => {
                Call::UpdateDynamicNotificationText { handle, text: text@ }
            },
            NativeCall::UpdateDynamicNotificationTextColor { handle, color } => {
                Call::UpdateDynamicNotificationTextColor { handle, color }
            },
            NativeCall::UpdateDynamicNotificationBackgroundColor { handle, color } => {
                Call::UpdateDynamicNotificationBackgroundColor { handle, color }
            },
            NativeCall::FinishDynamicNotificationWithShake { handle, delay, shake } => {
                Call::FinishDynamicNotificationWithShake { handle, delay, shake }
            },
        }
    }
}

impl Call {
    /// The call ends a dynamic notification.
    pub open spec fn is_finish(self) -> bool {
        self is FinishDynamicNotificationWithShake
    }

    /// The call changes a dynamic notification that is shown.
    pub open spec fn is_update(self) -> bool {
        self is UpdateDynamicNotificationText || self is UpdateDynamicNotificationTextColor
            || self is UpdateDynamicNotificationBackgroundColor
    }

    /// The call asks for a new notification.
    pub open spec fn is_add(self) -> bool {
        self is AddDynamicNotificationEx || self is AddInfoNotificationEx
            || self is AddErrorNotificationEx
    }
}

} // verus!
