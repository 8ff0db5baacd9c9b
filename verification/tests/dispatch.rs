use notifications::{
    dynamic, error, info, CallbackBridge, Color, Completion, Duration, Dynamic, Error, Info,
    LibraryLifecycle, NMColor, NativeCall, Notification, NotificationBuilder, NotificationError,
    StatusCodes, Submission,
};

use std::cell::Cell;
use std::rc::Rc;

const LIFECYCLE: u64 = 7;
const SUCCESS: i32 = 0;
const MODULE_NOT_FOUND: i32 = -1;
const OVERLAY_NOT_READY: i32 = -19;

fn codes() -> StatusCodes {
    StatusCodes {
        success: SUCCESS,
        module_not_found: MODULE_NOT_FOUND,
        module_missing_export: -2,
        unsupported_version: -3,
        invalid_argument: -16,
        lib_uninitialized: -17,
        unsupported_command: -18,
        overlay_not_ready: OVERLAY_NOT_READY,
        unsupported_type: -20,
        allocation_failed: -21,
        invalid_handle: -22,
    }
}

type Callback = Box<dyn FnOnce()>;

fn no_callback() -> Submission {
    Submission { trampoline: false, context: 0 }
}

fn white() -> NMColor {
    NMColor { r: 255, g: 255, b: 255, a: 255 }
}

fn half_black() -> NMColor {
    NMColor { r: 0, g: 0, b: 0, a: 127 }
}

fn red() -> NMColor {
    NMColor { r: 255, g: 0, b: 0, a: 255 }
}

#[test]
fn info_defaults() {
    let mut lifecycle = LibraryLifecycle::new(LIFECYCLE);
    let mut callbacks: CallbackBridge<Callback> = CallbackBridge::new();
    let dispatch = info("Hello").show(&mut lifecycle, &mut callbacks).unwrap();
    assert_eq!(
        *dispatch.call(),
        NativeCall::AddInfoNotificationEx {
            text: b"Hello\0".to_vec(),
            duration: Duration::from_secs(5),
            text_color: white(),
            background_color: half_black(),
            callback: no_callback(),
            keep_until_shown: true,
        }
    );
    assert!(dispatch.activate());
    assert_eq!(lifecycle.active_users(), 1);
}

#[test]
fn dynamic_defaults() {
    let mut lifecycle = LibraryLifecycle::new(LIFECYCLE);
    let mut callbacks: CallbackBridge<Callback> = CallbackBridge::new();
    let dispatch = dynamic("Hello").show(&mut lifecycle, &mut callbacks).unwrap();
    assert_eq!(
        *dispatch.call(),
        NativeCall::AddDynamicNotificationEx {
            text: b"Hello\0".to_vec(),
            text_color: white(),
            background_color: half_black(),
            callback: no_callback(),
            keep_until_shown: true,
        }
    );
    assert_eq!(dispatch.delay(), Duration::zero());
    assert_eq!(dispatch.shake(), Duration::zero());
}

#[test]
fn error_defaults_are_red_and_shake_a_second() {
    let mut lifecycle = LibraryLifecycle::new(LIFECYCLE);
    let mut callbacks: CallbackBridge<Callback> = CallbackBridge::new();
    let dispatch = error("Oops").show(&mut lifecycle, &mut callbacks).unwrap();
    assert_eq!(
        *dispatch.call(),
        NativeCall::AddErrorNotificationEx {
            text: b"Oops\0".to_vec(),
            duration: Duration::from_secs(5),
            shake: Duration::from_secs(1),
            text_color: white(),
            background_color: red(),
            callback: no_callback(),
            keep_until_shown: true,
        }
    );
    assert_eq!(dispatch.shake(), Duration { secs: 1, nanos: 0 });
}

#[test]
fn error_defaults_differ_from_the_others() {
    let mut lifecycle = LibraryLifecycle::new(LIFECYCLE);
    let mut callbacks: CallbackBridge<Callback> = CallbackBridge::new();
    let e = error("x").show(&mut lifecycle, &mut callbacks).unwrap();
    let i = info("x").show(&mut lifecycle, &mut callbacks).unwrap();
    let d = dynamic("x").show(&mut lifecycle, &mut callbacks).unwrap();
    let background = |call: &NativeCall| match call {
        NativeCall::AddDynamicNotificationEx { background_color, .. } => *background_color,
        NativeCall::AddInfoNotificationEx { background_color, .. } => *background_color,
        NativeCall::AddErrorNotificationEx { background_color, .. } => *background_color,
        _ => unreachable!(),
    };
    assert_eq!(background(e.call()), red());
    assert_ne!(background(i.call()), red());
    assert_ne!(background(d.call()), red());
    assert_eq!(e.shake(), Duration::from_secs(1));
    assert_eq!(i.shake(), Duration::zero());
    assert_eq!(d.shake(), Duration::zero());
}

#[test]
fn a_default_builder_has_no_text() {
    let mut lifecycle = LibraryLifecycle::new(LIFECYCLE);
    let mut callbacks: CallbackBridge<Callback> = CallbackBridge::new();
    let builder: NotificationBuilder<Info, Callback> = NotificationBuilder::default();
    let dispatch = builder.show(&mut lifecycle, &mut callbacks).unwrap();
    assert_eq!(
        *dispatch.call(),
        NativeCall::AddInfoNotificationEx {
            text: vec![0],
            duration: Duration::from_secs(5),
            text_color: white(),
            background_color: half_black(),
            callback: no_callback(),
            keep_until_shown: true,
        }
    );
}

#[test]
fn every_setting_reaches_the_call() {
    let mut lifecycle = LibraryLifecycle::new(LIFECYCLE);
    let mut callbacks: CallbackBridge<u8> = CallbackBridge::new();
    let dispatch = error::<u8>("first")
        .text("second")
        .duration(Duration::from_millis(2500))
        .text_color(Color::rgba(1, 2, 3, 4))
        .background_color(Color::rgba(5, 6, 7, 8))
        .keep_until_shown(false)
        .shake(Some(Duration::from_millis(250)))
        .show(&mut lifecycle, &mut callbacks)
        .unwrap();
    assert_eq!(
        *dispatch.call(),
        NativeCall::AddErrorNotificationEx {
            text: b"second\0".to_vec(),
            duration: Duration { secs: 2, nanos: 500_000_000 },
            shake: Duration { secs: 0, nanos: 250_000_000 },
            text_color: NMColor { r: 1, g: 2, b: 3, a: 4 },
            background_color: NMColor { r: 5, g: 6, b: 7, a: 8 },
            callback: no_callback(),
            keep_until_shown: false,
        }
    );
}

#[test]
fn a_shake_that_is_taken_away_is_no_time() {
    let mut lifecycle = LibraryLifecycle::new(LIFECYCLE);
    let mut callbacks: CallbackBridge<u8> = CallbackBridge::new();
    let dispatch = error::<u8>("x").shake(None).show(&mut lifecycle, &mut callbacks).unwrap();
    match dispatch.call() {
        NativeCall::AddErrorNotificationEx { shake, .. } => assert_eq!(*shake, Duration::zero()),
        other => panic!("unexpected call {:?}", other),
    }
}

#[test]
fn a_callback_gets_a_trampoline_and_a_context() {
    let mut lifecycle = LibraryLifecycle::new(LIFECYCLE);
    let mut callbacks: CallbackBridge<u8> = CallbackBridge::new();
    let dispatch = info("x").callback(9u8).show(&mut lifecycle, &mut callbacks).unwrap();
    let submission = match dispatch.call() {
        NativeCall::AddInfoNotificationEx { callback, .. } => *callback,
        other => panic!("unexpected call {:?}", other),
    };
    assert!(submission.trampoline);
    assert_ne!(submission.context, 0);
    assert!(callbacks.is_pending(submission.context));
    assert_eq!(callbacks.reclaim(submission.context), Some(9));
    assert_eq!(callbacks.reclaim(submission.context), None);
}

#[test]
fn text_with_a_zero_byte_is_refused_before_anything_happens() {
    let mut lifecycle = LibraryLifecycle::new(LIFECYCLE);
    let mut callbacks: CallbackBridge<u8> = CallbackBridge::new();
    let result = error("bad\0text").callback(1u8).show(&mut lifecycle, &mut callbacks);
    assert!(matches!(result, Err(NotificationError::InternalZeroByte(3))));
    assert_eq!(lifecycle.active_users(), 0);
    assert!(!lifecycle.is_active());
    for context in 0..8 {
        assert!(!callbacks.is_pending(context));
    }
}

#[test]
fn a_zero_byte_is_refused_by_every_kind() {
    let mut lifecycle = LibraryLifecycle::new(LIFECYCLE);
    let mut callbacks: CallbackBridge<u8> = CallbackBridge::new();
    assert!(matches!(
        info("\0").show(&mut lifecycle, &mut callbacks),
        Err(NotificationError::InternalZeroByte(0))
    ));
    assert!(matches!(
        dynamic("a\0").show(&mut lifecycle, &mut callbacks),
        Err(NotificationError::InternalZeroByte(1))
    ));
    assert!(matches!(
        error("ab\0").show(&mut lifecycle, &mut callbacks),
        Err(NotificationError::InternalZeroByte(2))
    ));
    assert_eq!(lifecycle.active_users(), 0);
}

#[test]
fn info_gives_its_guard_back() {
    let mut lifecycle = LibraryLifecycle::new(LIFECYCLE);
    let mut callbacks: CallbackBridge<u8> = CallbackBridge::new();
    let dispatch = info("Hello").show(&mut lifecycle, &mut callbacks).unwrap();
    assert_eq!(lifecycle.active_users(), 1);
    let Completion { result, deactivate } = dispatch.complete(&codes(), &mut lifecycle, SUCCESS, 0);
    assert_eq!(result, Ok(()));
    assert!(deactivate);
    assert_eq!(lifecycle.active_users(), 0);
}

#[test]
fn module_not_found_fails_and_leaks_no_user() {
    let mut lifecycle = LibraryLifecycle::new(LIFECYCLE);
    let mut callbacks: CallbackBridge<u8> = CallbackBridge::new();
    let dispatch = info("Hello").show(&mut lifecycle, &mut callbacks).unwrap();
    let Completion { result, deactivate } =
        dispatch.complete(&codes(), &mut lifecycle, MODULE_NOT_FOUND, 0);
    assert_eq!(result, Err(NotificationError::ModuleNotFound));
    assert!(deactivate);
    assert_eq!(lifecycle.active_users(), 0);

    let dispatch = error("Hello").show(&mut lifecycle, &mut callbacks).unwrap();
    assert!(dispatch.activate());
    let completion = dispatch.complete(&codes(), &mut lifecycle, MODULE_NOT_FOUND, 0);
    assert_eq!(completion.result, Err(NotificationError::ModuleNotFound));
    assert_eq!(lifecycle.active_users(), 0);

    let dispatch = dynamic("Hello").show(&mut lifecycle, &mut callbacks).unwrap();
    let completion = dispatch.complete(&codes(), &mut lifecycle, MODULE_NOT_FOUND, 7);
    assert!(matches!(completion.result, Err(NotificationError::ModuleNotFound)));
    assert!(completion.deactivate);
    assert_eq!(lifecycle.active_users(), 0);
}

#[test]
fn a_failure_beside_a_live_handle_keeps_the_module_active() {
    let mut lifecycle = LibraryLifecycle::new(LIFECYCLE);
    let mut callbacks: CallbackBridge<u8> = CallbackBridge::new();
    let first = dynamic("one").show(&mut lifecycle, &mut callbacks).unwrap();
    assert!(first.activate());
    let handle = first.complete(&codes(), &mut lifecycle, SUCCESS, 1).result.unwrap();
    let second = info("two").show(&mut lifecycle, &mut callbacks).unwrap();
    assert!(!second.activate());
    assert_eq!(lifecycle.active_users(), 2);
    let completion = second.complete(&codes(), &mut lifecycle, OVERLAY_NOT_READY, 0);
    assert_eq!(completion.result, Err(NotificationError::OverlayNotReady));
    assert!(!completion.deactivate);
    assert_eq!(lifecycle.active_users(), 1);
    let deactivate = handle.finish().complete(&codes(), &mut lifecycle, SUCCESS);
    assert!(deactivate);
    assert_eq!(lifecycle.active_users(), 0);
}

#[test]
fn an_unknown_status_fails_with_its_value() {
    let mut lifecycle = LibraryLifecycle::new(LIFECYCLE);
    let mut callbacks: CallbackBridge<u8> = CallbackBridge::new();
    let dispatch = info("Hello").show(&mut lifecycle, &mut callbacks).unwrap();
    let completion = dispatch.complete(&codes(), &mut lifecycle, 1, 0);
    assert_eq!(completion.result, Err(NotificationError::Unknown(1)));
    assert_eq!(lifecycle.active_users(), 0);
}

fn shown(builder: NotificationBuilder<Dynamic, u8>, handle: u32) -> (Notification, LibraryLifecycle) {
    let mut lifecycle = LibraryLifecycle::new(LIFECYCLE);
    let mut callbacks: CallbackBridge<u8> = CallbackBridge::new();
    let dispatch = builder.show(&mut lifecycle, &mut callbacks).unwrap();
    let completion = dispatch.complete(&codes(), &mut lifecycle, SUCCESS, handle);
    assert!(!completion.deactivate);
    (completion.result.unwrap(), lifecycle)
}

#[test]
fn a_dynamic_notification_keeps_its_guard_in_the_handle() {
    let (handle, lifecycle) = shown(dynamic("Hello"), 42);
    assert_eq!(handle.handle(), 42);
    assert_eq!(lifecycle.active_users(), 1);
    assert!(lifecycle.is_active());
}

fn entry_point(call: &NativeCall) -> &'static str {
    match call {
        NativeCall::AddDynamicNotificationEx { .. } => "AddDynamicNotificationEx",
        NativeCall::AddInfoNotificationEx { .. } => "AddInfoNotificationEx",
        NativeCall::AddErrorNotificationEx { .. } => "AddErrorNotificationEx",
        NativeCall::UpdateDynamicNotificationText { .. } => "UpdateDynamicNotificationText",
        NativeCall::UpdateDynamicNotificationTextColor { .. } => {
            "UpdateDynamicNotificationTextColor"
        }
        NativeCall::UpdateDynamicNotificationBackgroundColor { .. } => {
            "UpdateDynamicNotificationBackgroundColor"
        }
        NativeCall::FinishDynamicNotificationWithShake { .. } => {
            "FinishDynamicNotificationWithShake"
        }
    }
}

#[test]
fn hello_world_scenario() {
    let mut lifecycle = LibraryLifecycle::new(LIFECYCLE);
    let mut callbacks: CallbackBridge<Callback> = CallbackBridge::new();
    let mut calls: Vec<&'static str> = Vec::new();

    let dispatch = dynamic("Hello").show(&mut lifecycle, &mut callbacks).unwrap();
    if dispatch.activate() {
        calls.push("InitLibrary");
    }
    assert_eq!(
        *dispatch.call(),
        NativeCall::AddDynamicNotificationEx {
            text: b"Hello\0".to_vec(),
            text_color: white(),
            background_color: half_black(),
            callback: no_callback(),
            keep_until_shown: true,
        }
    );
    calls.push(entry_point(dispatch.call()));
    let completion = dispatch.complete(&codes(), &mut lifecycle, SUCCESS, 5);
    if completion.deactivate {
        calls.push("DeInitLibrary");
    }
    let handle = completion.result.unwrap();

    let update = handle.text("World").unwrap();
    assert_eq!(
        update,
        NativeCall::UpdateDynamicNotificationText { handle: 5, text: b"World\0".to_vec() }
    );
    calls.push(entry_point(&update));
    assert_eq!(NotificationError::try_from(&codes(), SUCCESS), Ok(()));

    let end = handle.finish();
    assert_eq!(
        *end.call(),
        NativeCall::FinishDynamicNotificationWithShake {
            handle: 5,
            delay: Duration::zero(),
            shake: Duration::zero(),
        }
    );
    calls.push(entry_point(end.call()));
    assert!(lifecycle.is_active());
    if end.complete(&codes(), &mut lifecycle, SUCCESS) {
        calls.push("DeInitLibrary");
    }
    assert_eq!(lifecycle.active_users(), 0);

    assert_eq!(
        calls,
        vec![
            "InitLibrary",
            "AddDynamicNotificationEx",
            "UpdateDynamicNotificationText",
            "FinishDynamicNotificationWithShake",
            "DeInitLibrary",
        ]
    );
    let finishes =
        calls.iter().filter(|name| **name == "FinishDynamicNotificationWithShake").count();
    assert_eq!(finishes, 1);
}

#[test]
fn the_handle_finishes_with_what_it_was_made_with() {
    let builder = dynamic("Hello")
        .delay(Some(Duration::from_millis(1500)))
        .shake(Some(Duration::from_secs(2)));
    let (handle, mut lifecycle) = shown(builder, 9);
    assert_eq!(handle.delay(), Duration { secs: 1, nanos: 500_000_000 });
    assert_eq!(handle.shake(), Duration { secs: 2, nanos: 0 });
    let mut updates = Vec::new();
    for round in 0..5u8 {
        updates.push(handle.text("again").unwrap());
        updates.push(handle.text_color(Color::rgb(round, 0, 0)));
        updates.push(handle.bg_color(Color::rgb(0, round, 0)));
    }
    assert_eq!(updates.len(), 15);
    for call in &updates {
        assert!(!matches!(call, NativeCall::FinishDynamicNotificationWithShake { .. }));
    }
    let end = handle.finish();
    assert_eq!(
        *end.call(),
        NativeCall::FinishDynamicNotificationWithShake {
            handle: 9,
            delay: Duration { secs: 1, nanos: 500_000_000 },
            shake: Duration { secs: 2, nanos: 0 },
        }
    );
    assert!(end.complete(&codes(), &mut lifecycle, SUCCESS));
    assert_eq!(lifecycle.active_users(), 0);
}

#[test]
fn updates_name_the_handle_and_carry_the_value() {
    let (handle, _lifecycle) = shown(dynamic("Hello"), 3);
    assert_eq!(
        handle.text_color(Color::red()),
        NativeCall::UpdateDynamicNotificationTextColor { handle: 3, color: red() }
    );
    assert_eq!(
        handle.bg_color(Color::black().opacity(50)),
        NativeCall::UpdateDynamicNotificationBackgroundColor { handle: 3, color: half_black() }
    );
    assert_eq!(
        handle.text(""),
        Ok(NativeCall::UpdateDynamicNotificationText { handle: 3, text: vec![0] })
    );
}

#[test]
fn an_update_with_a_zero_byte_is_refused_and_the_handle_lives_on() {
    let (handle, mut lifecycle) = shown(dynamic("Hello"), 3);
    assert_eq!(handle.text("Wor\0ld"), Err(NotificationError::InternalZeroByte(3)));
    assert_eq!(handle.handle(), 3);
    assert_eq!(lifecycle.active_users(), 1);
    assert!(handle.text("World").is_ok());
    assert!(handle.finish().complete(&codes(), &mut lifecycle, SUCCESS));
    assert_eq!(lifecycle.active_users(), 0);
}

#[test]
fn a_failed_update_leaves_the_handle_valid() {
    let (handle, mut lifecycle) = shown(dynamic("Hello"), 3);
    let _call = handle.text_color(Color::red());
    assert_eq!(
        NotificationError::try_from(&codes(), -22),
        Err(NotificationError::InvalidHandle)
    );
    assert_eq!(lifecycle.active_users(), 1);
    assert_eq!(handle.handle(), 3);
    let end = handle.finish();
    assert!(matches!(
        end.call(),
        NativeCall::FinishDynamicNotificationWithShake { handle: 3, .. }
    ));
    assert!(end.complete(&codes(), &mut lifecycle, SUCCESS));
    assert_eq!(lifecycle.active_users(), 0);
}

#[test]
fn a_failed_finish_is_fatal_and_the_guard_goes_back() {
    let (handle, mut lifecycle) = shown(dynamic("Hello"), 3);
    let end = handle.finish();
    let status = -22;
    assert_ne!(status, codes().success);
    let fatal = end.fail(&codes(), &mut lifecycle, status);
    assert_eq!(fatal.error, NotificationError::InvalidHandle);
    assert!(fatal.deactivate);
    assert_eq!(lifecycle.active_users(), 0);
}

#[test]
fn a_failed_finish_with_an_unknown_status_keeps_the_status() {
    let (handle, mut lifecycle) = shown(dynamic("Hello"), 3);
    let fatal = handle.finish().fail(&codes(), &mut lifecycle, 99);
    assert_eq!(fatal.error, NotificationError::Unknown(99));
    assert_eq!(lifecycle.active_users(), 0);
}

#[test]
fn a_failed_finish_beside_another_user_leaves_the_module_active() {
    let (handle, mut lifecycle) = shown(dynamic("Hello"), 3);
    let (guard, activate) = lifecycle.acquire();
    assert!(!activate);
    let fatal = handle.finish().fail(&codes(), &mut lifecycle, MODULE_NOT_FOUND);
    assert_eq!(fatal.error, NotificationError::ModuleNotFound);
    assert!(!fatal.deactivate);
    assert_eq!(lifecycle.active_users(), 1);
    assert!(lifecycle.release(guard));
}

#[test]
fn an_unconfigured_error_builder_is_red_and_shakes_a_second() {
    let mut lifecycle = LibraryLifecycle::new(LIFECYCLE);
    let mut callbacks: CallbackBridge<Callback> = CallbackBridge::new();
    let builder: NotificationBuilder<Error, Callback> = NotificationBuilder::default();
    let dispatch = builder.show(&mut lifecycle, &mut callbacks).unwrap();
    assert_eq!(
        *dispatch.call(),
        NativeCall::AddErrorNotificationEx {
            text: vec![0],
            duration: Duration::from_secs(5),
            shake: Duration { secs: 1, nanos: 0 },
            text_color: white(),
            background_color: red(),
            callback: no_callback(),
            keep_until_shown: true,
        }
    );
    assert_eq!(dispatch.shake(), Duration::from_secs(1));
}

#[test]
fn an_unconfigured_dynamic_builder_is_on_black_and_still() {
    let mut lifecycle = LibraryLifecycle::new(LIFECYCLE);
    let mut callbacks: CallbackBridge<Callback> = CallbackBridge::new();
    let builder: NotificationBuilder<Dynamic, Callback> = NotificationBuilder::default();
    let dispatch = builder.show(&mut lifecycle, &mut callbacks).unwrap();
    assert_eq!(
        *dispatch.call(),
        NativeCall::AddDynamicNotificationEx {
            text: vec![0],
            text_color: white(),
            background_color: half_black(),
            callback: no_callback(),
            keep_until_shown: true,
        }
    );
    assert_eq!(dispatch.shake(), Duration::zero());
    assert_eq!(dispatch.delay(), Duration::zero());
}

#[test]
fn error_and_its_default_builder_agree() {
    let mut lifecycle = LibraryLifecycle::new(LIFECYCLE);
    let mut callbacks: CallbackBridge<Callback> = CallbackBridge::new();
    let by_name = error("x").show(&mut lifecycle, &mut callbacks).unwrap();
    let by_default = NotificationBuilder::<Error, Callback>::default()
        .text("x")
        .show(&mut lifecycle, &mut callbacks)
        .unwrap();
    assert_eq!(by_name.call(), by_default.call());
    assert_eq!(by_name.shake(), by_default.shake());
}

#[test]
fn every_holder_names_the_lifecycle_that_counts_it() {
    let mut lifecycle = LibraryLifecycle::new(41);
    let mut callbacks: CallbackBridge<Callback> = CallbackBridge::new();
    assert_eq!(lifecycle.id(), 41);
    let dispatch = dynamic("Hello").show(&mut lifecycle, &mut callbacks).unwrap();
    assert_eq!(dispatch.owner(), 41);
    let handle = dispatch.complete(&codes(), &mut lifecycle, SUCCESS, 1).result.unwrap();
    assert_eq!(handle.owner(), 41);
    let end = handle.finish();
    assert_eq!(end.owner(), 41);
    assert_eq!(lifecycle.id(), 41);
    assert!(end.complete(&codes(), &mut lifecycle, SUCCESS));
    assert_eq!(lifecycle.id(), 41);
}

#[test]
fn holders_of_two_lifecycles_can_be_told_apart() {
    let mut first = LibraryLifecycle::new(1);
    let mut second = LibraryLifecycle::new(2);
    let mut callbacks: CallbackBridge<Callback> = CallbackBridge::new();
    let a = info("a").show(&mut first, &mut callbacks).unwrap();
    let b = info("b").show(&mut second, &mut callbacks).unwrap();
    assert_eq!(a.owner(), first.id());
    assert_eq!(b.owner(), second.id());
    assert_ne!(a.owner(), second.id());
    assert_ne!(b.owner(), first.id());
    assert!(a.complete(&codes(), &mut first, SUCCESS, 0).deactivate);
    assert!(b.complete(&codes(), &mut second, SUCCESS, 0).deactivate);
}

#[test]
fn a_callback_runs_once_when_the_notification_completes() {
    let runs = Rc::new(Cell::new(0));
    let counter = runs.clone();
    let mut lifecycle = LibraryLifecycle::new(LIFECYCLE);
    let mut callbacks: CallbackBridge<Callback> = CallbackBridge::new();
    let dispatch = info("Hello")
        .callback(Box::new(move || counter.set(counter.get() + 1)) as Callback)
        .show(&mut lifecycle, &mut callbacks)
        .unwrap();
    let context = match dispatch.call() {
        NativeCall::AddInfoNotificationEx { callback, .. } => {
            assert!(callback.trampoline);
            callback.context
        }
        other => panic!("unexpected call {:?}", other),
    };
    dispatch.complete(&codes(), &mut lifecycle, SUCCESS, 0);
    assert_eq!(runs.get(), 0);
    if let Some(callback) = callbacks.reclaim(context) {
        callback();
    }
    if let Some(callback) = callbacks.reclaim(context) {
        callback();
    }
    assert_eq!(runs.get(), 1);
}

#[test]
fn without_a_callback_nothing_is_kept() {
    let mut lifecycle = LibraryLifecycle::new(LIFECYCLE);
    let mut callbacks: CallbackBridge<Callback> = CallbackBridge::new();
    let dispatch = info("Hello").show(&mut lifecycle, &mut callbacks).unwrap();
    match dispatch.call() {
        NativeCall::AddInfoNotificationEx { callback, .. } => {
            assert_eq!(*callback, no_callback());
        }
        other => panic!("unexpected call {:?}", other),
    }
    for context in 0..8 {
        assert!(callbacks.reclaim(context).is_none());
    }
}
