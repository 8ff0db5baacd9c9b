//! What is asked of the overlay: a notification request, and the builder that
//! puts one together. The builder's kind decides which settings it offers.

use crate::color::Color;
use crate::time::{spec_or_zero, Duration};
use std::marker::PhantomData;
use vstd::prelude::*;
use vstd::utf8::encode_utf8;

verus! {

/// The three notifications that the overlay shows.
#[derive(Clone, Copy, Debug, PartialEq, Eq, Structural)]
pub enum Kind {
    /// Stays until it is finished and can be changed meanwhile.
    Dynamic,
    /// Fades out by itself.
    Info,
    /// Fades out by itself and shakes first.
    Error,
}

/// A notification request as a plain value.
pub struct NotificationRequest<C> {
    pub text: Seq<char>,
    /// Time before it fades out.
    pub duration: Duration,
    pub text_color: Color,
    pub background_color: Color,
    /// Called once when the notification has faded out.
    pub callback: Option<C>,
    /// Whether the overlay queues the request where it cannot show it at once.
    pub keep_until_shown: bool,
    pub shake: Option<Duration>,
    pub delay: Option<Duration>,
}

impl<C> NotificationRequest<C> {
    /// What the requests of all kinds start from: no text, five seconds,
    /// white on half transparent black, no callback, queued until shown, no
    /// shake and no delay.
    pub open spec fn initial() -> NotificationRequest<C> {
        NotificationRequest {
            text: Seq::<char>::empty(),
            duration: Duration::spec_from_secs(5),
            text_color: Color::spec_white(),
            background_color: Color::spec_black().spec_opacity(50),
            callback: None,
            keep_until_shown: true,
            shake: None,
            delay: None,
        }
    }

    /// The request that an error notification starts from: solid red behind
    /// the text, and a shake of one second.
    pub open spec fn initial_error() -> NotificationRequest<C> {
        NotificationRequest {
            background_color: Color::spec_red(),
            shake: Some(Duration::spec_from_secs(1)),
            ..Self::initial()
        }
    }

    /// The request that a notification of `kind` starts from, and that a
    /// builder of that kind holds before anything is set.
    pub open spec fn initial_of(kind: Kind) -> NotificationRequest<C> {
        match kind {
            Kind::Dynamic => Self::initial(),
            Kind::Info => Self::initial(),
            Kind::Error => Self::initial_error(),
        }
    }

    /// The text as the bytes of its UTF-8 encoding.
    pub open spec fn bytes(self) -> Seq<u8> {
        encode_utf8(self.text)
    }

    /// The settings fit `kind`: only a dynamic notification has a delay, and
    /// an info notification has neither delay nor shake.
    pub open spec fn legal(self, kind: Kind) -> bool {
        match kind {
            Kind::Dynamic => true,
            Kind::Info => self.shake is None && self.delay is None,
            Kind::Error => self.delay is None,
        }
    }
}

/// An error notification starts out red and shaking for a second; the other
/// two start out on half transparent black and with no shake at all.
pub proof fn lemma_initial_requests<C>()
    ensures
        ({
            let error = NotificationRequest::<C>::initial_of(Kind::Error);
            let info = NotificationRequest::<C>::initial_of(Kind::Info);
            let dynamic = NotificationRequest::<C>::initial_of(Kind::Dynamic);
            &&& error.background_color == Color::spec_red()
            &&& error.shake == Some(Duration::spec_from_secs(1))
            &&& spec_or_zero(error.shake).total_nanos() == 1_000_000_000
            &&& info.shake is None
            &&& dynamic.shake is None
            &&& spec_or_zero(info.shake).total_nanos() == 0
            &&& spec_or_zero(dynamic.shake).total_nanos() == 0
            &&& info.background_color == Color::spec_black().spec_opacity(50)
            &&& dynamic.background_color == Color::spec_black().spec_opacity(50)
            &&& info.background_color != error.background_color
            &&& dynamic.background_color != error.background_color
        }),
        forall|kind: Kind| #[trigger] NotificationRequest::<C>::initial_of(kind).legal(kind),
{
}

/// The settings that every kind offers leave a request fit for its kind; so
/// does a shake for the kinds that shake, and a delay for the kind that can
/// be delayed.
pub proof fn lemma_settings_stay_legal<C>(
    kind: Kind,
    request: NotificationRequest<C>,
    changed: NotificationRequest<C>,
)
    requires
        request.legal(kind),
        changed.shake == request.shake || kind == Kind::Dynamic || kind == Kind::Error,
        changed.delay == request.delay || kind == Kind::Dynamic,
    ensures
        changed.legal(kind),
{
}

/// Collects the settings of a notification of kind `T`, with a callback of
/// type `C`. Every setter is total and changes the one setting it names.
pub struct NotificationBuilder<T, C> {
    text: String,
    duration: Duration,
    text_color: Color,
    background_color: Color,
    callback: Option<C>,
    keep_until_shown: bool,
    shake: Option<Duration>,
    delay: Option<Duration>,
    marker: PhantomData<T>,
}

impl<T, C> View for NotificationBuilder<T, C> {
    type V = NotificationRequest<C>;

    closed spec fn view(&self) -> NotificationRequest<C> {
        NotificationRequest {
            text: self.text@,
            duration: self.duration,
            text_color: self.text_color,
            background_color: self.background_color,
            callback: self.callback,
            keep_until_shown: self.keep_until_shown,
            shake: self.shake,
            delay: self.delay,
        }
    }
}

impl<T, C> NotificationBuilder<T, C> {
    /// The builder that holds what all kinds start from. What a kind adds of
    /// its own it sets on top of this.
    pub(crate) fn common() -> (r: Self)
        ensures
            r@ == NotificationRequest::<C>::initial(),
    {
        NotificationBuilder {
            text: String::new(),
            duration: Duration::from_secs(5),
            text_color: Color::white(),
            background_color: Color::black().opacity(50),
            callback: None,
            keep_until_shown: true,
            shake: None,
            delay: None,
            marker: PhantomData,
        }
    }

    /// Content of the notification.
    pub fn text(self, text: &str) -> (r: Self)
        ensures
            r@ == (NotificationRequest { text: text@, ..self@ }),
    {
        let mut this = self;
        this.text = text.to_owned();
        this
    }

    /// Time before fading out.
    pub fn duration(self, duration: Duration) -> (r: Self)
        ensures
            r@ == (NotificationRequest { duration, ..self@ }),
    {
        let mut this = self;
        this.duration = duration;
        this
    }

    /// Text color of the notification.
    pub fn text_color(self, color: Color) -> (r: Self)
        ensures
            r@ == (NotificationRequest { text_color: color, ..self@ }),
    {
        let mut this = self;
        this.text_color = color;
        this
    }

    /// Background color of the notification.
    pub fn background_color(self, color: Color) -> (r: Self)
        ensures
            r@ == (NotificationRequest { background_color: color, ..self@ }),
    {
        let mut this = self;
        this.background_color = color;
        this
    }

    /// Function that will be called when the notification fades out.
    pub fn callback(self, callback: C) -> (r: Self)
        ensures
            r@ == (NotificationRequest { callback: Some(callback), ..self@ }),
    {
        let mut this = self;
        this.callback = Some(callback);
        this
    }

    /// The notification will be stored in a queue until it can be shown.
    pub fn keep_until_shown(self, keep: bool) -> (r: Self)
        ensures
            r@ == (NotificationRequest { keep_until_shown: keep, ..self@ }),
    {
        let mut this = self;
        this.keep_until_shown = keep;
        this
    }

    /// Sets the shake. The kinds that shake offer it under the name `shake`.
    pub(crate) fn with_shake(self, duration: Option<Duration>) -> (r: Self)
        ensures
            r@ == (NotificationRequest { shake: duration, ..self@ }),
    {
        let mut this = self;
        this.shake = duration;
        this
    }

    /// Sets the delay. The kind that can be delayed offers it under the name
    /// `delay`.
    pub(crate) fn with_delay(self, duration: Option<Duration>) -> (r: Self)
        ensures
            r@ == (NotificationRequest { delay: duration, ..self@ }),
    {
        let mut this = self;
        this.delay = duration;
        this
    }

    /// Takes the builder apart: the text, the callback, and the rest as it
    /// stands in the view.
    pub(crate) fn into_parts(self) -> (r: (String, Option<C>, Settings))
        ensures
            r.0@ == self@.text,
            r.1 == self@.callback,
            r.2 == Settings::of(self@),
    {
        (
            self.text,
            self.callback,
            Settings {
                duration: self.duration,
                text_color: self.text_color,
                background_color: self.background_color,
                keep_until_shown: self.keep_until_shown,
                shake: self.shake,
                delay: self.delay,
            },
        )
    }
}

/// The settings of a request that are plain numbers and flags.
#[derive(Clone, Copy, Debug, PartialEq, Eq, Structural)]
pub(crate) struct Settings {
    pub duration: Duration,
    pub text_color: Color,
    pub background_color: Color,
    pub keep_until_shown: bool,
    pub shake: Option<Duration>,
    pub delay: Option<Duration>,
}

impl Settings {
    pub(crate) open spec fn of<C>(request: NotificationRequest<C>) -> Settings {
        Settings {
            duration: request.duration,
            text_color: request.text_color,
            background_color: request.background_color,
            keep_until_shown: request.keep_until_shown,
            shake: request.shake,
            delay: request.delay,
        }
    }
}

} // verus!
