//! The "go to line" popup widget: a modal overlay in which the user types a
//! line number and confirms to ask the host to jump a view there.
//!
//! The widget is a two-state machine, `Hidden` and `Visible`. While visible
//! it intercepts every key event: digits accumulate in a buffer capped at
//! six characters, the erase key drops the last digit, the configured exit
//! binding cancels, and the configured confirm binding emits a navigation
//! request (when any digits were typed) followed by a close notification.
//! While hidden it consumes nothing and changes nothing.

use vstd::prelude::*;

use crate::components::EventState;
use crate::digits::{digits_val, is_ascii_digit, is_digit, lemma_digits_val_max, parse_digits};
use crate::keys::{key_match, Event, KeyCode, KeyConfig, KeyEvent};
use crate::queue::InternalEvent;
use crate::ui::{centered_rect_absolute, centered_rect_spec, Rect};

verus! {

/// Width in cells of the drawn popup box.
pub const POPUP_WIDTH: u16 = 15;

/// Height in cells of the drawn popup box.
pub const POPUP_HEIGHT: u16 = 3;

/// The abstract state of the popup, which every contract speaks of:
/// whether it is shown, the digits typed so far, and the opaque context
/// recorded when it was opened.
pub struct PopupView<C> {
    pub visible: bool,
    pub buffer: Seq<char>,
    pub context: Option<C>,
}

impl<C> PopupView<C> {
    /// The state invariant: the buffer holds at most six ASCII digits, and
    /// a hidden popup holds none at all.
    pub open spec fn wf(self) -> bool {
        &&& self.buffer.len() <= 6
        &&& (forall|i: int| 0 <= i < self.buffer.len() ==> is_digit(self.buffer[i]))
        &&& (!self.visible ==> self.buffer.len() == 0)
    }
}

/// One character offered to the buffer: an ASCII digit is appended while
/// fewer than six digits are held; any other character, and any digit
/// beyond the sixth, leaves the buffer unchanged.
pub open spec fn accept_char(buffer: Seq<char>, c: char) -> Seq<char> {
    if is_digit(c) && buffer.len() < 6 {
        buffer.push(c)
    } else {
        buffer
    }
}

/// Erasing the last buffered digit: a no-op on an empty buffer.
pub open spec fn erase_last(buffer: Seq<char>) -> Seq<char> {
    if buffer.len() == 0 {
        buffer
    } else {
        buffer.drop_last()
    }
}

/// The modal "go to line" popup.
pub struct GotoLinePopup<C> {
    visible: bool,
    line: Vec<char>,
    key_config: KeyConfig,
    context: Option<C>,
}

impl<C> View for GotoLinePopup<C> {
    type V = PopupView<C>;

    closed spec fn view(&self) -> PopupView<C> {
        PopupView { visible: self.visible, buffer: self.line@, context: self.context }
    }
}

impl<C> GotoLinePopup<C> {
    /// The key bindings the popup was constructed with; it only ever reads
    /// them, so they never change.
    pub closed spec fn config(&self) -> KeyConfig {
        self.key_config
    }

    /// The state invariant; established by [`GotoLinePopup::new`] and
    /// preserved by every operation.
    pub open spec fn inv(&self) -> bool {
        self@.wf()
    }

    /// Create the popup: hidden, with an empty buffer and no context,
    /// holding the process-wide key bindings it will match against.
    pub fn new(key_config: KeyConfig) -> (p: Self)
        ensures
            p.inv(),
            !p@.visible,
            p@.buffer == Seq::<char>::empty(),
            p@.context is None,
            p.config() == key_config,
    {
        GotoLinePopup { visible: false, line: Vec::new(), key_config, context: None }
    }

    /// Show the popup and arm it with the caller's context.
    ///
    /// Idempotent with respect to visibility: opening an already-visible
    /// popup keeps it visible, replaces the stored context, and leaves the
    /// buffer untouched.
    pub fn open(&mut self, context: Option<C>)
        requires
            old(self).inv(),
        ensures
            final(self).inv(),
            final(self)@.visible,
            final(self)@.context == context,
            final(self)@.buffer == old(self)@.buffer,
            final(self).config() == old(self).config(),
    {
        self.visible = true;
        self.context = context;
    }

    /// Is the popup currently shown (and so intercepting input)?
    pub fn is_visible(&self) -> (r: bool)
        ensures
            r == self@.visible,
    {
        self.visible
    }

    /// What one key press does while the popup is visible: the next state
    /// and the notifications appended to the host queue, in order.
    ///
    /// The branches are tried in the same order the handler tries them: the
    /// exit binding first, then any character key, then the erase key, then
    /// the confirm binding. A confirm hands the stored context off inside
    /// the navigation request; an empty-buffer confirm emits only the close
    /// notification and leaves the context in place.
    pub open spec fn step_key(v: PopupView<C>, cfg: KeyConfig, key: KeyEvent) -> (
        PopupView<C>,
        Seq<InternalEvent<C>>,
    ) {
        if key == cfg.exit_popup {
            (
                PopupView { visible: false, buffer: Seq::empty(), context: v.context },
                seq![InternalEvent::PopupStackPop],
            )
        } else {
            match key.code {
                KeyCode::Char(c) => (
                    PopupView { visible: v.visible, buffer: accept_char(v.buffer, c), context: v.context },
                    Seq::empty(),
                ),
                KeyCode::Backspace => (
                    PopupView { visible: v.visible, buffer: erase_last(v.buffer), context: v.context },
                    Seq::empty(),
                ),
                _ => {
                    if key == cfg.enter {
                        if v.buffer.len() > 0 {
                            (
                                PopupView { visible: false, buffer: Seq::empty(), context: None },
                                seq![
                                    InternalEvent::GotoLine(digits_val(v.buffer) as usize, v.context),
                                    InternalEvent::PopupStackPop,
                                ],
                            )
                        } else {
                            (
                                PopupView { visible: false, buffer: Seq::empty(), context: v.context },
                                seq![InternalEvent::PopupStackPop],
                            )
                        }
                    } else {
                        (v, Seq::empty())
                    }
                },
            }
        }
    }

    /// The popup's whole transition function: the state after one raw input
    /// event, the notifications pushed (in order), and whether the event was
    /// consumed. A hidden popup, and any non-key event, changes nothing and
    /// consumes nothing.
    pub open spec fn step(v: PopupView<C>, cfg: KeyConfig, ev: Event) -> (
        PopupView<C>,
        Seq<InternalEvent<C>>,
        EventState,
    ) {
        match ev {
            Event::Key(key) => {
                if v.visible {
                    let (v2, pushed) = Self::step_key(v, cfg, key);
                    (v2, pushed, EventState::Consumed)
                } else {
                    (v, Seq::empty(), EventState::NotConsumed)
                }
            },
            Event::Other => (v, Seq::empty(), EventState::NotConsumed),
        }
    }

    /// The popup's state after a whole sequence of input events, paired
    /// with everything it pushed into the host queue along the way.
    pub open spec fn run(v: PopupView<C>, cfg: KeyConfig, evs: Seq<Event>) -> (
        PopupView<C>,
        Seq<InternalEvent<C>>,
    )
        decreases evs.len(),
    {
        if evs.len() == 0 {
            (v, Seq::empty())
        } else {
            let (v2, pushed, r) = Self::step(v, cfg, evs[0]);
            let (v3, rest) = Self::run(v2, cfg, evs.drop_first());
            (v3, pushed + rest)
        }
    }

    /// `ev` presses the digit `c` and no binding intercepts it: a character
    /// key carrying an ASCII digit, other than the configured exit chord.
    pub open spec fn is_digit_press(ev: Event, c: char, cfg: KeyConfig) -> bool {
        match ev {
            Event::Key(key) => key.code == KeyCode::Char(c) && is_digit(c) && key
                != cfg.exit_popup,
            Event::Other => false,
        }
    }

    /// Digit presses accumulate, truncated at the cap: feeding a visible
    /// popup any run of digit key presses appends exactly those digits to
    /// the buffer, in order, up to the six-digit cap; presses beyond the
    /// sixth digit are dropped without any effect. Nothing is pushed to the
    /// host queue, and visibility and context are untouched. Started from an
    /// empty buffer, the buffer afterwards is the first six digits pressed.
    pub proof fn lemma_digit_run(v: PopupView<C>, cfg: KeyConfig, evs: Seq<Event>, ds: Seq<char>)
        requires
            v.wf(),
            v.visible,
            evs.len() == ds.len(),
            forall|i: int| 0 <= i < evs.len() ==> Self::is_digit_press(evs[i], ds[i], cfg),
        ensures
            ({
                let (v2, pushed) = Self::run(v, cfg, evs);
                &&& v2.visible
                &&& v2.context == v.context
                &&& v2.buffer == (v.buffer + ds).take(
                    vstd::math::min(6, v.buffer.len() + ds.len() as int),
                )
                &&& v2.wf()
                &&& pushed == Seq::<InternalEvent<C>>::empty()
            }),
        decreases evs.len(),
    {
        if evs.len() == 0 {
            assert((v.buffer + ds).take(vstd::math::min(6, v.buffer.len() + ds.len() as int))
                =~= v.buffer);
        } else {
            assert(Self::is_digit_press(evs[0], ds[0], cfg));
            let (v2, pushed, r) = Self::step(v, cfg, evs[0]);
            assert(v2.buffer == accept_char(v.buffer, ds[0]));
            assert(pushed == Seq::<InternalEvent<C>>::empty());
            assert(v2.wf()) by {
                if v.buffer.len() < 6 {
                    assert forall|i: int| 0 <= i < v2.buffer.len() implies is_digit(
                        v2.buffer[i],
                    ) by {
                        if i < v.buffer.len() {
                            assert(v2.buffer[i] == v.buffer[i]);
                        } else {
                            assert(v2.buffer[i] == ds[0]);
                        }
                    }
                }
            }
            assert forall|i: int|
                0 <= i < evs.drop_first().len() implies Self::is_digit_press(
                evs.drop_first()[i],
                ds.drop_first()[i],
                cfg,
            ) by {
                assert(evs.drop_first()[i] == evs[i + 1]);
                assert(ds.drop_first()[i] == ds[i + 1]);
            }
            Self::lemma_digit_run(v2, cfg, evs.drop_first(), ds.drop_first());
            let (v3, rest) = Self::run(v2, cfg, evs.drop_first());
            assert(pushed + rest =~= Seq::<InternalEvent<C>>::empty());
            if v.buffer.len() < 6 {
                assert(v2.buffer + ds.drop_first() =~= v.buffer + ds);
                assert(v2.buffer.len() + ds.drop_first().len() == v.buffer.len() + ds.len());
            } else {
                assert(v2.buffer == v.buffer);
                assert(v3.buffer == (v.buffer + ds.drop_first()).take(6));
                assert((v.buffer + ds.drop_first()).take(6) =~= v.buffer);
                assert((v.buffer + ds).take(vstd::math::min(6, v.buffer.len() + ds.len() as int))
                    =~= v.buffer);
            }
        }
    }

    /// Offer one raw input event to the popup.
    ///
    /// This is the only place the popup mutates its state or pushes into
    /// the host queue, and it does exactly what [`GotoLinePopup::step`]
    /// says: every key event seen while visible is consumed (whether or not
    /// it changes anything), everything else passes through untouched.
    pub fn event(&mut self, event: &Event, queue: &mut Vec<InternalEvent<C>>) -> (r: EventState)
        requires
            old(self).inv(),
        ensures
            final(self).inv(),
            final(self).config() == old(self).config(),
            ({
                let (v2, pushed, r2) = Self::step(old(self)@, old(self).config(), *event);
                &&& final(self)@ == v2
                &&& final(queue)@ == old(queue)@ + pushed
                &&& r == r2
            }),
    {
        if self.visible {
            if let Event::Key(key) = event {
                if key_match(key, self.key_config.exit_popup) {
                    self.visible = false;
                    self.line.clear();
                    queue.push(InternalEvent::PopupStackPop);
                    proof {
                        assert(queue@ =~= old(queue)@ + seq![
                            InternalEvent::<C>::PopupStackPop,
                        ]);
                    }
                } else if let KeyCode::Char(c) = key.code {
                    if is_ascii_digit(c) {
                        if self.line.len() < 6 {
                            self.line.push(c);
                        }
                    }
                    proof {
                        assert(queue@ =~= old(queue)@ + Seq::<InternalEvent<C>>::empty());
                    }
                } else if key.code == KeyCode::Backspace {
                    self.line.pop();
                    proof {
                        assert(queue@ =~= old(queue)@ + Seq::<InternalEvent<C>>::empty());
                    }
                } else if key_match(key, self.key_config.enter) {
                    self.visible = false;
                    if self.line.len() > 0 {
                        proof {
                            lemma_digits_val_max(self.line@);
                        }
                        let n = parse_digits(&self.line);
                        let context = self.context.take();
                        queue.push(InternalEvent::GotoLine(n, context));
                        queue.push(InternalEvent::PopupStackPop);
                        proof {
                            assert(queue@ =~= old(queue)@ + seq![
                                InternalEvent::GotoLine(
                                    digits_val(old(self)@.buffer) as usize,
                                    old(self)@.context,
                                ),
                                InternalEvent::<C>::PopupStackPop,
                            ]);
                        }
                    } else {
                        queue.push(InternalEvent::PopupStackPop);
                        proof {
                            assert(queue@ =~= old(queue)@ + seq![
                                InternalEvent::<C>::PopupStackPop,
                            ]);
                        }
                    }
                    self.line.clear();
                } else {
                    proof {
                        assert(queue@ =~= old(queue)@ + Seq::<InternalEvent<C>>::empty());
                    }
                }
                return EventState::Consumed;
            }
        }
        proof {
            assert(queue@ =~= old(queue)@ + Seq::<InternalEvent<C>>::empty());
        }
        EventState::NotConsumed
    }

    /// Where the popup's box goes when drawn into `area`: a fixed-size
    /// bordered box, centered, returned only while the popup is visible.
    /// A hidden popup draws nothing and returns `None`.
    pub fn draw_area(&self, area: Rect) -> (r: Option<Rect>)
        requires
            area.well_formed(),
        ensures
            self@.visible ==> r == Some(centered_rect_spec(POPUP_WIDTH, POPUP_HEIGHT, area)),
            !self@.visible ==> r is None,
    {
        if self.visible {
            Some(centered_rect_absolute(POPUP_WIDTH, POPUP_HEIGHT, area))
        } else {
            None
        }
    }

    /// The digits typed so far, in order: the text the popup's box shows.
    pub fn line(&self) -> (r: &Vec<char>)
        ensures
            r@ == self@.buffer,
    {
        &self.line
    }
}

} // verus!
