//! A bounded numeric input: a committed value inside an inclusive domain,
//! stepped by keys, wheel and two buttons, and edited as text.

use crate::widget::decimal::{
    decimal_text, lemma_bare_marks_are_no_numbers, lemma_bare_text_is_trimmed,
    lemma_number_text_is_trimmed, parse, parsed, to_text, trim, trimmed,
};
use crate::widget::number::{max_value, min_value, one, zero};
use vstd::prelude::*;
use vstd::string::*;

verus! {

/// One end of the domain that a control is given.
#[derive(Clone, Copy, Debug, PartialEq, Eq)]
pub enum Limit {
    Included(i64),
    Excluded(i64),
    Unbounded,
}

/// What the host does with an event once the control has seen it.
#[derive(Clone, Copy, Debug, PartialEq, Eq)]
pub enum Action {
    /// The event is dropped and reported as ignored.
    Ignored,
    /// The event is used up and reported as captured.
    Captured,
    /// The event goes on to the text field, whose report is the report. The
    /// field makes the edit and announces the value that comes of it.
    Forward,
    /// The event goes on to the text field, whose report is the report, but
    /// nobody hears of it: the field takes the edit into its text, and the
    /// number that the text now writes is announced to nobody.
    Defer,
}

/// The control's answer to an event.
#[derive(Clone, Copy, Debug, PartialEq, Eq)]
pub struct Response {
    pub action: Action,
    /// The committed value that the owner hears of, if any: after every step,
    /// and after an edit that changed it.
    pub notify: Option<i64>,
}

/// What a candidate text means for the committed value.
#[derive(Clone, Copy, Debug, PartialEq, Eq)]
pub enum Verdict {
    /// The text is a number of the domain other than the committed one.
    Commit(i64),
    /// The text is the committed number, written otherwise or the same.
    PassThrough,
    /// The text is a number outside the domain: it may stand in the field
    /// while the user goes on typing, and commits nothing.
    OutOfRange,
    /// The text is no number.
    Rejected,
}

/// The keys that the control tells apart when a key press carries no text.
#[derive(Clone, Copy, Debug, PartialEq, Eq)]
pub enum Key {
    ArrowUp,
    ArrowDown,
    ArrowLeft,
    ArrowRight,
    Home,
    End,
    Other,
}

/// An interaction event, reduced to what the control reads of it.
#[derive(Clone, Debug)]
pub enum Event {
    KeyPressed { key: Key, text: Option<String> },
    KeyReleased,
    ModifiersChanged,
    /// The wheel turned; `positive` is the sign of its vertical delta.
    WheelScrolled { positive: bool },
    LeftButtonPressed,
    LeftButtonReleased,
    Other,
}

/// Where the caret of the text field stands, in characters.
#[derive(Clone, Copy, Debug, PartialEq, Eq)]
pub enum CursorState {
    Index(usize),
    Selection { start: usize, end: usize },
}

/// What the pointer is over.
#[derive(Clone, Copy, Debug, PartialEq, Eq)]
pub struct Pointer {
    pub over_widget: bool,
    pub over_increase: bool,
    pub over_decrease: bool,
}

/// The state of the inner text field.
#[derive(Clone, Debug)]
pub struct Field {
    pub text: String,
    pub focused: bool,
    pub cursor: CursorState,
}

/// The visual state of a step button.
#[derive(Clone, Copy, Debug, PartialEq, Eq)]
pub enum ButtonStatus {
    Active,
    Pressed,
    Disabled,
}

/// How one step button is drawn.
#[derive(Clone, Copy, Debug, PartialEq, Eq)]
pub struct ButtonPaint {
    /// The state that picks the button's colours.
    pub status: ButtonStatus,
    /// Whether the background is filled; the glyph is drawn either way.
    pub background: bool,
}

/// How the two step buttons lie beside the text field.
#[derive(Clone, Copy, Debug, PartialEq, Eq)]
pub enum Arrangement {
    /// Side by side, increase first.
    Row,
    /// Increase above decrease.
    Column,
}

/// The pointer shape over the control.
#[derive(Clone, Copy, Debug, PartialEq, Eq)]
pub enum Interaction {
    Idle,
    Pointer,
    Text,
}

/// Which of the two step buttons is held down.
#[derive(Default, Clone, Debug)]
pub struct ModifierState {
    pub decrease_pressed: bool,
    pub increase_pressed: bool,
}

/// The control: a committed value, its domain and its step.
#[derive(Clone, Copy, Debug, PartialEq, Eq)]
pub struct NumberInput {
    pub value: i64,
    pub step: i64,
    pub min: i64,
    pub max: i64,
    pub ignore_scroll_events: bool,
    pub ignore_buttons: bool,
}

/// The lower bound that a limit stands for.
pub open spec fn lower_bound(limit: Limit) -> int {
    match limit {
        Limit::Included(n) => n as int,
        Limit::Excluded(n) => n as int,
        Limit::Unbounded => i64::MIN as int,
    }
}

/// The upper bound that a limit stands for.
pub open spec fn upper_bound(limit: Limit) -> int {
    match limit {
        Limit::Included(n) => n as int,
        Limit::Excluded(n) => n - 1,
        Limit::Unbounded => i64::MAX as int,
    }
}

/// The smaller of two numbers.
pub open spec fn lesser(a: int, b: int) -> int {
    if a <= b {
        a
    } else {
        b
    }
}

/// The larger of two numbers.
pub open spec fn greater(a: int, b: int) -> int {
    if a >= b {
        a
    } else {
        b
    }
}

/// `text` with the characters from `lo` up to `hi` replaced by `input`.
pub open spec fn spliced(text: Seq<char>, lo: int, hi: int, input: Seq<char>) -> Seq<char> {
    text.subrange(0, lo) + input + text.subrange(hi, text.len() as int)
}

/// The text that an insertion of `input` at the caret would give, where the
/// caret lies inside the text.
pub open spec fn inserted(text: Seq<char>, cursor: CursorState, input: Seq<char>) -> Option<
    Seq<char>,
> {
    match cursor {
        CursorState::Index(idx) => if idx <= text.len() {
            Some(spliced(text, idx as int, idx as int, input))
        } else {
            None
        },
        CursorState::Selection { start, end } => if start <= text.len() && end <= text.len() {
            Some(spliced(text, lesser(start as int, end as int), greater(start as int, end as int), input))
        } else {
            None
        },
    }
}

/// `text`, or the text of zero where `text` is empty.
pub open spec fn or_zero(text: Seq<char>) -> Seq<char> {
    if text.len() == 0 {
        decimal_text(0)
    } else {
        text
    }
}

/// The text that a backspace at the caret would give: the character before a
/// caret, or the selection, removed, and zero written where nothing is left.
pub open spec fn erased(text: Seq<char>, cursor: CursorState) -> Option<Seq<char>> {
    match cursor {
        CursorState::Index(idx) => if 1 <= idx && idx <= text.len() {
            Some(or_zero(spliced(text, idx - 1, idx as int, Seq::empty())))
        } else {
            None
        },
        CursorState::Selection { start, end } => if start <= text.len() && end <= text.len() {
            Some(
                or_zero(
                    spliced(
                        text,
                        lesser(start as int, end as int),
                        greater(start as int, end as int),
                        Seq::empty(),
                    ),
                ),
            )
        } else {
            None
        },
    }
}

/// What a parsed candidate means to a control with the given domain and
/// committed value.
pub open spec fn verdict(candidate: Option<i64>, min: i64, max: i64, value: i64) -> Verdict {
    match candidate {
        Some(v) => if min <= v && v <= max {
            if v != value {
                Verdict::Commit(v)
            } else {
                Verdict::PassThrough
            }
        } else {
            Verdict::OutOfRange
        },
        None => Verdict::Rejected,
    }
}

/// Whether `s` is the one character `c`.
fn is_char(s: &str, c: char) -> (r: bool)
    ensures
        r == (s@ == seq![c]),
{
    let n: usize = s.unicode_len();
    if n == 1 {
        let first: char = s.get_char(0);
        assert(first == c ==> s@ =~= seq![c]);
        first == c
    } else {
        false
    }
}

/// `text` with the characters from `lo` up to `hi` replaced by `input`.
fn splice(text: &str, lo: usize, hi: usize, input: &str) -> (r: String)
    requires
        lo <= hi <= text@.len(),
    ensures
        r@ == spliced(text@, lo as int, hi as int, input@),
{
    let n: usize = text.unicode_len();
    let head: &str = text.substring_char(0, lo);
    let tail: &str = text.substring_char(hi, n);
    String::from_str(head).concat(input).concat(tail)
}

impl NumberInput {
    /// The committed value lies in the domain.
    pub open spec fn wf(&self) -> bool {
        self.min <= self.value <= self.max
    }

    /// The domain is a single number, and the control does nothing.
    pub open spec fn inert(&self) -> bool {
        self.min == self.max
    }

    /// This control with another committed value.
    pub open spec fn with_value(self, value: i64) -> NumberInput {
        NumberInput { value, ..self }
    }

    /// The value that an increase commits.
    pub open spec fn increased(&self) -> int {
        lesser(self.value + self.step, self.max as int)
    }

    /// The value that a decrease commits.
    pub open spec fn decreased(&self) -> int {
        greater(self.value - self.step, self.min as int)
    }

    /// The control and its answer after an increase.
    pub open spec fn after_increase(self) -> (NumberInput, Response) {
        if self.inert() {
            (self, Response { action: Action::Ignored, notify: None })
        } else {
            (
                self.with_value(self.increased() as i64),
                Response { action: Action::Captured, notify: Some(self.increased() as i64) },
            )
        }
    }

    /// The control and its answer after a decrease.
    pub open spec fn after_decrease(self) -> (NumberInput, Response) {
        if self.inert() {
            (self, Response { action: Action::Ignored, notify: None })
        } else {
            (
                self.with_value(self.decreased() as i64),
                Response { action: Action::Captured, notify: Some(self.decreased() as i64) },
            )
        }
    }

    /// The control and its answer once a candidate text has been judged.
    pub open spec fn after_verdict(self, verdict: Verdict) -> (NumberInput, Response) {
        match verdict {
            Verdict::Commit(v) => (
                self.with_value(v),
                Response { action: Action::Forward, notify: Some(v) },
            ),
            Verdict::PassThrough => (self, Response { action: Action::Forward, notify: None }),
            Verdict::OutOfRange => (self, Response { action: Action::Defer, notify: None }),
            Verdict::Rejected => (self, Response { action: Action::Ignored, notify: None }),
        }
    }

    /// The control and its answer once an edit has proposed a text, or none.
    pub open spec fn after_candidate(self, candidate: Option<Seq<char>>) -> (
        NumberInput,
        Response,
    ) {
        match candidate {
            Some(text) => self.after_verdict(verdict(parsed(text), self.min, self.max, self.value)),
            None => (self, Response { action: Action::Ignored, notify: None }),
        }
    }

    /// The control and its answer after `input` is inserted at the caret.
    pub open spec fn after_insert(self, text: Seq<char>, cursor: CursorState, input: Seq<char>) -> (
        NumberInput,
        Response,
    ) {
        self.after_candidate(inserted(text, cursor, input))
    }

    /// The control and its answer after a backspace.
    pub open spec fn after_backspace(self, text: Seq<char>, cursor: CursorState) -> (
        NumberInput,
        Response,
    ) {
        if text == decimal_text(0) {
            (self, Response { action: Action::Ignored, notify: None })
        } else {
            self.after_candidate(erased(text, cursor))
        }
    }

    /// A control on `value` with step one and the domain between the two
    /// limits. An excluded upper limit stands for the number below it.
    pub fn new(value: i64, start: Limit, end: Limit) -> (r: Self)
        requires
            end matches Limit::Excluded(n) ==> n > i64::MIN,
        ensures
            r.value == value,
            r.step == 1,
            r.min == lower_bound(start),
            r.max == upper_bound(end),
            !r.ignore_scroll_events,
            !r.ignore_buttons,
            lower_bound(start) <= value <= upper_bound(end) ==> r.wf(),
    {
        NumberInput {
            value,
            step: one(),
            min: Self::set_min(start),
            max: Self::set_max(end),
            ignore_scroll_events: false,
            ignore_buttons: false,
        }
    }

    /// The same control on another domain.
    #[must_use]
    pub fn bounds(self, start: Limit, end: Limit) -> (r: Self)
        requires
            end matches Limit::Excluded(n) ==> n > i64::MIN,
        ensures
            r == (NumberInput { min: lower_bound(start) as i64, max: upper_bound(end) as i64, ..self }),
    {
        let mut next = self;
        next.min = Self::set_min(start);
        next.max = Self::set_max(end);
        next
    }

    /// The same control, with its two buttons switched off or on.
    #[must_use]
    pub fn ignore_buttons(self, ignore: bool) -> (r: Self)
        ensures
            r == (NumberInput { ignore_buttons: ignore, ..self }),
    {
        let mut next = self;
        next.ignore_buttons = ignore;
        next
    }

    /// The same control, deaf to the wheel or not.
    #[must_use]
    pub fn ignore_scroll(self, ignore: bool) -> (r: Self)
        ensures
            r == (NumberInput { ignore_scroll_events: ignore, ..self }),
    {
        let mut next = self;
        next.ignore_scroll_events = ignore;
        next
    }

    /// The same control with another step.
    #[must_use]
    pub fn step(self, step: i64) -> (r: Self)
        ensures
            r == (NumberInput { step, ..self }),
    {
        let mut next = self;
        next.step = step;
        next
    }

    /// The lower bound of a domain that starts at `min`.
    pub fn set_min(min: Limit) -> (r: i64)
        ensures
            r == lower_bound(min),
    {
        match min {
            Limit::Included(n) => n,
            Limit::Excluded(n) => n,
            Limit::Unbounded => min_value(),
        }
    }

    /// The upper bound of a domain that ends at `max`.
    pub fn set_max(max: Limit) -> (r: i64)
        requires
            max matches Limit::Excluded(n) ==> n > i64::MIN,
        ensures
            r == upper_bound(max),
    {
        match max {
            Limit::Included(n) => n,
            Limit::Excluded(n) => n - one(),
            Limit::Unbounded => max_value(),
        }
    }

    /// Steps the value up, no further than the upper bound, and announces it.
    /// A control whose domain is a single number ignores the step.
    pub fn increase_value(&mut self) -> (r: Response)
        requires
            !old(self).inert() ==> old(self).value + old(self).step >= i64::MIN,
        ensures
            (*final(self), r) == old(self).after_increase(),
    {
        if self.min == self.max {
            return Response { action: Action::Ignored, notify: None };
        }
        let sum: i128 = self.value as i128 + self.step as i128;
        if sum > self.max as i128 {
            self.value = self.max;
        } else {
            self.value = sum as i64;
        }
        Response { action: Action::Captured, notify: Some(self.value) }
    }

    /// Steps the value down, no further than the lower bound, and announces
    /// it. A control whose domain is a single number ignores the step.
    pub fn decrease_value(&mut self) -> (r: Response)
        requires
            !old(self).inert() ==> old(self).value - old(self).step <= i64::MAX,
        ensures
            (*final(self), r) == old(self).after_decrease(),
    {
        if self.min == self.max {
            return Response { action: Action::Ignored, notify: None };
        }
        let difference: i128 = self.value as i128 - self.step as i128;
        if difference < self.min as i128 {
            self.value = self.min;
        } else {
            self.value = difference as i64;
        }
        Response { action: Action::Captured, notify: Some(self.value) }
    }

    /// Judges a parsed candidate against the domain and the committed value.
    pub fn judge(&self, candidate: Option<i64>) -> (r: Verdict)
        ensures
            r == verdict(candidate, self.min, self.max, self.value),
    {
        match candidate {
            Some(v) => {
                if v >= self.min && v <= self.max {
                    if v != self.value {
                        Verdict::Commit(v)
                    } else {
                        Verdict::PassThrough
                    }
                } else {
                    Verdict::OutOfRange
                }
            },
            None => Verdict::Rejected,
        }
    }

    /// Carries out a judgement: takes a new value of the domain and lets the edit
    /// through, lets an unchanged value's edit through, lets the edit to a
    /// number outside the domain through unannounced and without taking the
    /// number, and ignores what is no number.
    pub fn settle(&mut self, verdict: Verdict) -> (r: Response)
        ensures
            (*final(self), r) == old(self).after_verdict(verdict),
    {
        match verdict {
            Verdict::Commit(v) => {
                self.value = v;
                Response { action: Action::Forward, notify: Some(v) }
            },
            Verdict::PassThrough => Response { action: Action::Forward, notify: None },
            Verdict::OutOfRange => Response { action: Action::Defer, notify: None },
            Verdict::Rejected => Response { action: Action::Ignored, notify: None },
        }
    }

    /// Inserts `input` at the caret of `text`, or in place of the selection,
    /// and settles the text that results.
    pub fn insert_text(&mut self, text: &str, cursor: CursorState, input: &str) -> (r: Response)
        ensures
            (*final(self), r) == old(self).after_insert(text@, cursor, input@),
    {
        let n: usize = text.unicode_len();
        let candidate: String = match cursor {
            CursorState::Index(idx) => {
                if idx <= n {
                    splice(text, idx, idx, input)
                } else {
                    return Response { action: Action::Ignored, notify: None };
                }
            },
            CursorState::Selection { start, end } => {
                if start <= n && end <= n {
                    let lo: usize = if start <= end { start } else { end };
                    let hi: usize = if start >= end { start } else { end };
                    splice(text, lo, hi, input)
                } else {
                    return Response { action: Action::Ignored, notify: None };
                }
            },
        };
        let verdict = self.judge(parse(candidate.as_str()));
        self.settle(verdict)
    }

    /// Removes the character before the caret of `text`, or the selection,
    /// and settles the text that results, which is zero where nothing is
    /// left. There is nothing to remove from the text of zero.
    pub fn backspace(&mut self, text: &str, cursor: CursorState) -> (r: Response)
        ensures
            (*final(self), r) == old(self).after_backspace(text@, cursor),
    {
        let nothing: String = to_text(zero());
        if is_same(text, nothing.as_str()) {
            return Response { action: Action::Ignored, notify: None };
        }
        let n: usize = text.unicode_len();
        let remaining: String = match cursor {
            CursorState::Index(idx) => {
                if idx >= 1 && idx <= n {
                    splice(text, idx - 1, idx, "")
                } else {
                    return Response { action: Action::Ignored, notify: None };
                }
            },
            CursorState::Selection { start, end } => {
                if start <= n && end <= n {
                    let lo: usize = if start <= end { start } else { end };
                    let hi: usize = if start >= end { start } else { end };
                    splice(text, lo, hi, "")
                } else {
                    return Response { action: Action::Ignored, notify: None };
                }
            },
        };
        proof {
            reveal_strlit("");
            assert(""@ =~= Seq::<char>::empty());
        }
        let candidate: String = if remaining.as_str().unicode_len() == 0 {
            nothing
        } else {
            remaining
        };
        let verdict = self.judge(parse(candidate.as_str()));
        self.settle(verdict)
    }
}

/// Whether two strings hold the same text.
fn is_same(a: &str, b: &str) -> (r: bool)
    ensures
        r == (a@ == b@),
{
    let left: String = String::from_str(a);
    let right: String = String::from_str(b);
    left == right
}


/// Where the control sends an event.
#[derive(Clone, Copy, Debug, PartialEq, Eq)]
pub enum Route {
    /// Dropped.
    Ignore,
    /// Handed to the text field untouched.
    Forward,
    /// A step up by key or wheel.
    StepUp,
    /// A step down by key or wheel.
    StepDown,
    /// A press on the increase button.
    PressUp,
    /// A press on the decrease button.
    PressDown,
    /// A release over the increase button.
    ReleaseUp,
    /// A release over the decrease button.
    ReleaseDown,
    /// A backspace in the text.
    Backspace,
    /// Text typed or pasted into the text.
    Type,
}

/// The text of a key press that selects the whole text.
pub open spec fn select_all_text() -> Seq<char> {
    seq!['\u{1}']
}

/// The text of a key press that copies the selection.
pub open spec fn copy_text() -> Seq<char> {
    seq!['\u{3}']
}

/// The text of a backspace.
pub open spec fn backspace_text() -> Seq<char> {
    seq!['\u{8}']
}

/// The text of a key press that pastes the clipboard.
pub open spec fn paste_text() -> Seq<char> {
    seq!['\u{16}']
}

/// Whether `event` is the key press that pastes the clipboard.
pub open spec fn is_paste(event: Event) -> bool {
    event matches Event::KeyPressed { text: Some(t), .. } && t@ == paste_text()
}

/// Whether typed text may go into the field: a whole number, a lone minus
/// sign or a lone decimal point.
pub open spec fn is_numeric_input(text: Seq<char>) -> bool {
    parsed(text) is Some || text == seq!['-'] || text == seq!['.']
}

/// Where a key press goes in a control that has the focus.
pub open spec fn key_route(key: Key, text: Option<String>) -> Route {
    match text {
        Some(t) => if t@ == select_all_text() || t@ == copy_text() {
            Route::Forward
        } else if t@ == backspace_text() {
            Route::Backspace
        } else {
            Route::Type
        },
        None => match key {
            Key::ArrowDown => Route::StepDown,
            Key::ArrowUp => Route::StepUp,
            Key::ArrowLeft | Key::ArrowRight | Key::Home | Key::End => Route::Forward,
            Key::Other => Route::Ignore,
        },
    }
}

/// How the buttons lie for a padding that is tighter than the default on the
/// given edges: side by side where any of the three is, else stacked.
pub fn layout(tight_top: bool, tight_bottom: bool, tight_right: bool) -> (r: Arrangement)
    ensures
        r == if tight_top || tight_bottom || tight_right {
            Arrangement::Row
        } else {
            Arrangement::Column
        },
{
    if tight_top || tight_bottom || tight_right {
        Arrangement::Row
    } else {
        Arrangement::Column
    }
}

impl Arrangement {
    /// The characters that stand for the two buttons when they are measured,
    /// increase first: plus and minus in a row, two triangles in a column.
    pub fn labels(self) -> (r: (char, char))
        ensures
            r == match self {
                Arrangement::Row => ('+', '-'),
                Arrangement::Column => ('\u{25b2}', '\u{25bc}'),
            },
    {
        match self {
            Arrangement::Row => ('+', '-'),
            Arrangement::Column => ('\u{25b2}', '\u{25bc}'),
        }
    }
}

impl NumberInput {
    /// The decrease button cannot be used.
    pub open spec fn decrease_disabled(&self) -> bool {
        self.value <= self.min || self.min == self.max
    }

    /// The increase button cannot be used.
    pub open spec fn increase_disabled(&self) -> bool {
        self.value >= self.max || self.min == self.max
    }

    /// Where the control sends `event`: nowhere while its domain is a single
    /// number; a key to the engine only under focus; the wheel only over the
    /// control; a button only over one of the two.
    pub open spec fn routed(&self, event: Event, pointer: Pointer, focused: bool) -> Route {
        if self.inert() {
            Route::Ignore
        } else {
            match event {
                Event::KeyPressed { key, text } => if focused {
                    key_route(key, text)
                } else {
                    Route::Ignore
                },
                Event::KeyReleased => Route::Ignore,
                Event::ModifiersChanged => if focused {
                    Route::Forward
                } else {
                    Route::Ignore
                },
                Event::WheelScrolled { positive } => if pointer.over_widget
                    && !self.ignore_scroll_events {
                    if positive {
                        Route::StepUp
                    } else {
                        Route::StepDown
                    }
                } else {
                    Route::Forward
                },
                Event::LeftButtonPressed => if (pointer.over_increase || pointer.over_decrease)
                    && !self.ignore_buttons {
                    if pointer.over_decrease {
                        Route::PressDown
                    } else {
                        Route::PressUp
                    }
                } else {
                    Route::Forward
                },
                Event::LeftButtonReleased => if pointer.over_increase || pointer.over_decrease {
                    if pointer.over_decrease {
                        Route::ReleaseDown
                    } else {
                        Route::ReleaseUp
                    }
                } else {
                    Route::Forward
                },
                Event::Other => Route::Forward,
            }
        }
    }

    /// The control and its answer after text is typed or pasted: the
    /// clipboard's text for a paste, nothing where there is none; else the
    /// typed text, where it is numeric input. What goes in is trimmed.
    pub open spec fn after_typing(
        self,
        text: Seq<char>,
        cursor: CursorState,
        typed: Seq<char>,
        clipboard: Option<String>,
    ) -> (NumberInput, Response) {
        if typed == paste_text() {
            match clipboard {
                Some(pasted) => self.after_insert(text, cursor, trimmed(pasted@)),
                None => (self, Response { action: Action::Ignored, notify: None }),
            }
        } else if is_numeric_input(typed) {
            self.after_insert(text, cursor, trimmed(typed))
        } else {
            (self, Response { action: Action::Ignored, notify: None })
        }
    }

    /// The control, the press flags and the answer after an event.
    pub open spec fn after_event(
        self,
        modifiers: ModifierState,
        event: Event,
        pointer: Pointer,
        field: Field,
        clipboard: Option<String>,
    ) -> (NumberInput, ModifierState, Response) {
        match self.routed(event, pointer, field.focused) {
            Route::Ignore => (self, modifiers, Response { action: Action::Ignored, notify: None }),
            Route::Forward => (self, modifiers, Response { action: Action::Forward, notify: None }),
            Route::StepUp => (self.after_increase().0, modifiers, self.after_increase().1),
            Route::StepDown => (self.after_decrease().0, modifiers, self.after_decrease().1),
            Route::PressUp => (
                self.after_increase().0,
                ModifierState { increase_pressed: true, ..modifiers },
                self.after_increase().1,
            ),
            Route::PressDown => (
                self.after_decrease().0,
                ModifierState { decrease_pressed: true, ..modifiers },
                self.after_decrease().1,
            ),
            Route::ReleaseUp => (
                self,
                ModifierState { increase_pressed: false, ..modifiers },
                Response { action: Action::Captured, notify: None },
            ),
            Route::ReleaseDown => (
                self,
                ModifierState { decrease_pressed: false, ..modifiers },
                Response { action: Action::Captured, notify: None },
            ),
            Route::Backspace => (
                self.after_backspace(field.text@, field.cursor).0,
                modifiers,
                self.after_backspace(field.text@, field.cursor).1,
            ),
            Route::Type => match event {
                Event::KeyPressed { text: Some(typed), .. } => (
                    self.after_typing(field.text@, field.cursor, typed@, clipboard).0,
                    modifiers,
                    self.after_typing(field.text@, field.cursor, typed@, clipboard).1,
                ),
                _ => (self, modifiers, Response { action: Action::Ignored, notify: None }),
            },
        }
    }

    /// Whether the step that `route` asks for, if it asks for one, gives a
    /// number that an `i64` holds.
    pub open spec fn step_fits(&self, route: Route) -> bool {
        &&& route == Route::StepUp || route == Route::PressUp ==> self.value + self.step
            >= i64::MIN
        &&& route == Route::StepDown || route == Route::PressDown ==> self.value - self.step
            <= i64::MAX
    }

    /// Whether the clipboard's text is needed to handle `event`: only for a
    /// paste that the control takes as typed text.
    pub fn needs_clipboard(&self, event: &Event, pointer: Pointer, focused: bool) -> (r: bool)
        ensures
            r == (self.routed(*event, pointer, focused) == Route::Type && is_paste(*event)),
    {
        match self.route(event, pointer, focused) {
            Route::Type => match event {
                Event::KeyPressed { text: Some(t), .. } => is_char(t.as_str(), '\u{16}'),
                _ => false,
            },
            _ => false,
        }
    }

    /// Whether the decrease button is disabled: the value is at the lower
    /// bound or below it, or the domain is a single number.
    pub fn is_decrease_disabled(&self) -> (r: bool)
        ensures
            r == self.decrease_disabled(),
    {
        self.value <= self.min || self.min == self.max
    }

    /// Whether the increase button is disabled: the value is at the upper
    /// bound or above it, or the domain is a single number.
    pub fn is_increase_disabled(&self) -> (r: bool)
        ensures
            r == self.increase_disabled(),
    {
        self.value >= self.max || self.min == self.max
    }

    /// The state in which the decrease button is drawn.
    pub fn decrease_status(&self, modifiers: &ModifierState) -> (r: ButtonStatus)
        ensures
            r == if self.decrease_disabled() {
                ButtonStatus::Disabled
            } else if modifiers.decrease_pressed {
                ButtonStatus::Pressed
            } else {
                ButtonStatus::Active
            },
    {
        if self.is_decrease_disabled() {
            ButtonStatus::Disabled
        } else if modifiers.decrease_pressed {
            ButtonStatus::Pressed
        } else {
            ButtonStatus::Active
        }
    }

    /// The state in which the increase button is drawn.
    pub fn increase_status(&self, modifiers: &ModifierState) -> (r: ButtonStatus)
        ensures
            r == if self.increase_disabled() {
                ButtonStatus::Disabled
            } else if modifiers.increase_pressed {
                ButtonStatus::Pressed
            } else {
                ButtonStatus::Active
            },
    {
        if self.is_increase_disabled() {
            ButtonStatus::Disabled
        } else if modifiers.increase_pressed {
            ButtonStatus::Pressed
        } else {
            ButtonStatus::Active
        }
    }

    /// How the two buttons are drawn, decrease first: nothing where the
    /// buttons are switched off; else each in its state, its background
    /// filled only where the button is in view.
    pub fn draw(&self, modifiers: &ModifierState, decrease_visible: bool, increase_visible: bool) -> (r:
        Option<(ButtonPaint, ButtonPaint)>)
        ensures
            self.ignore_buttons ==> r is None,
            !self.ignore_buttons ==> r == Some(
                (
                    ButtonPaint {
                        status: if self.decrease_disabled() {
                            ButtonStatus::Disabled
                        } else if modifiers.decrease_pressed {
                            ButtonStatus::Pressed
                        } else {
                            ButtonStatus::Active
                        },
                        background: decrease_visible,
                    },
                    ButtonPaint {
                        status: if self.increase_disabled() {
                            ButtonStatus::Disabled
                        } else if modifiers.increase_pressed {
                            ButtonStatus::Pressed
                        } else {
                            ButtonStatus::Active
                        },
                        background: increase_visible,
                    },
                ),
            ),
    {
        if self.ignore_buttons {
            return None;
        }
        Some(
            (
                ButtonPaint { status: self.decrease_status(modifiers), background: decrease_visible },
                ButtonPaint { status: self.increase_status(modifiers), background: increase_visible },
            ),
        )
    }

    /// The pointer shape: a hand over a button that can be used, a text
    /// caret elsewhere over the control, the default outside it.
    pub fn mouse_interaction(&self, pointer: Pointer) -> (r: Interaction)
        ensures
            r == if ((pointer.over_decrease && !self.decrease_disabled()) || (pointer.over_increase
                && !self.increase_disabled())) && !self.ignore_buttons {
                Interaction::Pointer
            } else if pointer.over_widget {
                Interaction::Text
            } else {
                Interaction::Idle
            },
    {
        if ((pointer.over_decrease && !self.is_decrease_disabled()) || (pointer.over_increase
            && !self.is_increase_disabled())) && !self.ignore_buttons {
            Interaction::Pointer
        } else if pointer.over_widget {
            Interaction::Text
        } else {
            Interaction::Idle
        }
    }

    /// Where the control sends `event`.
    pub fn route(&self, event: &Event, pointer: Pointer, focused: bool) -> (r: Route)
        ensures
            r == self.routed(*event, pointer, focused),
    {
        if self.min == self.max {
            return Route::Ignore;
        }
        match event {
            Event::KeyPressed { key, text } => {
                if !focused {
                    return Route::Ignore;
                }
                match text {
                    Some(t) => {
                        if is_char(t.as_str(), '\u{1}') || is_char(t.as_str(), '\u{3}') {
                            Route::Forward
                        } else if is_char(t.as_str(), '\u{8}') {
                            Route::Backspace
                        } else {
                            Route::Type
                        }
                    },
                    None => match key {
                        Key::ArrowDown => Route::StepDown,
                        Key::ArrowUp => Route::StepUp,
                        Key::ArrowLeft | Key::ArrowRight | Key::Home | Key::End => Route::Forward,
                        Key::Other => Route::Ignore,
                    },
                }
            },
            Event::KeyReleased => Route::Ignore,
            Event::ModifiersChanged => {
                if focused {
                    Route::Forward
                } else {
                    Route::Ignore
                }
            },
            Event::WheelScrolled { positive } => {
                if pointer.over_widget && !self.ignore_scroll_events {
                    if *positive {
                        Route::StepUp
                    } else {
                        Route::StepDown
                    }
                } else {
                    Route::Forward
                }
            },
            Event::LeftButtonPressed => {
                if (pointer.over_increase || pointer.over_decrease) && !self.ignore_buttons {
                    if pointer.over_decrease {
                        Route::PressDown
                    } else {
                        Route::PressUp
                    }
                } else {
                    Route::Forward
                }
            },
            Event::LeftButtonReleased => {
                if pointer.over_increase || pointer.over_decrease {
                    if pointer.over_decrease {
                        Route::ReleaseDown
                    } else {
                        Route::ReleaseUp
                    }
                } else {
                    Route::Forward
                }
            },
            Event::Other => Route::Forward,
        }
    }

    /// Takes text that was typed or pasted: for a paste the clipboard's text,
    /// else the typed text where it is numeric input. The text is trimmed,
    /// inserted at the caret and settled.
    pub fn type_text(
        &mut self,
        text: &str,
        cursor: CursorState,
        typed: &str,
        clipboard: &Option<String>,
    ) -> (r: Response)
        ensures
            (*final(self), r) == old(self).after_typing(text@, cursor, typed@, *clipboard),
    {
        if is_char(typed, '\u{16}') {
            match clipboard {
                Some(pasted) => {
                    let input: String = trim(pasted.as_str());
                    self.insert_text(text, cursor, input.as_str())
                },
                None => Response { action: Action::Ignored, notify: None },
            }
        } else if parse(typed).is_some() || is_char(typed, '-') || is_char(typed, '.') {
            let input: String = trim(typed);
            self.insert_text(text, cursor, input.as_str())
        } else {
            Response { action: Action::Ignored, notify: None }
        }
    }

    /// Handles one event: routes it, steps or edits the committed value, sets
    /// or clears a press flag, and says what the host does next.
    pub fn on_event(
        &mut self,
        modifiers: &mut ModifierState,
        event: &Event,
        pointer: Pointer,
        field: &Field,
        clipboard: &Option<String>,
    ) -> (r: Response)
        requires
            old(self).step_fits(old(self).routed(*event, pointer, field.focused)),
        ensures
            (*final(self), *final(modifiers), r) == old(self).after_event(
                *old(modifiers),
                *event,
                pointer,
                *field,
                *clipboard,
            ),
            *final(self) == old(self).with_value(final(self).value),
            old(self).wf() && old(self).step >= 0 ==> final(self).wf(),
    {
        match self.route(event, pointer, field.focused) {
            Route::Ignore => Response { action: Action::Ignored, notify: None },
            Route::Forward => Response { action: Action::Forward, notify: None },
            Route::StepUp => self.increase_value(),
            Route::StepDown => self.decrease_value(),
            Route::PressUp => {
                modifiers.increase_pressed = true;
                self.increase_value()
            },
            Route::PressDown => {
                modifiers.decrease_pressed = true;
                self.decrease_value()
            },
            Route::ReleaseUp => {
                modifiers.increase_pressed = false;
                Response { action: Action::Captured, notify: None }
            },
            Route::ReleaseDown => {
                modifiers.decrease_pressed = false;
                Response { action: Action::Captured, notify: None }
            },
            Route::Backspace => self.backspace(field.text.as_str(), field.cursor),
            Route::Type => match event {
                Event::KeyPressed { text: Some(typed), .. } => self.type_text(
                    field.text.as_str(),
                    field.cursor,
                    typed.as_str(),
                    clipboard,
                ),
                _ => Response { action: Action::Ignored, notify: None },
            },
        }
    }
}


/// A step from inside the domain stays inside it, for a step that is not
/// negative: an increase commits the smaller of the value plus the step and
/// the upper bound, a decrease the larger of the value minus the step and
/// the lower bound.
pub proof fn lemma_step_stays_in_domain(c: NumberInput)
    requires
        c.wf(),
        c.step >= 0,
    ensures
        c.min <= c.increased() <= c.max,
        c.min <= c.decreased() <= c.max,
        c.after_increase().0.wf(),
        c.after_decrease().0.wf(),
        c.after_increase().0.value == lesser(c.value + c.step, c.max as int),
        c.after_decrease().0.value == greater(c.value - c.step, c.min as int),
{
}

/// A control whose domain is a single number ignores every event and every
/// step, and changes neither its value nor a press flag.
pub proof fn lemma_inert_ignores_everything(
    c: NumberInput,
    modifiers: ModifierState,
    event: Event,
    pointer: Pointer,
    field: Field,
    clipboard: Option<String>,
)
    requires
        c.inert(),
    ensures
        c.after_event(modifiers, event, pointer, field, clipboard) == (
            c,
            modifiers,
            Response { action: Action::Ignored, notify: None },
        ),
        c.after_increase() == (c, Response { action: Action::Ignored, notify: None }),
        c.after_decrease() == (c, Response { action: Action::Ignored, notify: None }),
{
}

/// No text settles on a value outside the domain: whatever an edit proposes,
/// the committed value stays as it is or becomes a number of the domain, and
/// the domain and the step stay as they are. A text that writes a number
/// outside the domain goes into the field, changes nothing in the control
/// and is announced to nobody.
pub proof fn lemma_candidate_commits_inside(c: NumberInput, candidate: Option<Seq<char>>)
    ensures
        ({
            let next = c.after_candidate(candidate).0;
            &&& next.value == c.value || c.min <= next.value <= c.max
            &&& next == c.with_value(next.value)
            &&& c.wf() ==> next.wf()
        }),
        candidate matches Some(t) && parsed(t) matches Some(v) && !(c.min <= v <= c.max)
            ==> c.after_candidate(candidate) == (
            c,
            Response { action: Action::Defer, notify: None },
        ),
{
}

/// An insertion, a backspace, and typed or pasted text keep the committed
/// value in the domain, also where the text that results is a number outside
/// it: that text goes into the field, changes no value and is announced to
/// nobody.
pub proof fn lemma_edit_keeps_domain(
    c: NumberInput,
    text: Seq<char>,
    cursor: CursorState,
    input: Seq<char>,
    clipboard: Option<String>,
)
    requires
        c.wf(),
    ensures
        c.after_insert(text, cursor, input).0.wf(),
        c.after_backspace(text, cursor).0.wf(),
        c.after_typing(text, cursor, input, clipboard).0.wf(),
        inserted(text, cursor, input) matches Some(t) && parsed(t) matches Some(v) && !(c.min <= v
            <= c.max) ==> c.after_insert(text, cursor, input) == (
            c,
            Response { action: Action::Defer, notify: None },
        ),
{
}

/// Every event leaves the committed value in the domain, for a step that is
/// not negative.
pub proof fn lemma_event_keeps_domain(
    c: NumberInput,
    modifiers: ModifierState,
    event: Event,
    pointer: Pointer,
    field: Field,
    clipboard: Option<String>,
)
    requires
        c.wf(),
        c.step >= 0,
    ensures
        c.after_event(modifiers, event, pointer, field, clipboard).0.wf(),
{
}

/// An edit that leaves a lone minus sign, a lone plus sign, a lone decimal
/// point or nothing at all is ignored: none of them is a number, so the text
/// field does not get the edit and the committed value stays.
pub proof fn lemma_bare_marks_are_ignored(
    c: NumberInput,
    text: Seq<char>,
    cursor: CursorState,
    input: Seq<char>,
)
    requires
        inserted(text, cursor, input) matches Some(t) && (t == seq!['-'] || t == seq!['+'] || t
            == seq!['.'] || t == Seq::<char>::empty()),
    ensures
        c.after_insert(text, cursor, input) == (
            c,
            Response { action: Action::Ignored, notify: None },
        ),
{
    lemma_bare_marks_are_no_numbers();
}

/// Typed text that the control takes is inserted as it stands: trimming
/// changes no whole number, no lone minus sign and no lone decimal point.
pub proof fn lemma_typed_text_goes_in_whole(
    c: NumberInput,
    text: Seq<char>,
    cursor: CursorState,
    typed: Seq<char>,
    clipboard: Option<String>,
)
    requires
        typed != paste_text(),
        is_numeric_input(typed),
    ensures
        c.after_typing(text, cursor, typed, clipboard) == c.after_insert(text, cursor, typed),
{
    if parsed(typed) is Some {
        lemma_number_text_is_trimmed(typed);
    } else {
        lemma_bare_text_is_trimmed(typed);
    }
}

/// A backspace on the text `0` is ignored, wherever the caret stands.
pub proof fn lemma_backspace_on_zero(c: NumberInput, cursor: CursorState)
    ensures
        c.after_backspace(seq!['0'], cursor) == (
            c,
            Response { action: Action::Ignored, notify: None },
        ),
{
    assert(decimal_text(0) =~= seq!['0']);
}

/// The decrease button is disabled exactly at the lower bound and below, the
/// increase button exactly at the upper bound and above, and both where the
/// domain is a single number.
pub proof fn lemma_disabled_buttons(c: NumberInput)
    ensures
        c.decrease_disabled() <==> c.value <= c.min || c.min == c.max,
        c.increase_disabled() <==> c.value >= c.max || c.min == c.max,
        c.wf() && c.inert() ==> c.decrease_disabled() && c.increase_disabled(),
        c.wf() && !c.inert() ==> !(c.decrease_disabled() && c.increase_disabled()),
{
}

} // verus!
