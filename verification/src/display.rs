//! The display controller: UI states, the drawing capability it needs, and
//! the exact frame it renders for each state.

use vstd::prelude::*;

use crate::frame::{Align, Color, Point, TextSpec, TextStyle};

verus! {

/// Maximum number of PIN digits the entry screen shows slots for.
pub const MAX_PIN_DIGITS: u32 = 4;

/// Display state as requested by higher-level logic.
#[derive(Clone, Copy, PartialEq, Eq, Structural, Debug)]
pub enum State {
    /// Nothing is happening; show the idle prompt.
    Idle,
    /// A PIN is being entered; `digits` of its slots are filled so far.
    PIN { digits: u32 },
    /// The last PIN attempt failed.
    Wrong,
    /// The last PIN attempt succeeded.
    Correct,
}

impl State {
    /// A state is well formed when a PIN entry never claims more filled
    /// slots than the entry screen has.
    pub open spec fn wf(self) -> bool {
        match self {
            State::PIN { digits } => digits <= MAX_PIN_DIGITS,
            _ => true,
        }
    }
}

/// The geometric center of the 128x64 display, where all text is anchored.
pub open spec fn center() -> Point {
    Point { x: 64, y: 32 }
}

/// The small style (6x10 glyphs), sized for full sentences.
pub open spec fn small_style() -> TextStyle {
    TextStyle { glyph_width: 6, glyph_height: 10 }
}

/// The large style (10x20 glyphs), sized for the digit-entry prompt.
pub open spec fn large_style() -> TextStyle {
    TextStyle { glyph_width: 10, glyph_height: 20 }
}

/// One two-character slot of the PIN marker string: a starred slot for an
/// already-entered digit, a blank slot otherwise.
pub open spec fn slot_chars(digits: u32, i: int) -> Seq<char> {
    if digits > i {
        "* "@
    } else {
        "  "@
    }
}

/// The first `n` slots of the PIN marker string, concatenated.
pub open spec fn marker_prefix(digits: u32, n: int) -> Seq<char>
    decreases n,
{
    if n <= 0 {
        Seq::empty()
    } else {
        marker_prefix(digits, n - 1) + slot_chars(digits, n - 1)
    }
}

/// The PIN marker string for `digits` entered digits: four two-character
/// slots with the single trailing character trimmed.
pub open spec fn marker_chars(digits: u32) -> Seq<char> {
    marker_prefix(digits, 4).drop_last()
}

/// A text draw anchored at the display center.
pub open spec fn text_at_center(chars: Seq<char>, style: TextStyle) -> TextSpec {
    TextSpec { chars, pos: center(), style, align: Align::Center }
}

/// The exact sequence of text draws a tick issues for state `s`, given the
/// controller's two text styles.
pub open spec fn render_texts(s: State, small: TextStyle, large: TextStyle) -> Seq<TextSpec> {
    match s {
        State::Idle => seq![text_at_center("You shall not pass!"@, small)],
        State::PIN { digits } => seq![
            text_at_center("_ _ _ _"@, large),
            text_at_center(marker_chars(digits), large),
        ],
        State::Wrong => seq![text_at_center("Wrong PIN,"@, small)],
        State::Correct => seq![text_at_center("Welcome back!"@, small)],
    }
}

/// How many times character `c` occurs in `s`.
pub open spec fn count_char(s: Seq<char>, c: char) -> int
    decreases s.len(),
{
    if s.len() == 0 {
        0
    } else {
        count_char(s.drop_last(), c) + if s.last() == c {
            1int
        } else {
            0int
        }
    }
}

/// Counting a character distributes over concatenation.
pub proof fn lemma_count_char_concat(a: Seq<char>, b: Seq<char>, c: char)
    ensures
        count_char(a + b, c) == count_char(a, c) + count_char(b, c),
    decreases b.len(),
{
    if b.len() == 0 {
        assert(a + b =~= a);
    } else {
        assert((a + b).drop_last() =~= a + b.drop_last());
        assert((a + b).last() == b.last());
        lemma_count_char_concat(a, b.drop_last(), c);
    }
}

/// A sequence without `c` counts zero occurrences of it.
pub proof fn lemma_count_char_zero(s: Seq<char>, c: char)
    requires
        forall|i: int| 0 <= i < s.len() ==> #[trigger] s[i] != c,
    ensures
        count_char(s, c) == 0,
    decreases s.len(),
{
    if s.len() > 0 {
        assert(forall|i: int| 0 <= i < s.drop_last().len() ==> #[trigger] s.drop_last()[i] != c);
        lemma_count_char_zero(s.drop_last(), c);
    }
}

/// One marker slot is two characters ending in a space, and carries one
/// asterisk exactly when its digit is already entered.
pub proof fn lemma_slot_counts(digits: u32, i: int)
    ensures
        slot_chars(digits, i).len() == 2,
        slot_chars(digits, i).last() == ' ',
        count_char(slot_chars(digits, i), '*') == if digits > i {
            1int
        } else {
            0int
        },
        count_char(slot_chars(digits, i), ' ') == if digits > i {
            1int
        } else {
            2int
        },
{
    reveal_strlit("* ");
    reveal_strlit("  ");
    reveal_with_fuel(count_char, 4);
    let s = slot_chars(digits, i);
    assert(s.drop_last() =~= seq![s[0]]);
    assert(s.drop_last().drop_last() =~= Seq::<char>::empty());
    assert(count_char(s, '*') == count_char(s.drop_last(), '*') + if s.last() == '*' {
        1int
    } else {
        0int
    });
    assert(count_char(s.drop_last(), '*') == if s[0] == '*' {
        1int
    } else {
        0int
    });
    assert(count_char(s, ' ') == count_char(s.drop_last(), ' ') + 1);
    assert(count_char(s.drop_last(), ' ') == if s[0] == ' ' {
        1int
    } else {
        0int
    });
}

/// The first `n` marker slots hold `2 * n` characters, of which
/// `min(digits, n)` are asterisks and the rest are spaces.
pub proof fn lemma_marker_prefix_counts(digits: u32, n: int)
    requires
        0 <= n,
    ensures
        marker_prefix(digits, n).len() == 2 * n,
        count_char(marker_prefix(digits, n), '*') == if digits <= n {
            digits as int
        } else {
            n
        },
        count_char(marker_prefix(digits, n), '*') + count_char(marker_prefix(digits, n), ' ')
            == 2 * n,
    decreases n,
{
    if n == 0 {
        assert(count_char(marker_prefix(digits, 0), '*') == 0);
        assert(count_char(marker_prefix(digits, 0), ' ') == 0);
    } else {
        lemma_marker_prefix_counts(digits, n - 1);
        lemma_slot_counts(digits, n - 1);
        lemma_count_char_concat(marker_prefix(digits, n - 1), slot_chars(digits, n - 1), '*');
        lemma_count_char_concat(marker_prefix(digits, n - 1), slot_chars(digits, n - 1), ' ');
    }
}

/// Law: for a PIN entry with at most as many digits as there are slots, the
/// marker line is seven characters over the four-slot layout and shows one
/// asterisk per entered digit and spaces everywhere else; zero digits show
/// no asterisk, four digits fill every slot.
pub proof fn lemma_pin_markers(digits: u32, small: TextStyle, large: TextStyle)
    requires
        digits <= MAX_PIN_DIGITS,
    ensures
        render_texts(State::PIN { digits }, small, large).len() == 2,
        render_texts(State::PIN { digits }, small, large)[0].chars == "_ _ _ _"@,
        render_texts(State::PIN { digits }, small, large)[1].chars == marker_chars(digits),
        marker_chars(digits).len() == 7,
        count_char(marker_chars(digits), '*') == digits as int,
        count_char(marker_chars(digits), ' ') == 7 - digits as int,
{
    lemma_marker_prefix_counts(digits, 4);
    lemma_slot_counts(digits, 3);
    let full = marker_prefix(digits, 4);
    assert(full.last() == slot_chars(digits, 3).last()) by {
        assert(full == marker_prefix(digits, 3) + slot_chars(digits, 3));
        lemma_marker_prefix_counts(digits, 3);
    }
    assert(count_char(full, '*') == count_char(full.drop_last(), '*'));
    assert(count_char(full, ' ') == count_char(full.drop_last(), ' ') + 1);
}

/// Law: the idle screen renders exactly the prompt sentence, one text with
/// no asterisk in it, so no digit marker is shown.
pub proof fn lemma_idle_frame(small: TextStyle, large: TextStyle)
    ensures
        render_texts(State::Idle, small, large).len() == 1,
        render_texts(State::Idle, small, large)[0].chars == "You shall not pass!"@,
        count_char(render_texts(State::Idle, small, large)[0].chars, '*') == 0,
{
    reveal_strlit("You shall not pass!");
    lemma_count_char_zero("You shall not pass!"@, '*');
}

/// Law: the wrong-PIN and correct-PIN screens each render one fixed
/// sentence that depends on no payload, and the two frames differ.
pub proof fn lemma_verdict_frames(small: TextStyle, large: TextStyle)
    ensures
        render_texts(State::Wrong, small, large).len() == 1,
        render_texts(State::Wrong, small, large)[0].chars == "Wrong PIN,"@,
        render_texts(State::Correct, small, large).len() == 1,
        render_texts(State::Correct, small, large)[0].chars == "Welcome back!"@,
        render_texts(State::Wrong, small, large) != render_texts(State::Correct, small, large),
{
    reveal_strlit("Wrong PIN,");
    reveal_strlit("Welcome back!");
    let w = render_texts(State::Wrong, small, large);
    let c = render_texts(State::Correct, small, large);
    assert(w[0].chars.len() == 10);
    assert(c[0].chars.len() == 13);
    assert(w[0] != c[0]);
}

/// The drawing capability the controller needs: a buffered two-colour
/// surface with an explicit flush. Drawing mutates the buffered frame only;
/// `flush` makes it the shown frame.
pub trait Display: Sized {
    /// Background colour of the frame being built.
    spec fn buf_bg(&self) -> Color;

    /// Text draws issued into the frame being built since the last clear.
    spec fn buf_texts(&self) -> Seq<TextSpec>;

    /// Background colour of the frame last flushed to the device.
    spec fn shown_bg(&self) -> Color;

    /// Text draws of the frame last flushed to the device.
    spec fn shown_texts(&self) -> Seq<TextSpec>;

    /// Reset the buffered frame to a bare background of colour `color`.
    fn clear(&mut self, color: Color)
        ensures
            final(self).buf_bg() == color,
            final(self).buf_texts() == Seq::<TextSpec>::empty(),
            final(self).shown_bg() == old(self).shown_bg(),
            final(self).shown_texts() == old(self).shown_texts(),
    ;

    /// Draw `text` into the buffered frame at `pos` with the given style
    /// and alignment.
    fn draw_text(&mut self, text: &str, pos: Point, style: TextStyle, align: Align)
        ensures
            final(self).buf_bg() == old(self).buf_bg(),
            final(self).buf_texts() == old(self).buf_texts().push(
                TextSpec { chars: text@, pos, style, align },
            ),
            final(self).shown_bg() == old(self).shown_bg(),
            final(self).shown_texts() == old(self).shown_texts(),
    ;

    /// Push the buffered frame to the physical device.
    fn flush(&mut self)
        ensures
            final(self).buf_bg() == old(self).buf_bg(),
            final(self).buf_texts() == old(self).buf_texts(),
            final(self).shown_bg() == old(self).buf_bg(),
            final(self).shown_texts() == old(self).buf_texts(),
    ;
}

/// Carrier declaration for heapless's fixed-capacity string, so that values
/// of it can appear in verified signatures.
#[verifier::external_type_specification]
#[verifier::external_body]
pub struct ExHeaplessString<const N: usize>(heapless::String<N>);

/// The characters an eight-byte marker buffer holds.
pub uninterp spec fn str8_chars(s: heapless::String<8>) -> Seq<char>;

/// True when every character of `s` is plain ASCII, so that its byte length
/// equals its character count.
pub open spec fn all_ascii(s: Seq<char>) -> bool {
    forall|i: int| 0 <= i < s.len() ==> (#[trigger] s[i] as u32) < 128
}

/// Relies on heapless::String::new: a freshly created string is empty.
#[verifier::external_body]
fn str8_new() -> (r: heapless::String<8>)
    ensures
        str8_chars(r) == Seq::<char>::empty(),
{
    heapless::String::new()
}

/// Relies on heapless::String::push_str: the capacity is counted in bytes,
/// so when the buffer and the pushed text are ASCII and their characters fit
/// the capacity together, the text is appended whole.
#[verifier::external_body]
fn str8_push(s: &mut heapless::String<8>, t: &str)
    requires
        all_ascii(str8_chars(*old(s))),
        all_ascii(t@),
        str8_chars(*old(s)).len() + t@.len() <= 8,
    ensures
        str8_chars(*final(s)) == str8_chars(*old(s)) + t@,
{
    s.push_str(t).ok();
}

/// Relies on heapless::String::pop: removes and returns the last character,
/// or returns None and leaves the string alone when it is empty.
#[verifier::external_body]
fn str8_pop(s: &mut heapless::String<8>) -> (r: Option<char>)
    ensures
        str8_chars(*old(s)).len() == 0 ==> r is None && str8_chars(*final(s)) == str8_chars(
            *old(s),
        ),
        str8_chars(*old(s)).len() > 0 ==> r == Some(str8_chars(*old(s)).last())
            && str8_chars(*final(s)) == str8_chars(*old(s)).drop_last(),
{
    s.pop()
}

/// Relies on heapless::String::as_str: exposes exactly the stored characters.
#[verifier::external_body]
fn str8_as_str(s: &heapless::String<8>) -> (r: &str)
    ensures
        r@ == str8_chars(*s),
{
    s.as_str()
}

/// Main display controller logic: owns the current state and the render
/// target, and redraws the whole frame on every tick.
pub struct Controller<D: Display> {
    state: State,
    target: D,
    text_style_small: TextStyle,
    text_style_large: TextStyle,
}

impl<D: Display> Controller<D> {
    /// The state the next tick will render.
    pub closed spec fn cur_state(&self) -> State {
        self.state
    }

    /// The render target the controller exclusively owns.
    pub closed spec fn screen(&self) -> D {
        self.target
    }

    /// The stored small text style.
    pub closed spec fn small(&self) -> TextStyle {
        self.text_style_small
    }

    /// The stored large text style.
    pub closed spec fn large(&self) -> TextStyle {
        self.text_style_large
    }

    /// Create a new display controller for a given display `target`. The
    /// two text styles are computed once here and reused for the
    /// controller's lifetime; the initial state is idle.
    pub fn new(target: D) -> (r: Self)
        ensures
            r.cur_state() == State::Idle,
            r.screen() == target,
            r.small() == small_style(),
            r.large() == large_style(),
    {
        let text_style_small = TextStyle { glyph_width: 6, glyph_height: 10 };
        let text_style_large = TextStyle { glyph_width: 10, glyph_height: 20 };
        Controller { state: State::Idle, target, text_style_small, text_style_large }
    }

    /// Set display state from higher-level logic. The state is replaced
    /// wholesale and nothing is rendered until the next tick. Keeping the
    /// digit count within the slot count is the caller's responsibility.
    pub fn set_state(&mut self, st: State)
        requires
            st.wf(),
        ensures
            final(self).cur_state() == st,
            final(self).screen() == old(self).screen(),
            final(self).small() == old(self).small(),
            final(self).large() == old(self).large(),
    {
        self.state = st;
    }

    /// Borrow the render target, e.g. to inspect the frame last shown.
    pub fn target_ref(&self) -> (r: &D)
        ensures
            *r == self.screen(),
    {
        &self.target
    }
}

impl<D: Display> crate::Component for Controller<D> {
    /// Clear the surface, draw the view for the current state, and flush
    /// the frame to the device. The shown frame afterwards is exactly
    /// `render_texts` of the current state over an off background, whatever
    /// the surface held before.
    fn tick(&mut self, _us: u64)
        ensures
            final(self).cur_state() == old(self).cur_state(),
            final(self).screen().buf_bg() == Color::Off,
            final(self).screen().buf_texts() == render_texts(
                old(self).cur_state(),
                old(self).small(),
                old(self).large(),
            ),
            final(self).screen().shown_bg() == Color::Off,
            final(self).screen().shown_texts() == render_texts(
                old(self).cur_state(),
                old(self).small(),
                old(self).large(),
            ),
            final(self).small() == old(self).small(),
            final(self).large() == old(self).large(),
    {
        self.target.clear(Color::Off);

        let center = Point { x: 64, y: 32 };
        match self.state {
            State::Idle => {
                self.target.draw_text(
                    "You shall not pass!",
                    center,
                    self.text_style_small,
                    Align::Center,
                );
            },
            State::PIN { digits } => {
                self.target.draw_text("_ _ _ _", center, self.text_style_large, Align::Center);

                let mut stars: heapless::String<8> = str8_new();
                let mut i: u32 = 0;
                while i < 4
                    invariant
                        i <= 4,
                        str8_chars(stars) == marker_prefix(digits, i as int),
                        str8_chars(stars).len() == 2 * i,
                        all_ascii(str8_chars(stars)),
                    decreases 4 - i,
                {
                    proof {
                        reveal_strlit("* ");
                        reveal_strlit("  ");
                    }
                    if digits > i {
                        str8_push(&mut stars, "* ");
                    } else {
                        str8_push(&mut stars, "  ");
                    }
                    i = i + 1;
                }
                str8_pop(&mut stars);

                let marker = str8_as_str(&stars);
                self.target.draw_text(marker, center, self.text_style_large, Align::Center);
            },
            State::Correct => {
                self.target.draw_text(
                    "Welcome back!",
                    center,
                    self.text_style_small,
                    Align::Center,
                );
            },
            State::Wrong => {
                self.target.draw_text("Wrong PIN,", center, self.text_style_small, Align::Center);
            },
        }

        proof {
            assert(self.target.buf_texts() =~= render_texts(
                self.state,
                self.text_style_small,
                self.text_style_large,
            ));
        }

        self.target.flush();
    }
}

/// Law: the frame a tick shows is a function of the controller's state and
/// styles alone, never of what the surface held before. So a tick right
/// after another tick, with no state change in between, shows a
/// pixel-identical frame, and no residue of an earlier frame bleeds
/// through a later one.
pub proof fn lemma_frame_state_determined<D: Display>(c1: Controller<D>, c2: Controller<D>)
    requires
        c1.cur_state() == c2.cur_state(),
        c1.small() == c2.small(),
        c1.large() == c2.large(),
    ensures
        render_texts(c1.cur_state(), c1.small(), c1.large()) == render_texts(
            c2.cur_state(),
            c2.small(),
            c2.large(),
        ),
{
}

} // verus!
