//! An in-memory draw surface: records draw commands instead of driving a
//! panel, so rendering can be checked deterministically without hardware.

use vstd::prelude::*;

use crate::display::Display;
use crate::frame::{Align, Color, Point, TextSpec, TextStyle};

verus! {

/// One recorded text draw.
#[derive(Debug, PartialEq, Eq)]
pub struct TextCmd {
    pub text: String,
    pub pos: Point,
    pub style: TextStyle,
    pub align: Align,
}

impl View for TextCmd {
    type V = TextSpec;

    open spec fn view(&self) -> TextSpec {
        TextSpec { chars: self.text@, pos: self.pos, style: self.style, align: self.align }
    }
}

impl Clone for TextCmd {
    fn clone(&self) -> (r: Self)
        ensures
            r == *self,
    {
        TextCmd { text: self.text.clone(), pos: self.pos, style: self.style, align: self.align }
    }
}

/// A draw surface that keeps the buffered frame and the last flushed frame
/// as recorded command lists.
pub struct SimDisplay {
    pending_bg: Color,
    pending: Vec<TextCmd>,
    visible_bg: Color,
    visible: Vec<TextCmd>,
}

impl SimDisplay {
    /// A fresh surface: both frames are a bare off background.
    pub fn new() -> (r: Self)
        ensures
            r.buf_bg() == Color::Off,
            r.buf_texts() == Seq::<TextSpec>::empty(),
            r.shown_bg() == Color::Off,
            r.shown_texts() == Seq::<TextSpec>::empty(),
    {
        let r = SimDisplay {
            pending_bg: Color::Off,
            pending: Vec::new(),
            visible_bg: Color::Off,
            visible: Vec::new(),
        };
        proof {
            assert(r.pending@.map_values(|c: TextCmd| c@) =~= Seq::<TextSpec>::empty());
            assert(r.visible@.map_values(|c: TextCmd| c@) =~= Seq::<TextSpec>::empty());
        }
        r
    }

    /// Background colour of the frame last flushed.
    pub fn visible_background(&self) -> (r: Color)
        ensures
            r == self.shown_bg(),
    {
        self.visible_bg
    }

    /// The commands of the frame last flushed, in draw order.
    pub fn visible_cmds(&self) -> (r: &Vec<TextCmd>)
        ensures
            r@.map_values(|c: TextCmd| c@) == self.shown_texts(),
    {
        &self.visible
    }
}

impl Display for SimDisplay {
    closed spec fn buf_bg(&self) -> Color {
        self.pending_bg
    }

    closed spec fn buf_texts(&self) -> Seq<TextSpec> {
        self.pending@.map_values(|c: TextCmd| c@)
    }

    closed spec fn shown_bg(&self) -> Color {
        self.visible_bg
    }

    closed spec fn shown_texts(&self) -> Seq<TextSpec> {
        self.visible@.map_values(|c: TextCmd| c@)
    }

    fn clear(&mut self, color: Color) {
        self.pending_bg = color;
        self.pending = Vec::new();
        proof {
            assert(self.pending@.map_values(|c: TextCmd| c@) =~= Seq::<TextSpec>::empty());
        }
    }

    fn draw_text(&mut self, text: &str, pos: Point, style: TextStyle, align: Align) {
        let cmd = TextCmd { text: String::from_str(text), pos, style, align };
        self.pending.push(cmd);
        proof {
            assert(self.pending@.map_values(|c: TextCmd| c@) =~= old(
                self,
            ).pending@.map_values(|c: TextCmd| c@).push(
                TextSpec { chars: text@, pos, style, align },
            ));
        }
    }

    fn flush(&mut self) {
        self.visible_bg = self.pending_bg;
        self.visible = self.pending.clone();
        proof {
            assert forall|i: int| 0 <= i < self.pending@.len() implies self.visible@[i]
                == self.pending@[i] by {
                assert(cloned::<TextCmd>(self.pending@[i], self.visible@[i]));
            }
            assert(self.visible@ =~= self.pending@);
            assert(self.visible@.map_values(|c: TextCmd| c@) =~= self.pending@.map_values(
                |c: TextCmd| c@,
            ));
        }
    }
}

} // verus!
