//! One falling stream of glyphs in a single terminal column, and the draw
//! instructions it produces each frame.
use std::collections::VecDeque;
use vstd::prelude::*;
use crate::random::random_below;
use crate::scheme::{style_of, Attribute, Color, ColorScheme};

verus! {

/// The glyphs a stream draws from.
pub const ALL_CHARS: &'static str = "ABCDEFGHIJKLMNOPQRSTUVWXYZabcdefghijklmnopqrstuvwxyz0123456789!@#$%^&*()+={}[]:;<>?/";

/// Shortest length a respawned stream can have.
pub const MIN_STREAM_LEN: usize = 5;

/// Longest length a respawned stream can have.
pub const MAX_STREAM_LEN: usize = 10;

/// The glyph alphabet as a sequence of characters.
pub open spec fn alphabet() -> Seq<char> {
    ALL_CHARS@
}

/// One cell to paint on the terminal.
#[derive(Clone, Copy, Debug, PartialEq, Eq, Structural)]
pub enum DrawOp {
    /// Write glyph `ch` at (`col`, `row`) in the given colour and weight.
    Glyph { col: u16, row: u16, ch: char, color: Color, attr: Attribute },
    /// Blank the cell at (`col`, `row`).
    Erase { col: u16, row: u16 },
}

/// A trail of glyphs falling down column `col`. `chars` runs from the head
/// (index 0, newest, drawn on row `y`) to the tail (oldest, on row
/// `y - (len - 1)`). A dying stream draws nothing until it is respawned.
pub struct Stream {
    pub col: u16,
    pub y: u32,
    pub max_len: usize,
    pub chars: VecDeque<char>,
    pub is_dying: bool,
}

/// The row just behind the tail: the cell the stream vacated most recently.
pub open spec fn tail_row(s: Stream) -> int {
    s.y - s.chars@.len()
}

/// The glyph window after `g` enters at the head of `gs`, trimmed to `max_len`
/// by dropping the oldest glyph.
pub open spec fn pushed(gs: Seq<char>, g: char, max_len: nat) -> Seq<char> {
    let s = seq![g] + gs;
    if s.len() > max_len {
        s.drop_last()
    } else {
        s
    }
}

/// `new` is `old` after one tick on a screen of height `h` in which the glyph
/// `g` entered at the head: a dying stream is left as it is; a living one takes
/// the glyph, moves its head one row down, and dies exactly when its tail row
/// reaches `h`.
pub open spec fn tick_of(old: Stream, new: Stream, h: int, g: char) -> bool {
    if old.is_dying {
        new == old
    } else {
        &&& new.col == old.col
        &&& new.max_len == old.max_len
        &&& new.y == old.y + 1
        &&& new.chars@ == pushed(old.chars@, g, old.max_len as nat)
        &&& new.is_dying == (tail_row(new) >= h)
    }
}

/// The instruction that paints glyph `i` of `s`, counted from the head.
pub open spec fn glyph_op(s: Stream, scheme: ColorScheme, i: int) -> DrawOp {
    let style = style_of(scheme, i, s.chars@.len() as int);
    DrawOp::Glyph {
        col: s.col,
        row: (s.y - i) as u16,
        ch: s.chars@[i],
        color: style.0,
        attr: style.1,
    }
}

/// Paint instructions for the first `n` glyphs of `s` whose rows lie above `h`.
pub open spec fn glyph_ops(s: Stream, h: int, scheme: ColorScheme, n: nat) -> Seq<DrawOp>
    decreases n,
{
    if n == 0 {
        Seq::empty()
    } else {
        let i = n - 1;
        let before = glyph_ops(s, h, scheme, i as nat);
        if s.y - i < h {
            before.push(glyph_op(s, scheme, i))
        } else {
            before
        }
    }
}

/// The erase instruction for the vacated cell behind the tail, when it is on
/// screen.
pub open spec fn erase_ops(s: Stream, h: int) -> Seq<DrawOp> {
    if 0 <= tail_row(s) < h {
        seq![DrawOp::Erase { col: s.col, row: tail_row(s) as u16 }]
    } else {
        Seq::empty()
    }
}

/// Everything a stream paints in one frame: nothing when dying; otherwise each
/// on-screen glyph from head to tail, then the erase of the vacated cell.
pub open spec fn draw_spec(s: Stream, h: int, scheme: ColorScheme) -> Seq<DrawOp> {
    if s.is_dying {
        Seq::empty()
    } else {
        glyph_ops(s, h, scheme, s.chars@.len()) + erase_ops(s, h)
    }
}

impl Stream {
    /// The glyph window never outgrows the target length, and never holds more
    /// glyphs than rows the head has travelled.
    pub open spec fn wf(&self) -> bool {
        &&& self.chars@.len() <= self.max_len
        &&& self.chars@.len() <= self.y
    }

    /// A living stream in column `col` with target length `max_len`, an empty
    /// window and its head just above the screen.
    pub fn with_length(col: u16, max_len: usize) -> (r: Stream)
        ensures
            r.wf(),
            r.col == col,
            r.y == 0,
            r.max_len == max_len,
            r.chars@.len() == 0,
            !r.is_dying,
    {
        Stream { col, y: 0, max_len, chars: VecDeque::new(), is_dying: false }
    }

    /// A dying stream in column `col`, waiting to be respawned.
    pub fn dormant(col: u16) -> (r: Stream)
        ensures
            r.wf(),
            r.col == col,
            r.y == 0,
            r.max_len == 0,
            r.chars@.len() == 0,
            r.is_dying,
    {
        Stream { col, y: 0, max_len: 0, chars: VecDeque::new(), is_dying: true }
    }

    /// A freshly spawned stream in column `col`, with a random target length
    /// in `[MIN_STREAM_LEN, MAX_STREAM_LEN]`.
    pub fn new(col: u16) -> (r: Stream)
        ensures
            r.wf(),
            r.col == col,
            r.y == 0,
            MIN_STREAM_LEN <= r.max_len <= MAX_STREAM_LEN,
            r.chars@.len() == 0,
            !r.is_dying,
    {
        let extra = random_below(MAX_STREAM_LEN - MIN_STREAM_LEN + 1);
        Stream::with_length(col, MIN_STREAM_LEN + extra)
    }
}


impl Stream {
    /// Advance one tick on a screen of height `h` with `g` as the new head
    /// glyph. A dying stream is left unchanged.
    pub fn update_with(&mut self, h: u16, g: char)
        requires
            old(self).wf(),
            !old(self).is_dying ==> old(self).y < u32::MAX,
        ensures
            final(self).wf(),
            tick_of(*old(self), *final(self), h as int, g),
    {
        if self.is_dying {
            return;
        }
        self.chars.push_front(g);
        if self.chars.len() > self.max_len {
            self.chars.pop_back();
        }
        self.y = self.y + 1;
        let tail_y = self.y - self.chars.len() as u32;
        if tail_y >= h as u32 {
            self.is_dying = true;
        }
    }

    /// Advance one tick on a screen of height `h`, with a head glyph drawn
    /// uniformly from `ALL_CHARS`. A dying stream is left unchanged.
    pub fn update(&mut self, h: u16)
        requires
            old(self).wf(),
            !old(self).is_dying ==> old(self).y < u32::MAX,
        ensures
            final(self).wf(),
            exists|g: char| alphabet().contains(g) && tick_of(*old(self), *final(self), h as int, g),
    {
        proof {
            reveal_strlit("ABCDEFGHIJKLMNOPQRSTUVWXYZabcdefghijklmnopqrstuvwxyz0123456789!@#$%^&*()+={}[]:;<>?/");
        }
        if self.is_dying {
            assert(alphabet()[0] == 'A');
            assert(alphabet().contains('A') && tick_of(*old(self), *self, h as int, 'A'));
            return;
        }
        let n = ALL_CHARS.unicode_len();
        let idx = random_below(n);
        let g = ALL_CHARS.get_char(idx);
        assert(alphabet()[idx as int] == g);
        assert(alphabet().contains(g));
        self.update_with(h, g);
        assert(tick_of(*old(self), *self, h as int, g));
    }
}

impl Stream {
    /// Append to `out` what this stream paints in one frame on a screen of
    /// height `h` in colour scheme `scheme`.
    pub fn draw_into(&self, h: u16, scheme: ColorScheme, out: &mut Vec<DrawOp>)
        requires
            self.wf(),
        ensures
            final(out)@ == old(out)@ + draw_spec(*self, h as int, scheme),
    {
        if self.is_dying {
            assert(old(out)@ + draw_spec(*self, h as int, scheme) =~= old(out)@);
            return;
        }
        let stream_len = self.chars.len();
        let ghost start = old(out)@;
        let mut i: usize = 0;
        while i < stream_len
            invariant
                self.wf(),
                !self.is_dying,
                stream_len == self.chars@.len(),
                i <= stream_len,
                out@ == start + glyph_ops(*self, h as int, scheme, i as nat),
            decreases stream_len - i,
        {
            let current_y = self.y - i as u32;
            if current_y < h as u32 {
                let (color, attr) = scheme.get_colors(i, stream_len);
                let ch = self.chars[i];
                out.push(DrawOp::Glyph { col: self.col, row: current_y as u16, ch, color, attr });
                assert(out@ == start + glyph_ops(*self, h as int, scheme, (i + 1) as nat));
            } else {
                assert(out@ == start + glyph_ops(*self, h as int, scheme, (i + 1) as nat));
            }
            i = i + 1;
        }
        let erase_y = self.y - stream_len as u32;
        if erase_y < h as u32 {
            out.push(DrawOp::Erase { col: self.col, row: erase_y as u16 });
        }
        assert(out@ =~= old(out)@ + draw_spec(*self, h as int, scheme));
    }

    /// What this stream paints in one frame on a screen of height `h` in
    /// colour scheme `scheme`.
    pub fn draw_ops(&self, h: u16, scheme: ColorScheme) -> (r: Vec<DrawOp>)
        requires
            self.wf(),
        ensures
            r@ == draw_spec(*self, h as int, scheme),
    {
        let mut out: Vec<DrawOp> = Vec::new();
        self.draw_into(h, scheme, &mut out);
        assert(out@ =~= draw_spec(*self, h as int, scheme));
        out
    }
}

/// A dying stream stays as it is under a tick and paints nothing, so it is
/// silent until it is respawned.
pub proof fn lemma_dying_stream_is_silent(s: Stream, t: Stream, h: int, g: char, scheme: ColorScheme)
    requires
        s.is_dying,
        tick_of(s, t, h, g),
    ensures
        t == s,
        t.is_dying,
        draw_spec(t, h, scheme) == Seq::<DrawOp>::empty(),
{
}

/// Under a tick of a living stream the tail row holds still while the window
/// grows and moves down one row once the window is full; the stream dies on
/// the first tick whose tail row reaches the screen height, and not before.
pub proof fn lemma_tail_row_on_tick(s: Stream, t: Stream, h: int, g: char)
    requires
        s.wf(),
        !s.is_dying,
        tick_of(s, t, h, g),
    ensures
        t.wf(),
        tail_row(t) == if s.chars@.len() == s.max_len { tail_row(s) + 1 } else { tail_row(s) },
        t.is_dying <==> tail_row(t) >= h,
{
}

/// After a tick of a living stream that stays alive, its paint instructions end
/// with exactly one erase: of the cell that the tick vacated. When the window
/// was full that is the row on which the evicted oldest glyph stood; otherwise
/// the tail has not moved and the erase repeats the previous tail row.
pub proof fn lemma_erase_is_vacated_cell(s: Stream, t: Stream, h: int, g: char, scheme: ColorScheme)
    requires
        s.wf(),
        !s.is_dying,
        tick_of(s, t, h, g),
        !t.is_dying,
    ensures
        erase_ops(t, h) == seq![DrawOp::Erase { col: s.col, row: tail_row(t) as u16 }],
        draw_spec(t, h, scheme).last() == (DrawOp::Erase { col: s.col, row: tail_row(t) as u16 }),
        s.chars@.len() == s.max_len && s.max_len > 0 ==> tail_row(t) == s.y - (s.chars@.len() - 1),
        s.chars@.len() < s.max_len ==> tail_row(t) == tail_row(s),
        0 <= tail_row(t) < h,
{
}

} // verus!
