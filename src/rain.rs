//! The state of the animation and the decisions the render loop takes on each
//! input event and each frame.
use vstd::prelude::*;
use crate::random::random_below;
use crate::scheme::{next_scheme, ColorScheme};
use crate::stream::{
    alphabet, draw_spec, tick_of, DrawOp, Stream, MAX_STREAM_LEN, MIN_STREAM_LEN,
};

verus! {

/// Frame interval at startup, in milliseconds.
pub const INITIAL_FRAME_DELAY_MS: u64 = 30;

/// Lower edge of the band in which the frame interval can be adjusted.
pub const MIN_FRAME_DELAY_MS: u64 = 5;

/// Upper edge of the band in which the frame interval can be adjusted.
pub const MAX_FRAME_DELAY_MS: u64 = 100;

/// Amount by which one speed key changes the frame interval.
pub const FRAME_DELAY_STEP_MS: u64 = 5;

/// Expected number of respawns per frame across all columns: a dead column
/// respawns with probability `STREAM_SPAWN_CHANCE / width`.
pub const STREAM_SPAWN_CHANCE: usize = 1;

/// The key of a key press, as far as the animation distinguishes keys.
#[derive(Clone, Copy, Debug, PartialEq, Eq, Structural)]
pub enum KeyCode {
    Char(char),
    Esc,
    Up,
    Down,
    Other,
}

/// A key press; `ctrl` holds when Control, and no other modifier, was down.
#[derive(Clone, Copy, Debug, PartialEq, Eq, Structural)]
pub struct KeyPress {
    pub code: KeyCode,
    pub ctrl: bool,
}

/// An input event from the terminal.
#[derive(Clone, Copy, Debug, PartialEq, Eq, Structural)]
pub enum Event {
    Key(KeyPress),
    /// The terminal now has the given columns and rows.
    Resize(u16, u16),
    Other,
}

/// What the render loop does after an event has been handled.
#[derive(Clone, Copy, Debug, PartialEq, Eq, Structural)]
pub enum Action {
    Continue,
    /// Clear the whole screen once, then continue.
    ClearScreen,
    /// Leave the loop and restore the terminal.
    Quit,
}

/// Escape, or Control+C, ends the session.
pub open spec fn is_quit_key(k: KeyPress) -> bool {
    k.code == KeyCode::Esc || (k.ctrl && k.code == KeyCode::Char('c'))
}

/// The frame interval after the key `code`: Up shortens it and Down lengthens
/// it by one step, unless the step would take it out of the band
/// [`MIN_FRAME_DELAY_MS`, `MAX_FRAME_DELAY_MS`], in which case nothing changes.
pub open spec fn adjusted_delay(d: int, code: KeyCode) -> int {
    if code == KeyCode::Up && MIN_FRAME_DELAY_MS + FRAME_DELAY_STEP_MS <= d <= MAX_FRAME_DELAY_MS {
        d - FRAME_DELAY_STEP_MS
    } else if code == KeyCode::Down && MIN_FRAME_DELAY_MS <= d && d + FRAME_DELAY_STEP_MS
        <= MAX_FRAME_DELAY_MS {
        d + FRAME_DELAY_STEP_MS
    } else {
        d
    }
}

/// The frame interval after the keys `codes`, in order.
pub open spec fn delay_after(d: int, codes: Seq<KeyCode>) -> int
    decreases codes.len(),
{
    if codes.len() == 0 {
        d
    } else {
        adjusted_delay(delay_after(d, codes.drop_last()), codes.last())
    }
}

/// The frame interval after the key `code`.
pub fn adjust_delay(d: u64, code: KeyCode) -> (r: u64)
    ensures
        r == adjusted_delay(d as int, code),
{
    match code {
        KeyCode::Up => {
            if MIN_FRAME_DELAY_MS + FRAME_DELAY_STEP_MS <= d && d <= MAX_FRAME_DELAY_MS {
                d - FRAME_DELAY_STEP_MS
            } else {
                d
            }
        },
        KeyCode::Down => {
            if MIN_FRAME_DELAY_MS <= d && d <= MAX_FRAME_DELAY_MS - FRAME_DELAY_STEP_MS {
                d + FRAME_DELAY_STEP_MS
            } else {
                d
            }
        },
        _ => d,
    }
}

/// However many speed keys arrive, a frame interval that starts in the band
/// [`MIN_FRAME_DELAY_MS`, `MAX_FRAME_DELAY_MS`] never leaves it.
pub proof fn lemma_delay_stays_in_band(d: int, codes: Seq<KeyCode>)
    requires
        MIN_FRAME_DELAY_MS <= d <= MAX_FRAME_DELAY_MS,
    ensures
        MIN_FRAME_DELAY_MS <= delay_after(d, codes) <= MAX_FRAME_DELAY_MS,
    decreases codes.len(),
{
    if codes.len() > 0 {
        lemma_delay_stays_in_band(d, codes.drop_last());
    }
}

/// A dead column respawns when the roll drawn uniformly from `[0, width)`
/// falls below `STREAM_SPAWN_CHANCE`.
pub fn spawns(roll: usize) -> (r: bool)
    ensures
        r == (roll < STREAM_SPAWN_CHANCE),
{
    roll < STREAM_SPAWN_CHANCE
}

/// Roll whether a dead column of a terminal `width` columns wide respawns this
/// frame, with probability `STREAM_SPAWN_CHANCE / width`.
/// On a terminal no wider than `STREAM_SPAWN_CHANCE` every roll spawns.
pub fn roll_spawn(width: u16) -> (r: bool)
    requires
        width > 0,
    ensures
        width as usize <= STREAM_SPAWN_CHANCE ==> r,
{
    let roll = random_below(width as usize);
    spawns(roll)
}

/// `n` is the stream that respawned in the column of `o` and took its first
/// tick on a screen of height `h`, with `g` as its head glyph.
pub open spec fn respawned_tick(o: Stream, n: Stream, h: int, g: char) -> bool {
    &&& n.col == o.col
    &&& MIN_STREAM_LEN <= n.max_len <= MAX_STREAM_LEN
    &&& n.y == 1
    &&& n.chars@ == seq![g]
    &&& n.is_dying == (h <= 0)
}

/// How one column moves on in a frame on a screen of height `h`: a living
/// stream ticks; a dead one either stays as it is or respawns and ticks once.
/// Each new head glyph comes from the alphabet.
pub open spec fn column_step(o: Stream, n: Stream, h: int) -> bool {
    if !o.is_dying {
        exists|g: char| alphabet().contains(g) && tick_of(o, n, h, g)
    } else {
        n == o || exists|g: char| alphabet().contains(g) && respawned_tick(o, n, h, g)
    }
}

/// Paint instructions of the streams `ss`, column after column.
pub open spec fn frame_spec(ss: Seq<Stream>, h: int, scheme: ColorScheme) -> Seq<DrawOp>
    decreases ss.len(),
{
    if ss.len() == 0 {
        Seq::empty()
    } else {
        frame_spec(ss.drop_last(), h, scheme) + draw_spec(ss.last(), h, scheme)
    }
}

/// The whole animation state: terminal size, colour scheme, frame interval,
/// and one stream per column.
pub struct Rain {
    pub cols: u16,
    pub rows: u16,
    pub scheme: ColorScheme,
    pub frame_delay_ms: u64,
    pub streams: Vec<Stream>,
}

impl Rain {
    /// The frame interval lies in its band, and there is one well-formed
    /// stream per column, in column order; a living stream's head is never
    /// more than a full window below the screen.
    pub open spec fn wf(&self) -> bool {
        &&& MIN_FRAME_DELAY_MS <= self.frame_delay_ms <= MAX_FRAME_DELAY_MS
        &&& self.streams@.len() == self.cols
        &&& forall|i: int|
            0 <= i < self.streams@.len() ==> {
                let s = #[trigger] self.streams@[i];
                &&& s.wf()
                &&& s.col == i
                &&& s.max_len <= MAX_STREAM_LEN
                &&& !s.is_dying ==> s.y <= self.rows + MAX_STREAM_LEN
            }
    }

    /// The state at startup on a terminal of `cols` by `rows`: green, a frame
    /// interval of `INITIAL_FRAME_DELAY_MS`, and a dead stream in every column.
    pub fn new(cols: u16, rows: u16) -> (r: Rain)
        ensures
            r.wf(),
            r.cols == cols,
            r.rows == rows,
            r.scheme == ColorScheme::Green,
            r.frame_delay_ms == INITIAL_FRAME_DELAY_MS,
            forall|i: int|
                0 <= i < cols ==> {
                    let s = #[trigger] r.streams@[i];
                    s.y == 0 && s.max_len == 0 && s.chars@.len() == 0 && s.is_dying
                },
    {
        let streams = Rain::dormant_streams(cols);
        Rain { cols, rows, scheme: ColorScheme::Green, frame_delay_ms: INITIAL_FRAME_DELAY_MS, streams }
    }

    /// A dead stream for each column of a terminal `cols` wide.
    pub fn dormant_streams(cols: u16) -> (r: Vec<Stream>)
        ensures
            r@.len() == cols,
            forall|i: int|
                0 <= i < cols ==> {
                    let s = #[trigger] r@[i];
                    &&& s.wf() && s.col == i && s.y == 0 && s.max_len == 0
                    &&& s.chars@.len() == 0 && s.is_dying
                },
    {
        let mut streams: Vec<Stream> = Vec::new();
        let mut c: u16 = 0;
        while c < cols
            invariant
                c <= cols,
                streams@.len() == c,
                forall|i: int|
                    0 <= i < c ==> {
                        let s = #[trigger] streams@[i];
                        &&& s.wf() && s.col == i && s.y == 0 && s.max_len == 0
                        &&& s.chars@.len() == 0 && s.is_dying
                    },
            decreases cols - c,
        {
            streams.push(Stream::dormant(c));
            c = c + 1;
        }
        streams
    }
}

impl Rain {
    /// Handle one input event. Escape or Control+C quits and changes nothing.
    /// A resize stores the new size, replaces every stream by a dead one in
    /// each new column, and asks for one full-screen clear. Any other key
    /// cycles the scheme when it is a space, and adjusts the frame interval.
    pub fn handle_event(&mut self, ev: Event) -> (r: Action)
        requires
            old(self).wf(),
        ensures
            final(self).wf(),
            match ev {
                Event::Key(k) => if is_quit_key(k) {
                    &&& r == Action::Quit
                    &&& *final(self) == *old(self)
                } else {
                    &&& r == Action::Continue
                    &&& final(self).cols == old(self).cols
                    &&& final(self).rows == old(self).rows
                    &&& final(self).streams == old(self).streams
                    &&& final(self).scheme == if k.code == KeyCode::Char(' ') {
                        next_scheme(old(self).scheme)
                    } else {
                        old(self).scheme
                    }
                    &&& final(self).frame_delay_ms == adjusted_delay(old(self).frame_delay_ms as int, k.code)
                },
                Event::Resize(c, h) => {
                    &&& r == Action::ClearScreen
                    &&& final(self).cols == c
                    &&& final(self).rows == h
                    &&& final(self).scheme == old(self).scheme
                    &&& final(self).frame_delay_ms == old(self).frame_delay_ms
                    &&& forall|i: int|
                        0 <= i < c ==> {
                            let s = #[trigger] final(self).streams@[i];
                            s.is_dying && s.y == 0 && s.max_len == 0 && s.chars@.len() == 0
                        }
                },
                Event::Other => {
                    &&& r == Action::Continue
                    &&& *final(self) == *old(self)
                },
            },
    {
        match ev {
            Event::Key(k) => {
                let quit = match k.code {
                    KeyCode::Esc => true,
                    KeyCode::Char(ch) => k.ctrl && ch == 'c',
                    _ => false,
                };
                if quit {
                    return Action::Quit;
                }
                if k.code == KeyCode::Char(' ') {
                    self.scheme = self.scheme.next();
                }
                self.frame_delay_ms = adjust_delay(self.frame_delay_ms, k.code);
                Action::Continue
            },
            Event::Resize(c, h) => {
                self.cols = c;
                self.rows = h;
                self.streams = Rain::dormant_streams(c);
                Action::ClearScreen
            },
            Event::Other => Action::Continue,
        }
    }
}

impl Rain {
    /// Advance one frame and return what to paint, column after column. A
    /// living stream ticks and paints. A dead one respawns with probability
    /// `STREAM_SPAWN_CHANCE / cols`, and then ticks and paints at once, so that
    /// it shows without a blank frame.
    pub fn step(&mut self) -> (r: Vec<DrawOp>)
        requires
            old(self).wf(),
        ensures
            final(self).wf(),
            final(self).cols == old(self).cols,
            final(self).rows == old(self).rows,
            final(self).scheme == old(self).scheme,
            final(self).frame_delay_ms == old(self).frame_delay_ms,
            forall|i: int|
                0 <= i < old(self).streams@.len() ==> column_step(
                    #[trigger] old(self).streams@[i],
                    final(self).streams@[i],
                    old(self).rows as int,
                ),
            forall|i: int|
                0 <= i < old(self).streams@.len() && #[trigger] old(self).streams@[i].is_dying
                    && old(self).cols as usize <= STREAM_SPAWN_CHANCE ==> exists|g: char|
                    alphabet().contains(g) && respawned_tick(
                        old(self).streams@[i],
                        final(self).streams@[i],
                        old(self).rows as int,
                        g,
                    ),
            r@ == frame_spec(final(self).streams@, old(self).rows as int, old(self).scheme),
    {
        let mut ops: Vec<DrawOp> = Vec::new();
        let n = self.streams.len();
        let ghost start = self.streams@;
        let h = self.rows;
        let mut i: usize = 0;
        while i < n
            invariant
                self.wf(),
                self.cols == old(self).cols,
                self.rows == h,
                h == old(self).rows,
                self.scheme == old(self).scheme,
                self.frame_delay_ms == old(self).frame_delay_ms,
                start == old(self).streams@,
                n == self.streams@.len(),
                n == start.len(),
                i <= n,
                forall|j: int| 0 <= j < i ==> column_step(#[trigger] start[j], self.streams@[j], h as int),
                forall|j: int|
                    0 <= j < i && #[trigger] start[j].is_dying && self.cols as usize <= STREAM_SPAWN_CHANCE
                        ==> exists|g: char|
                        alphabet().contains(g) && respawned_tick(start[j], self.streams@[j], h as int, g),
                forall|j: int| i <= j < n ==> #[trigger] self.streams@[j] == start[j],
                ops@ == frame_spec(self.streams@.subrange(0, i as int), h as int, self.scheme),
            decreases n - i,
        {
            let ghost before = ops@;
            let ghost prefix = self.streams@.subrange(0, i as int);
            if !self.streams[i].is_dying {
                self.streams[i].update(h);
                self.streams[i].draw_into(h, self.scheme, &mut ops);
            } else if roll_spawn(self.cols) {
                let mut fresh = Stream::new(self.streams[i].col);
                let ghost f0 = fresh;
                fresh.update(h);
                proof {
                    let g = choose|g: char| alphabet().contains(g) && tick_of(f0, fresh, h as int, g);
                    assert(respawned_tick(start[i as int], fresh, h as int, g));
                }
                fresh.draw_into(h, self.scheme, &mut ops);
                self.streams.set(i, fresh);
            } else {
                assert(ops@ =~= before + draw_spec(self.streams@[i as int], h as int, self.scheme));
            }
            let ghost sub = self.streams@.subrange(0, i + 1);
            assert(sub.drop_last() =~= prefix);
            assert(sub.last() == self.streams@[i as int]);
            assert(ops@ == before + draw_spec(self.streams@[i as int], h as int, self.scheme));
            i = i + 1;
        }
        assert(self.streams@.subrange(0, n as int) =~= self.streams@);
        ops
    }
}

} // verus!
