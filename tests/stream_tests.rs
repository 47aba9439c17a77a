use matrix_rain::scheme::{Attribute, Color, ColorScheme};
use matrix_rain::stream::{DrawOp, Stream, ALL_CHARS, MAX_STREAM_LEN, MIN_STREAM_LEN};

fn tail_row(s: &Stream) -> i64 {
    s.y as i64 - s.chars.len() as i64
}

#[test]
fn scheme_cycles_back_after_six_steps() {
    let all = [
        ColorScheme::Green,
        ColorScheme::Red,
        ColorScheme::Blue,
        ColorScheme::Yellow,
        ColorScheme::Magenta,
        ColorScheme::Cyan,
    ];
    for s in all {
        let mut t = s;
        for _ in 0..6 {
            t = t.next();
        }
        assert_eq!(t, s);
    }
    assert_eq!(ColorScheme::Green.next(), ColorScheme::Red);
    assert_eq!(ColorScheme::Cyan.next(), ColorScheme::Green);
    let mut seen = Vec::new();
    for s in all {
        let n = s.next();
        assert!(!seen.contains(&n));
        seen.push(n);
    }
}

#[test]
fn head_is_bold_white_in_every_scheme() {
    assert_eq!(ColorScheme::Red.get_colors(0, 10), (Color::White, Attribute::Bold));
    assert_eq!(ColorScheme::Cyan.get_colors(0, 1), (Color::White, Attribute::Bold));
}

#[test]
fn tail_zone_starts_past_four_tenths() {
    assert_eq!(ColorScheme::Green.get_colors(4, 10), (Color::Green, Attribute::Bold));
    assert_eq!(ColorScheme::Green.get_colors(5, 10), (Color::DarkGreen, Attribute::Dim));
    assert_eq!(ColorScheme::Blue.get_colors(2, 5), (Color::Blue, Attribute::Bold));
    assert_eq!(ColorScheme::Blue.get_colors(3, 5), (Color::DarkBlue, Attribute::Dim));
    assert_eq!(ColorScheme::Yellow.get_colors(1, 2), (Color::DarkYellow, Attribute::Dim));
    assert_eq!(ColorScheme::Magenta.get_colors(1, 3), (Color::Magenta, Attribute::Bold));
}

#[test]
fn width_one_height_ten_length_five() {
    let mut s = Stream::with_length(0, 5);
    for _ in 0..5 {
        s.update(10);
    }
    assert_eq!(s.chars.len(), 5);
    assert_eq!(s.y, 5);
    assert_eq!(tail_row(&s), 0);
    assert!(!s.is_dying);
    for _ in 0..5 {
        s.update(10);
    }
    assert_eq!(s.y, 10);
    assert_eq!(tail_row(&s), 5);
    assert!(!s.is_dying);
    for _ in 0..4 {
        s.update(10);
        assert!(!s.is_dying);
    }
    s.update(10);
    assert_eq!(tail_row(&s), 10);
    assert!(s.is_dying);
    assert!(s.draw_ops(10, ColorScheme::Green).is_empty());
}

#[test]
fn window_never_exceeds_length() {
    let mut s = Stream::with_length(3, 7);
    for _ in 0..40 {
        s.update(30);
        assert!(s.chars.len() <= 7);
    }
}

#[test]
fn dying_stream_stays_silent() {
    let mut s = Stream::dormant(4);
    s.update(10);
    assert!(s.is_dying);
    assert_eq!(s.y, 0);
    assert!(s.chars.is_empty());
    assert!(s.draw_ops(10, ColorScheme::Red).is_empty());
}

#[test]
fn fresh_stream_draws_no_glyph() {
    let s = Stream::with_length(1, 5);
    let ops = s.draw_ops(10, ColorScheme::Green);
    assert!(ops.iter().all(|op| matches!(op, DrawOp::Erase { .. })));
}

#[test]
fn draw_ops_paint_head_body_and_erase() {
    let mut s = Stream::with_length(2, 5);
    s.update_with(10, 'x');
    s.update_with(10, 'y');
    let ops = s.draw_ops(10, ColorScheme::Green);
    assert_eq!(
        ops,
        vec![
            DrawOp::Glyph { col: 2, row: 2, ch: 'y', color: Color::White, attr: Attribute::Bold },
            DrawOp::Glyph { col: 2, row: 1, ch: 'x', color: Color::DarkGreen, attr: Attribute::Dim },
            DrawOp::Erase { col: 2, row: 0 },
        ]
    );
}

#[test]
fn off_screen_glyphs_are_skipped() {
    let mut s = Stream::with_length(0, 5);
    for c in ['a', 'b', 'c', 'd'] {
        s.update_with(3, c);
    }
    assert!(!s.is_dying);
    let ops = s.draw_ops(3, ColorScheme::Cyan);
    assert_eq!(
        ops,
        vec![
            DrawOp::Glyph { col: 0, row: 2, ch: 'b', color: Color::DarkCyan, attr: Attribute::Dim },
            DrawOp::Glyph { col: 0, row: 1, ch: 'a', color: Color::DarkCyan, attr: Attribute::Dim },
            DrawOp::Erase { col: 0, row: 0 },
        ]
    );
}

#[test]
fn erase_follows_the_evicted_tail() {
    let mut s = Stream::with_length(3, 3);
    for c in ['a', 'b', 'c'] {
        s.update_with(24, c);
    }
    assert_eq!(tail_row(&s), 0);
    s.update_with(24, 'd');
    assert_eq!(s.chars.iter().copied().collect::<Vec<char>>(), vec!['d', 'c', 'b']);
    let ops = s.draw_ops(24, ColorScheme::Green);
    assert_eq!(ops.len(), 4);
    assert_eq!(ops[3], DrawOp::Erase { col: 3, row: 1 });
}

#[test]
fn erase_is_dropped_once_tail_leaves_the_screen() {
    let mut s = Stream::with_length(0, 0);
    s.update_with(2, 'a');
    assert_eq!(s.draw_ops(2, ColorScheme::Green), vec![DrawOp::Erase { col: 0, row: 1 }]);
    s.update_with(2, 'a');
    assert!(s.is_dying);
    assert!(s.draw_ops(2, ColorScheme::Green).is_empty());
}

#[test]
fn new_stream_length_in_range() {
    for c in 0..200u16 {
        let s = Stream::new(c);
        assert_eq!(s.col, c);
        assert_eq!(s.y, 0);
        assert!(s.chars.is_empty());
        assert!(!s.is_dying);
        assert!(s.max_len >= MIN_STREAM_LEN && s.max_len <= MAX_STREAM_LEN);
    }
}

#[test]
fn new_glyphs_come_from_the_alphabet() {
    let mut seen = std::collections::HashSet::new();
    for _ in 0..200 {
        let mut s = Stream::with_length(0, 5);
        s.update(10);
        let g = s.chars[0];
        assert!(ALL_CHARS.contains(g));
        seen.insert(g);
    }
    assert!(seen.len() > 1);
}
