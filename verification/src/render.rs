//! Text content of everything the chat session draws: the bordered
//! frame, the formatted peer message with its colored sender tag, the
//! local echo line, and the padding a scrolled line receives.
//!
//! Every function here returns the characters to draw; the surrounding
//! program only moves the terminal cursor and prints them.

use vstd::prelude::*;

verus! {

/// `n` copies of `c`.
pub open spec fn repeated(c: char, n: nat) -> Seq<char> {
    Seq::new(n, |i: int| c)
}

/// Characters that are stripped from the end of an incoming line or a
/// peer name before rendering: whitespace and the padding bytes of the
/// name handshake.
pub open spec fn is_trailing_junk(c: char) -> bool {
    c == ' ' || c == '\t' || c == '\r' || c == '\n' || c == '\u{0}'
}

/// Length of `s` once trailing whitespace and padding are stripped.
pub open spec fn trimmed_len(s: Seq<char>) -> nat
    decreases s.len(),
{
    if s.len() == 0 {
        0
    } else if is_trailing_junk(s.last()) {
        trimmed_len(s.drop_last())
    } else {
        s.len()
    }
}

/// `s` without its trailing whitespace and padding.
pub open spec fn trim_trailing_spec(s: Seq<char>) -> Seq<char> {
    s.take(trimmed_len(s) as int)
}

/// Build `n` copies of `c`.
pub fn repeat_char(c: char, n: usize) -> (v: Vec<char>)
    ensures
        v@ == repeated(c, n as nat),
{
    let mut v: Vec<char> = Vec::new();
    let mut i: usize = 0;
    while i < n
        invariant
            i <= n,
            v@ =~= repeated(c, i as nat),
        decreases n - i,
    {
        v.push(c);
        i = i + 1;
    }
    assert(v@ =~= repeated(c, n as nat));
    v
}

/// Copy of `s` with trailing whitespace and handshake padding removed.
pub fn trim_trailing(s: &Vec<char>) -> (r: Vec<char>)
    ensures
        r@ == trim_trailing_spec(s@),
{
    let mut n: usize = s.len();
    assert(s@.take(n as int) =~= s@);
    while n > 0 && (s[n - 1] == ' ' || s[n - 1] == '\t' || s[n - 1] == '\r' || s[n - 1] == '\n'
        || s[n - 1] == '\u{0}')
        invariant
            n <= s@.len(),
            trimmed_len(s@) == trimmed_len(s@.take(n as int)),
        decreases n,
    {
        assert(s@.take(n as int).last() == s@[n - 1]);
        assert(s@.take(n as int).drop_last() =~= s@.take(n - 1));
        n = n - 1;
    }
    proof {
        let t = s@.take(n as int);
        if n > 0 {
            assert(t.last() == s@[n - 1]);
            assert(trimmed_len(t) == t.len());
        }
        assert(trimmed_len(s@) == n);
    }
    let mut r: Vec<char> = Vec::new();
    let mut i: usize = 0;
    while i < n
        invariant
            i <= n <= s@.len(),
            r@ =~= s@.take(i as int),
        decreases n - i,
    {
        r.push(s[i]);
        i = i + 1;
    }
    assert(r@ =~= trim_trailing_spec(s@));
    r
}

/// Append every character of `src` to `dst`.
pub fn append_all(dst: &mut Vec<char>, src: &Vec<char>)
    ensures
        final(dst)@ == old(dst)@ + src@,
{
    let mut i: usize = 0;
    while i < src.len()
        invariant
            i <= src@.len(),
            dst@ =~= old(dst)@ + src@.take(i as int),
        decreases src@.len() - i,
    {
        dst.push(src[i]);
        i = i + 1;
    }
    assert(dst@ =~= old(dst)@ + src@);
}

/// The color escape that opens a peer's sender tag.
pub open spec fn tag_open_spec() -> Seq<char> {
    seq!['\u{1b}', '[', '9', '3', 'm']
}

/// The escape that resets the color after the tag.
pub open spec fn tag_close_spec() -> Seq<char> {
    seq!['\u{1b}', '[', '0', 'm']
}

/// A peer line as it is rendered: the peer's name in color, a
/// separating colon, and the line with trailing whitespace stripped.
pub open spec fn peer_message_spec(name: Seq<char>, line: Seq<char>) -> Seq<char> {
    tag_open_spec() + trim_trailing_spec(name) + tag_close_spec() + seq![':', ' ']
        + trim_trailing_spec(line)
}

/// Number of terminal columns a rendered peer message occupies. The
/// SGR escapes around the sender tag occupy none, so only the trimmed
/// name, the separating colon and space, and the trimmed text count.
pub open spec fn peer_visible_len_spec(name: Seq<char>, line: Seq<char>) -> nat {
    trim_trailing_spec(name).len() + 2 + trim_trailing_spec(line).len()
}

/// A committed local line as it is echoed into the region.
pub open spec fn local_echo_spec(line: Seq<char>) -> Seq<char> {
    seq!['>', ' '] + line
}

/// A line as the scroll policy draws it: padded with trailing spaces
/// until its visible width — it occupies `visible` columns; color
/// escapes occupy none — fills the region exactly to the right border.
pub open spec fn padded_spec(s: Seq<char>, visible: nat, width: nat) -> Seq<char>
    recommends
        width >= 4,
        visible <= s.len(),
{
    if visible < width - 4 {
        s + repeated(' ', (width - 4 - visible) as nat)
    } else {
        s
    }
}

/// What a placed line looks like on screen: padded to the border when
/// the scroll policy ran, the bare text otherwise. `visible` is the
/// number of columns the text occupies.
pub open spec fn scroll_text_spec(text: Seq<char>, visible: nat, width: nat, scrolled: bool) -> Seq<
    char,
>
    recommends
        width >= 4,
        visible <= text.len(),
{
    if scrolled {
        padded_spec(text, visible, width)
    } else {
        text
    }
}

/// Format an incoming peer line for rendering: colored trimmed name
/// tag, colon, trimmed text. The nine characters of the two color
/// escapes are part of the text but occupy no columns, so the message
/// is nine characters longer than its visible width.
pub fn peer_message(name: &Vec<char>, line: &Vec<char>) -> (r: Vec<char>)
    ensures
        r@ == peer_message_spec(name@, line@),
        r@.len() == peer_visible_len_spec(name@, line@) + 9,
{
    let mut r: Vec<char> = Vec::new();
    r.push('\u{1b}');
    r.push('[');
    r.push('9');
    r.push('3');
    r.push('m');
    let trimmed_name = trim_trailing(name);
    append_all(&mut r, &trimmed_name);
    r.push('\u{1b}');
    r.push('[');
    r.push('0');
    r.push('m');
    r.push(':');
    r.push(' ');
    let trimmed_line = trim_trailing(line);
    append_all(&mut r, &trimmed_line);
    assert(r@ =~= peer_message_spec(name@, line@));
    r
}

/// Format a committed local line for its echo into the region.
pub fn local_echo(line: &Vec<char>) -> (r: Vec<char>)
    ensures
        r@ == local_echo_spec(line@),
{
    let mut r: Vec<char> = Vec::new();
    r.push('>');
    r.push(' ');
    append_all(&mut r, line);
    assert(r@ =~= local_echo_spec(line@));
    r
}

/// Pad a line with trailing spaces until its visible width — it
/// occupies `visible` columns on screen — reaches the region's right
/// border, as the scroll policy requires before the one-line scroll.
pub fn pad_to_border(text: &Vec<char>, visible: usize, width: u16) -> (r: Vec<char>)
    requires
        width >= 4,
        visible <= text@.len(),
    ensures
        r@ == padded_spec(text@, visible as nat, width as nat),
        r@.len() >= text@.len(),
        r@.take(text@.len() as int) == text@,
{
    let mut r: Vec<char> = Vec::new();
    append_all(&mut r, text);
    let target: usize = (width - 4) as usize;
    let pad: usize = if visible < target {
        target - visible
    } else {
        0
    };
    let mut i: usize = 0;
    while i < pad
        invariant
            i <= pad,
            r@ =~= text@ + repeated(' ', i as nat),
        decreases pad - i,
    {
        r.push(' ');
        i = i + 1;
        assert(r@ =~= text@ + repeated(' ', i as nat));
    }
    assert(r@ =~= padded_spec(text@, visible as nat, width as nat));
    assert(r@.take(text@.len() as int) =~= text@);
    r
}

/// The region's top border with its caption.
pub open spec fn top_border_spec(width: nat) -> Seq<char>
    recommends
        width >= 12,
{
    seq!['\u{250f}', '\u{2501}', '\u{2501}', 'L', 'A', 'N', '-', 'C', 'h', 'a', 't'] + repeated(
        '\u{2501}',
        (width - 12) as nat,
    ) + seq!['\u{2513}']
}

/// An interior row: side borders with blank space between.
pub open spec fn blank_row_spec(width: nat) -> Seq<char>
    recommends
        width >= 2,
{
    seq!['\u{2503}'] + repeated(' ', (width - 2) as nat) + seq!['\u{2503}']
}

/// A bottom border, closing the region or the input box.
pub open spec fn bottom_border_spec(width: nat) -> Seq<char>
    recommends
        width >= 2,
{
    seq!['\u{2517}'] + repeated('\u{2501}', (width - 2) as nat) + seq!['\u{251b}']
}

/// The input box's top border with its caption.
pub open spec fn input_border_spec(width: nat) -> Seq<char>
    recommends
        width >= 18,
{
    seq!['\u{250f}', '\u{2501}', '\u{2501}', 'E', 'n', 't', 'e', 'r', ' ', 'M', 'e', 's', 's', 'a', 'g', 'e', ':']
        + repeated('\u{2501}', (width - 18) as nat) + seq!['\u{2513}']
}

/// The whole frame, top to bottom: the chat region (top border,
/// `height` blank rows, bottom border) and under it the input box (its
/// caption border, three blank rows, bottom border).
pub open spec fn frame_spec(width: nat, height: nat) -> Seq<Seq<char>>
    recommends
        width >= 18,
{
    seq![top_border_spec(width)] + Seq::new(height, |i: int| blank_row_spec(width)) + seq![
        bottom_border_spec(width),
        input_border_spec(width),
    ] + Seq::new(3, |i: int| blank_row_spec(width)) + seq![bottom_border_spec(width)]
}

/// Build the region's top border.
pub fn top_border(width: u16) -> (r: Vec<char>)
    requires
        width >= 12,
    ensures
        r@ == top_border_spec(width as nat),
{
    let mut r: Vec<char> = Vec::new();
    r.push('\u{250f}');
    r.push('\u{2501}');
    r.push('\u{2501}');
    r.push('L');
    r.push('A');
    r.push('N');
    r.push('-');
    r.push('C');
    r.push('h');
    r.push('a');
    r.push('t');
    let fill = repeat_char('\u{2501}', (width - 12) as usize);
    append_all(&mut r, &fill);
    r.push('\u{2513}');
    assert(r@ =~= top_border_spec(width as nat));
    r
}

/// Build an interior row: side borders with blank space between.
pub fn blank_row(width: u16) -> (r: Vec<char>)
    requires
        width >= 2,
    ensures
        r@ == blank_row_spec(width as nat),
{
    let mut r: Vec<char> = Vec::new();
    r.push('\u{2503}');
    let fill = repeat_char(' ', (width - 2) as usize);
    append_all(&mut r, &fill);
    r.push('\u{2503}');
    assert(r@ =~= blank_row_spec(width as nat));
    r
}

/// Build a bottom border.
pub fn bottom_border(width: u16) -> (r: Vec<char>)
    requires
        width >= 2,
    ensures
        r@ == bottom_border_spec(width as nat),
{
    let mut r: Vec<char> = Vec::new();
    r.push('\u{2517}');
    let fill = repeat_char('\u{2501}', (width - 2) as usize);
    append_all(&mut r, &fill);
    r.push('\u{251b}');
    assert(r@ =~= bottom_border_spec(width as nat));
    r
}

/// Build the input box's top border.
pub fn input_border(width: u16) -> (r: Vec<char>)
    requires
        width >= 18,
    ensures
        r@ == input_border_spec(width as nat),
{
    let mut r: Vec<char> = Vec::new();
    r.push('\u{250f}');
    r.push('\u{2501}');
    r.push('\u{2501}');
    r.push('E');
    r.push('n');
    r.push('t');
    r.push('e');
    r.push('r');
    r.push(' ');
    r.push('M');
    r.push('e');
    r.push('s');
    r.push('s');
    r.push('a');
    r.push('g');
    r.push('e');
    r.push(':');
    let fill = repeat_char('\u{2501}', (width - 18) as usize);
    append_all(&mut r, &fill);
    r.push('\u{2513}');
    assert(r@ =~= input_border_spec(width as nat));
    r
}

/// Build the whole frame, line by line, exactly as `frame_spec` lays
/// it out. Drawn once when the session starts and again after every
/// scroll.
pub fn render_frame(width: u16, height: u16) -> (r: Vec<Vec<char>>)
    requires
        width >= 18,
    ensures
        r@.len() == height + 7,
        forall|i: int|
            0 <= i < r@.len() ==> r@[i]@ == frame_spec(width as nat, height as nat)[i],
{
    let ghost fs = frame_spec(width as nat, height as nat);
    let mut r: Vec<Vec<char>> = Vec::new();
    r.push(top_border(width));
    let mut i: usize = 0;
    while i < height as usize
        invariant
            i <= height,
            width >= 18,
            r@.len() == i + 1,
            fs == frame_spec(width as nat, height as nat),
            forall|j: int| 0 <= j < r@.len() ==> r@[j]@ == fs[j],
        decreases height - i,
    {
        r.push(blank_row(width));
        i = i + 1;
    }
    r.push(bottom_border(width));
    r.push(input_border(width));
    r.push(blank_row(width));
    r.push(blank_row(width));
    r.push(blank_row(width));
    r.push(bottom_border(width));
    r
}

/// The frame redraw after a scroll. The scroll shifted the borders'
/// on-screen position, so the border lines are rewritten — but the
/// region's interior holds the messages the scroll shifted, so on each
/// region row only the two side-border cells are written, at column 0
/// and at column `width - 1`, and every interior column is left
/// unwritten. The input box's rows are treated the same way, keeping
/// the line under composition. The full `render_frame` is only for the
/// initial draw, when the interior is genuinely blank.
pub struct ScrollRedraw {
    /// The region's top border, written in full: it holds no text.
    pub top: Vec<char>,
    /// Written at column 0 and at column `width - 1` of each region
    /// row and of each input row; nothing else is written on those
    /// rows.
    pub side: char,
    /// A bottom border, written in full: once under the region and
    /// once under the input box.
    pub bottom: Vec<char>,
    /// The input box's top border, written in full.
    pub input_top: Vec<char>,
}

/// Build the border-only frame redraw that follows a scroll. The side
/// cell is exactly the border character an interior row carries at
/// each edge.
pub fn scroll_redraw(width: u16) -> (r: ScrollRedraw)
    requires
        width >= 18,
    ensures
        r.top@ == top_border_spec(width as nat),
        r.side == blank_row_spec(width as nat).first(),
        r.side == blank_row_spec(width as nat).last(),
        r.bottom@ == bottom_border_spec(width as nat),
        r.input_top@ == input_border_spec(width as nat),
{
    ScrollRedraw {
        top: top_border(width),
        side: '\u{2503}',
        bottom: bottom_border(width),
        input_top: input_border(width),
    }
}

/// After a scroll, the redrawn frame's border is intact: every line is
/// exactly `width` characters, the region's top and bottom lines are
/// full border runs, and every interior row carries a side border at
/// each edge.
pub proof fn lemma_frame_border_intact(width: nat, height: nat)
    requires
        width >= 18,
    ensures
        frame_spec(width, height).len() == height + 7,
        forall|i: int|
            0 <= i < height + 7 ==> #[trigger] frame_spec(width, height)[i].len() == width,
        frame_spec(width, height)[0].first() == '\u{250f}',
        frame_spec(width, height)[0].last() == '\u{2513}',
        forall|i: int|
            1 <= i <= height ==> #[trigger] frame_spec(width, height)[i].first() == '\u{2503}'
                && frame_spec(width, height)[i].last() == '\u{2503}',
        frame_spec(width, height)[height as int + 1].first() == '\u{2517}',
        frame_spec(width, height)[height as int + 1].last() == '\u{251b}',
{
    let fs = frame_spec(width, height);
    assert(top_border_spec(width).len() == width);
    assert(blank_row_spec(width).len() == width);
    assert(bottom_border_spec(width).len() == width);
    assert(input_border_spec(width).len() == width);
    assert forall|i: int| 0 <= i < height + 7 implies #[trigger] fs[i].len() == width by {
        if 1 <= i <= height {
            assert(fs[i] == blank_row_spec(width));
        } else if i == height + 1 || i == height + 6 {
            assert(fs[i] == bottom_border_spec(width));
        } else if i == height + 2 {
            assert(fs[i] == input_border_spec(width));
        } else if i > height + 2 {
            assert(fs[i] == blank_row_spec(width));
        }
    }
    assert forall|i: int|
        1 <= i <= height implies #[trigger] fs[i].first() == '\u{2503}' && fs[i].last()
        == '\u{2503}' by {
        assert(fs[i] == blank_row_spec(width));
    }
    assert(fs[height as int + 1] == bottom_border_spec(width));
}

} // verus!
