use lan_chat::editor::Editor;
use lan_chat::input::InputBuffer;
use lan_chat::outbound::OutboundQueue;
use lan_chat::peer::PeerFeed;
use lan_chat::region::Region;
use lan_chat::render::{pad_to_border, peer_message, render_frame, scroll_redraw, trim_trailing};
use lan_chat::session::Key;

fn chars(s: &str) -> Vec<char> {
    s.chars().collect()
}

#[test]
fn advance_one_row_for_short_line() {
    let region = Region::new(74, 30);
    let p = region.place(1, 5);
    assert_eq!(p.row, 1);
    assert_eq!(p.next, 2);
    assert!(!p.scrolled);
}

#[test]
fn advance_follows_row_span_formula() {
    let region = Region::new(74, 30);
    // L < WIDTH: one row
    assert_eq!(region.place(1, 73).next, 2);
    // L == WIDTH: the general formula gives two rows
    assert_eq!(region.place(1, 74).next, 3);
    // L == 2*WIDTH - 1: still two rows
    assert_eq!(region.place(1, 147).next, 3);
    // L == 2*WIDTH: three rows
    assert_eq!(region.place(1, 148).next, 4);
    // generally: 1 + floor(L / WIDTH)
    assert_eq!(region.place(1, 370).next, 1 + 1 + 370 / 74);
}

#[test]
fn scroll_triggers_exactly_at_overflow() {
    let region = Region::new(74, 30);
    // next row would be 31 > 30: scroll, cursor clamped to the bottom
    let p = region.place(30, 5);
    assert!(p.scrolled);
    assert_eq!(p.row, 30);
    assert_eq!(p.next, 30);
    assert_eq!(p.propagated(), None);
    // next row is exactly 30: no scroll
    let q = region.place(29, 5);
    assert!(!q.scrolled);
    assert_eq!(q.next, 30);
    assert_eq!(q.propagated(), Some(30));
}

#[test]
fn frame_border_is_intact() {
    let frame = render_frame(74, 30);
    assert_eq!(frame.len(), 30 + 7);
    for line in &frame {
        assert_eq!(line.len(), 74);
    }
    let top: String = frame[0].iter().collect();
    assert!(top.starts_with("\u{250f}\u{2501}\u{2501}LAN-Chat"));
    assert!(top.ends_with('\u{2513}'));
    for i in 1..=30 {
        assert_eq!(frame[i][0], '\u{2503}');
        assert_eq!(frame[i][73], '\u{2503}');
    }
    assert_eq!(frame[31][0], '\u{2517}');
    assert_eq!(frame[31][73], '\u{251b}');
    let caption: String = frame[32].iter().collect();
    assert!(caption.starts_with("\u{250f}\u{2501}\u{2501}Enter Message:"));
    assert_eq!(frame[36][0], '\u{2517}');
}

#[test]
fn input_buffer_never_exceeds_capacity() {
    let mut b = InputBuffer::new();
    for _ in 0..300 {
        b.push_char('x');
    }
    assert_eq!(b.len(), 128);
}

#[test]
fn backspace_on_empty_buffer_is_noop() {
    let mut b = InputBuffer::new();
    assert!(!b.backspace());
    assert_eq!(b.len(), 0);
    b.push_char('a');
    assert!(b.backspace());
    assert_eq!(b.len(), 0);
}

#[test]
fn enter_commits_one_line_and_clears_buffer() {
    let region = Region::new(74, 30);
    let mut ed = Editor::new(region);
    let mut q = OutboundQueue::new();
    for c in "abc".chars() {
        ed.tick(&mut q, None, Some(Key::Char(c)));
    }
    assert_eq!(q.len(), 0);
    let t = ed.tick(&mut q, None, Some(Key::Enter));
    assert!(!t.end_session);
    assert_eq!(q.len(), 1);
    assert_eq!(q.pop_front(), Some(chars("abc\n")));
    assert_eq!(ed.buffer.len(), 0);
    // a second enter on the now-empty buffer enqueues nothing
    let t2 = ed.tick(&mut q, None, Some(Key::Enter));
    assert_eq!(q.len(), 0);
    assert!(t2.committed.is_none());
}

#[test]
fn cursor_update_is_authoritative_for_the_tick() {
    let region = Region::new(74, 30);
    let mut ed = Editor::new(region);
    let mut q = OutboundQueue::new();
    ed.tick(&mut q, None, Some(Key::Char('z')));
    // the update received this tick decides where the commit renders
    let t = ed.tick(&mut q, Some(7), Some(Key::Enter));
    let c = t.committed.expect("commit renders a line");
    assert_eq!(c.place.row, 7);
    assert_eq!(ed.cursor, 8);
}

#[test]
fn peer_hello_renders_at_row_one_and_propagates_two() {
    let region = Region::new(74, 30);
    let mut peer = PeerFeed::new(region, chars("A"));
    let mut q = OutboundQueue::new();
    let t = peer.tick(&mut q, None, Some(chars("hello\n")));
    let r = t.rendered.expect("a complete line renders");
    assert_eq!(r.place.row, 1);
    assert!(!r.place.scrolled);
    let text: String = r.text.iter().collect();
    assert_eq!(text, "\u{1b}[93mA\u{1b}[0m: hello");
    assert_eq!(peer.cursor, 2);
    // the advanced cursor is handed to the local side...
    let sent = r.propagate();
    assert_eq!(sent, Some(2));
    // ...whose next receive adopts it
    let mut ed = Editor::new(region);
    ed.tick(&mut q, sent, None);
    assert_eq!(ed.cursor, 2);
}

#[test]
fn peer_span_counts_visible_columns_only() {
    let region = Region::new(74, 30);
    let mut peer = PeerFeed::new(region, chars("A"));
    let mut q = OutboundQueue::new();
    // tag "A: " plus 62 characters is 65 visible columns: one row,
    // though the escape-bearing message holds 74 characters
    let text: String = "x".repeat(62) + "\n";
    let t = peer.tick(&mut q, None, Some(chars(&text)));
    let r = t.rendered.expect("a complete line renders");
    assert_eq!(r.text.len(), 74);
    assert!(!r.place.scrolled);
    assert_eq!(r.place.next, 2);
    // one more visible column spans two rows
    let mut peer2 = PeerFeed::new(region, chars("A"));
    let text2: String = "x".repeat(71) + "\n";
    let t2 = peer2.tick(&mut q, None, Some(chars(&text2)));
    assert_eq!(t2.rendered.unwrap().place.next, 3);
}

#[test]
fn scrolled_peer_line_fills_visible_columns_to_the_border() {
    let region = Region::new(74, 1);
    let mut peer = PeerFeed::new(region, chars("A"));
    let mut q = OutboundQueue::new();
    let t = peer.tick(&mut q, None, Some(chars("hi\n")));
    let r = t.rendered.expect("a complete line renders");
    assert!(r.place.scrolled);
    // "A: hi" is 5 visible columns; the padding brings the visible
    // width to exactly 70 — the 9 escape characters occupy none
    assert_eq!(r.text.len() - 9, 70);
    assert!(r.text.ends_with(&[' ']));
}

#[test]
fn scroll_redraw_rewrites_borders_only() {
    let redraw = scroll_redraw(74);
    let top: String = redraw.top.iter().collect();
    assert!(top.starts_with("\u{250f}\u{2501}\u{2501}LAN-Chat"));
    assert_eq!(redraw.top.len(), 74);
    // region rows get exactly one character per border cell: nothing
    // is written over the messages between them
    assert_eq!(redraw.side, '\u{2503}');
    assert_eq!(redraw.bottom.len(), 74);
    assert_eq!(redraw.bottom[0], '\u{2517}');
    assert_eq!(redraw.bottom[73], '\u{251b}');
    let caption: String = redraw.input_top.iter().collect();
    assert!(caption.starts_with("\u{250f}\u{2501}\u{2501}Enter Message:"));
}

#[test]
fn region_fills_then_scrolls_with_message_at_bottom() {
    let region = Region::new(74, 30);
    let mut ed = Editor::new(region);
    let mut q = OutboundQueue::new();
    let mut commits = Vec::new();
    for _ in 0..31 {
        ed.tick(&mut q, None, Some(Key::Char('m')));
        let t = ed.tick(&mut q, None, Some(Key::Enter));
        commits.push(t.committed.expect("each enter commits"));
    }
    // the first 29 one-row messages fill rows 1..=29 without a scroll
    for (i, c) in commits.iter().take(29).enumerate() {
        assert!(!c.place.scrolled);
        assert_eq!(c.place.row, (i + 1) as u16);
    }
    // the 30th, drawn at the bottom row, already pushes the computed
    // next row past the height and so scrolls — the advance formula
    // decides, not the message count
    assert!(commits[29].place.scrolled);
    assert_eq!(commits[29].place.row, 30);
    // the 31st message triggers exactly one scroll and sits on the
    // bottom row, the cursor stays clamped to the height
    let last = &commits[30];
    assert!(last.place.scrolled);
    assert_eq!(last.place.row, 30);
    assert_eq!(last.place.next, 30);
    assert_eq!(ed.cursor, 30);
    // a scrolled line is padded out to the border
    assert!(last.text.len() >= 70);
    assert!(last.text.ends_with(&[' ']));
}

#[test]
fn escape_ends_session_without_flushing() {
    let region = Region::new(74, 30);
    let mut ed = Editor::new(region);
    let mut q = OutboundQueue::new();
    for c in "draft".chars() {
        ed.tick(&mut q, None, Some(Key::Char(c)));
    }
    let t = ed.tick(&mut q, None, Some(Key::Escape));
    assert!(t.end_session);
    assert_eq!(q.len(), 0);
    assert_eq!(ed.buffer.len(), 5);
}

#[test]
fn peer_message_trims_name_padding_and_line_whitespace() {
    let msg = peer_message(&chars("bob\u{0}\u{0}\u{0}"), &chars("hi there \r\n"));
    let text: String = msg.iter().collect();
    assert_eq!(text, "\u{1b}[93mbob\u{1b}[0m: hi there");
}

#[test]
fn trim_trailing_strips_only_the_tail() {
    assert_eq!(trim_trailing(&chars(" a b \t\r\n")), chars(" a b"));
    assert_eq!(trim_trailing(&chars("")), chars(""));
    assert_eq!(trim_trailing(&chars("\n\n")), chars(""));
    assert_eq!(trim_trailing(&chars("x")), chars("x"));
}

#[test]
fn padding_fills_exactly_to_the_border() {
    let padded = pad_to_border(&chars("ab"), 2, 10);
    assert_eq!(padded, chars("ab    "));
    // a line already past the fill width is left alone
    let long = pad_to_border(&chars("abcdefgh"), 8, 10);
    assert_eq!(long, chars("abcdefgh"));
    // only the visible width counts: invisible characters get the
    // same padding as if they were absent
    let unseen = pad_to_border(&chars("\u{1b}[93mab"), 2, 10);
    assert_eq!(unseen, chars("\u{1b}[93mab    "));
}

#[test]
fn input_window_shows_the_trailing_characters() {
    let mut b = InputBuffer::new();
    for i in 0..80u32 {
        b.push_char(char::from_u32(('a' as u32) + (i % 26)).unwrap());
    }
    let w = b.visible_window(74);
    assert_eq!(w.len(), 70);
    // the first 10 characters have slid out of view
    assert_eq!(w[0], char::from_u32(('a' as u32) + 10).unwrap());
}

#[test]
fn outbound_queue_is_first_in_first_out() {
    let mut q = OutboundQueue::new();
    q.push_back(chars("one\n"));
    q.push_back(chars("two\n"));
    assert_eq!(q.len(), 2);
    assert_eq!(q.pop_front(), Some(chars("one\n")));
    assert_eq!(q.pop_front(), Some(chars("two\n")));
    assert_eq!(q.pop_front(), None);
}

#[test]
fn peer_tick_drains_one_outbound_line() {
    let region = Region::new(74, 30);
    let mut peer = PeerFeed::new(region, chars("A"));
    let mut q = OutboundQueue::new();
    q.push_back(chars("out\n"));
    q.push_back(chars("later\n"));
    let t = peer.tick(&mut q, None, None);
    assert!(t.rendered.is_none());
    assert_eq!(t.transmit, Some(chars("out\n")));
    assert_eq!(q.len(), 1);
}

#[test]
fn ignored_keys_change_nothing() {
    let region = Region::new(74, 30);
    let mut ed = Editor::new(region);
    let mut q = OutboundQueue::new();
    let t = ed.tick(&mut q, None, Some(Key::Other));
    assert!(!t.end_session);
    assert!(t.redraw_input.is_none());
    assert!(!t.erase_one);
    assert!(t.committed.is_none());
    assert_eq!(ed.buffer.len(), 0);
}

#[test]
fn typing_redraws_the_window_and_backspace_erases() {
    let region = Region::new(74, 30);
    let mut ed = Editor::new(region);
    let mut q = OutboundQueue::new();
    let t = ed.tick(&mut q, None, Some(Key::Char('a')));
    assert_eq!(t.redraw_input, Some(chars("a")));
    let t2 = ed.tick(&mut q, None, Some(Key::Backspace));
    assert!(t2.erase_one);
    let t3 = ed.tick(&mut q, None, Some(Key::Backspace));
    assert!(!t3.erase_one);
}
