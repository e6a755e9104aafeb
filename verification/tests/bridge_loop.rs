use rtt_console::bridge::{
    key_to_byte, loopback_tick, render_byte, KeyCode, KeyEvent, KeyKind, LoopbackLink,
};
use rtt_console::ring::RingBuffer;
use rtt_console::text::{hex4, usize_to_dec};

fn press(code: KeyCode) -> Option<KeyEvent> {
    Some(KeyEvent { code, kind: KeyKind::Press })
}

#[test]
fn key_mapping_ascii_enter_tab() {
    assert_eq!(key_to_byte(KeyCode::Char('a'), KeyKind::Press), Some(0x61));
    assert_eq!(key_to_byte(KeyCode::Enter, KeyKind::Press), Some(0x0a));
    assert_eq!(key_to_byte(KeyCode::Tab, KeyKind::Press), Some(0x09));
}

#[test]
fn key_mapping_produces_nothing_for_other_keys() {
    assert_eq!(key_to_byte(KeyCode::Other, KeyKind::Press), None);
    assert_eq!(key_to_byte(KeyCode::Char('é'), KeyKind::Press), None);
    assert_eq!(key_to_byte(KeyCode::Char('→'), KeyKind::Press), None);
}

#[test]
fn key_mapping_ignores_repeat_and_release() {
    assert_eq!(key_to_byte(KeyCode::Char('a'), KeyKind::Repeat), None);
    assert_eq!(key_to_byte(KeyCode::Char('a'), KeyKind::Release), None);
    assert_eq!(key_to_byte(KeyCode::Enter, KeyKind::Release), None);
}

#[test]
fn render_ascii_prints_non_ascii_drops() {
    assert_eq!(render_byte(0x41), Some('A'));
    assert_eq!(render_byte(0x0a), Some('\n'));
    assert_eq!(render_byte(0x80), None);
    assert_eq!(render_byte(0xff), None);
}

#[test]
fn ring_round_trip_preserves_order() {
    let mut ring = RingBuffer::new(16);
    let x = [0x10u8, 0x20, 0x30, 0x40, 0x50];
    assert_eq!(ring.write(&x), 5);
    assert_eq!(ring.read(5), x.to_vec());
    assert_eq!(ring.read(1), Vec::<u8>::new());
}

#[test]
fn ring_write_is_best_effort_when_full() {
    let mut ring = RingBuffer::new(2);
    assert_eq!(ring.write(&[1, 2, 3]), 2);
    assert_eq!(ring.write(&[9]), 0);
    assert_eq!(ring.read(10), vec![1, 2]);
}

#[test]
fn ring_wraps_around_its_storage() {
    let mut ring = RingBuffer::new(3);
    assert_eq!(ring.write(&[1, 2]), 2);
    assert_eq!(ring.read(1), vec![1]);
    assert_eq!(ring.write(&[3, 4]), 2);
    assert_eq!(ring.read(10), vec![2, 3, 4]);
}

#[test]
fn ring_read_returns_at_most_what_is_asked() {
    let mut ring = RingBuffer::new(8);
    ring.write(&[1, 2, 3]);
    assert_eq!(ring.read(2), vec![1, 2]);
    assert_eq!(ring.read(2), vec![3]);
}

#[test]
fn loopback_echoes_typed_line_in_order() {
    let mut link = LoopbackLink::new(8);
    let mut output = String::new();
    for key in [press(KeyCode::Char('h')), press(KeyCode::Char('i')), Some(
        KeyEvent { code: KeyCode::Enter, kind: KeyKind::Press },
    )] {
        if let Some(c) = loopback_tick(&mut link, key) {
            output.push(c);
        }
    }
    assert_eq!(link.down_bytes(), &vec![0x68, 0x69, 0x0a]);
    assert_eq!(output, "hi\n");
}

#[test]
fn loopback_tick_without_key_prints_nothing_when_idle() {
    let mut link = LoopbackLink::new(8);
    assert_eq!(loopback_tick(&mut link, None), None);
    assert!(link.down_bytes().is_empty());
}

#[test]
fn loopback_ignores_released_keys() {
    let mut link = LoopbackLink::new(8);
    let key = Some(KeyEvent { code: KeyCode::Char('x'), kind: KeyKind::Release });
    assert_eq!(loopback_tick(&mut link, key), None);
    assert!(link.down_bytes().is_empty());
}

#[test]
fn decimal_rendering_exact() {
    assert_eq!(usize_to_dec(0), "0");
    assert_eq!(usize_to_dec(7), "7");
    assert_eq!(usize_to_dec(10), "10");
    assert_eq!(usize_to_dec(40123), "40123");
}

#[test]
fn hex_rendering_keeps_leading_zeroes() {
    assert_eq!(hex4(0x0000), "0000");
    assert_eq!(hex4(0x001a), "001a");
    assert_eq!(hex4(0xffff), "ffff");
    assert_eq!(hex4(0x1366), "1366");
}
