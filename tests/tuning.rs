use vco::{companion_low, encoder_edge, FINE_TUNE_STEP};

const B: u32 = 1 << 11;

#[test]
fn companion_channel_bit() {
    assert!(companion_low(0));
    assert!(!companion_low(B));
    assert!(companion_low(!B));
    assert!(!companion_low(u32::MAX));
    assert!(companion_low(1 << 10));
}

#[test]
fn edge_with_companion_low_increments() {
    assert_eq!(encoder_edge(0, 0), FINE_TUNE_STEP);
    assert_eq!(encoder_edge(-7, 1 << 10), -5);
    assert_eq!(encoder_edge(100, 0), 102);
}

#[test]
fn edge_with_companion_high_decrements() {
    assert_eq!(encoder_edge(0, B), -FINE_TUNE_STEP);
    assert_eq!(encoder_edge(100, B | 1), 98);
}

#[test]
fn alternating_edges_restore_offset() {
    for o in [0i16, 5, -300, i16::MAX, i16::MIN, i16::MAX - 1] {
        assert_eq!(encoder_edge(encoder_edge(o, 0), B), o);
        assert_eq!(encoder_edge(encoder_edge(o, B), 0), o);
    }
}

#[test]
fn offset_wraps_at_the_ends() {
    assert_eq!(encoder_edge(i16::MAX, 0), i16::MIN + 1);
    assert_eq!(encoder_edge(i16::MIN, B), i16::MAX - 1);
}
