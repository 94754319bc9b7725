use media_controller::ir_remote_monitor::{get_button_mapping, IrDecoder, PairSpan, RemoteButton};

/// The spans read at the 66 edges of a NEC frame for `code`: a leader pair, then 32 bit
/// pairs, most significant bit first. Only the second edge of a pair is read.
fn frame_spans(code: u32) -> Vec<PairSpan> {
    let mut spans = vec![PairSpan::Other, PairSpan::Leader];
    for i in (0..32).rev() {
        let bit = (code >> i) & 1;
        spans.push(PairSpan::Bit0);
        spans.push(if bit == 1 { PairSpan::Bit1 } else { PairSpan::Bit0 });
    }
    spans
}

fn feed(dec: &mut IrDecoder, spans: &[PairSpan]) -> Vec<Option<RemoteButton>> {
    let mapping = get_button_mapping();
    spans.iter().map(|&s| dec.on_edge(s, &mapping)).collect()
}

#[test]
fn mapping_has_all_buttons() {
    let m = get_button_mapping();
    assert_eq!(m.len(), 17);
    assert_eq!(m.get(&0xff9867), Some(&RemoteButton::Number(0)));
    assert_eq!(m.get(&0xff906f), Some(&RemoteButton::Number(9)));
    assert_eq!(m.get(&0xff38c7), Some(&RemoteButton::OkKey));
    assert_eq!(m.get(&0xff6897), Some(&RemoteButton::Star));
    assert_eq!(m.get(&0xffb04f), Some(&RemoteButton::Hash));
    assert_eq!(m.get(&0xff10ef), Some(&RemoteButton::Left));
    assert_eq!(m.get(&0xff5aa5), Some(&RemoteButton::Right));
    assert_eq!(m.get(&0xff18e7), Some(&RemoteButton::Up));
    assert_eq!(m.get(&0xff4ab5), Some(&RemoteButton::Down));
    assert_eq!(m.get(&0x12345678), None);
}

#[test]
fn new_decoder_is_idle() {
    let d = IrDecoder::new();
    assert_eq!((d.edges_read, d.bits_read, d.ir_value), (0, 0, 0));
}

#[test]
fn frame_for_ok_button_is_decoded() {
    let mut d = IrDecoder::new();
    // two lone edges close a pair whose span is too long to mean anything, and leave the
    // decoder at the start of a pair
    let mut all = vec![PairSpan::Other, PairSpan::Other];
    all.extend(frame_spans(0xff38c7));
    let out = feed(&mut d, &all);
    assert_eq!(out.len(), 68);
    assert!(out[..67].iter().all(|o| o.is_none()));
    assert_eq!(out[67], Some(RemoteButton::OkKey));
    assert_eq!(d.ir_value, 0xff38c7);
    assert_eq!(d.bits_read, 32);
    assert_eq!(d.edges_read, 0);
}

#[test]
fn overflow_check() {
    let d = IrDecoder { edges_read: 1, bits_read: i32::MAX, ir_value: 0 };
    assert!(d.would_overflow(PairSpan::Bit0));
    assert!(d.would_overflow(PairSpan::Bit1));
    assert!(!d.would_overflow(PairSpan::Leader));
    assert!(!d.would_overflow(PairSpan::Other));
    let d = IrDecoder { edges_read: 0, bits_read: i32::MAX, ir_value: 0 };
    assert!(!d.would_overflow(PairSpan::Bit1));
}

#[test]
fn frame_for_each_button() {
    for (code, button) in [
        (0xff10efu32, RemoteButton::Left),
        (0xff5aa5, RemoteButton::Right),
        (0xff18e7, RemoteButton::Up),
        (0xff4ab5, RemoteButton::Down),
        (0xffa25d, RemoteButton::Number(1)),
    ] {
        let mut d = IrDecoder::new();
        let mut all = vec![PairSpan::Other, PairSpan::Other];
        all.extend(frame_spans(code));
        let out = feed(&mut d, &all);
        assert_eq!(*out.last().unwrap(), Some(button));
    }
}

#[test]
fn unknown_code_gives_nothing() {
    let mut d = IrDecoder::new();
    let all = frame_spans(0x0000_0001);
    let out = feed(&mut d, &all);
    assert!(out.iter().all(|o| o.is_none()));
    assert_eq!(d.ir_value, 1);
    assert_eq!(d.bits_read, 32);
}

#[test]
fn span_kinds_at_second_edge() {
    let mapping = get_button_mapping();
    // a 0 bit shifts in a zero
    let mut d = IrDecoder { edges_read: 1, bits_read: 0, ir_value: 1 };
    assert_eq!(d.on_edge(PairSpan::Bit0, &mapping), None);
    assert_eq!((d.edges_read, d.bits_read, d.ir_value), (0, 1, 2));
    // a 1 bit shifts in a one
    let mut d = IrDecoder { edges_read: 1, bits_read: 0, ir_value: 1 };
    d.on_edge(PairSpan::Bit1, &mapping);
    assert_eq!((d.edges_read, d.bits_read, d.ir_value), (0, 1, 3));
    // a leader clears the bit count but keeps the register
    let mut d = IrDecoder { edges_read: 1, bits_read: 7, ir_value: 5 };
    d.on_edge(PairSpan::Leader, &mapping);
    assert_eq!((d.edges_read, d.bits_read, d.ir_value), (0, 0, 5));
    // a longer span only closes the pair
    let mut d = IrDecoder { edges_read: 1, bits_read: 7, ir_value: 5 };
    d.on_edge(PairSpan::Other, &mapping);
    assert_eq!((d.edges_read, d.bits_read, d.ir_value), (0, 7, 5));
}

#[test]
fn first_edge_of_pair_reads_nothing() {
    let mapping = get_button_mapping();
    let mut d = IrDecoder { edges_read: 0, bits_read: 31, ir_value: 0xff38c7 >> 1 };
    assert_eq!(d.on_edge(PairSpan::Bit1, &mapping), None);
    assert_eq!((d.edges_read, d.bits_read, d.ir_value), (1, 31, 0xff38c7 >> 1));
    assert_eq!(d.on_edge(PairSpan::Bit1, &mapping), Some(RemoteButton::OkKey));
}

#[test]
fn register_keeps_low_32_bits() {
    let mapping = get_button_mapping();
    let mut d = IrDecoder { edges_read: 1, bits_read: 3, ir_value: 0x8000_0001 };
    d.on_edge(PairSpan::Bit1, &mapping);
    assert_eq!((d.bits_read, d.ir_value), (4, 0x0000_0003));
}

#[test]
fn codes_are_distinct_per_button() {
    let m = get_button_mapping();
    for (c1, b1) in &m {
        for (c2, b2) in &m {
            if b1 == b2 {
                assert_eq!(c1, c2);
            }
        }
    }
}
