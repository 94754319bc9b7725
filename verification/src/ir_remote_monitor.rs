use vstd::prelude::*;
use std::collections::HashMap;
use vstd::arithmetic::div_mod::{
    lemma_add_mod_noop, lemma_mul_mod_noop_right, lemma_mod_multiples_vanish, lemma_div_denominator,
    lemma_fundamental_div_mod,
};

verus! {

/// A button of the infrared remote control.
#[derive(Copy, Clone, Debug, PartialEq, Eq, Structural)]
pub enum RemoteButton {
    Number(u32),
    Left,
    Up,
    Right,
    Down,
    Hash,
    Star,
    OkKey,
}

/// 2^32, the modulus of the 32-bit shift register.
pub open spec fn word_modulus() -> int {
    0x1_0000_0000
}

/// The shift register after one more bit has come in at the low end.
pub open spec fn shift_in(v: u32, bit: bool) -> u32 {
    ((v as int * 2 + (if bit { 1int } else { 0int })) % word_modulus()) as u32
}

/// How the span of time that ends at an edge of the receiver's line was read: the time
/// from the edge two edges back, compared with the NEC lengths and ten percent more
/// (1.2375 ms for a `0` bit, 2.475 ms for a `1` bit, 14.85 ms for the leader). The
/// program measures and compares it in floating-point milliseconds and hands the
/// decoder the outcome.
#[derive(Copy, Clone, Debug, PartialEq, Eq, Structural)]
pub enum PairSpan {
    /// At most the `0`-bit limit.
    Bit0,
    /// Above the `0`-bit limit, at most the `1`-bit limit.
    Bit1,
    /// Above the `1`-bit limit, at most the leader limit.
    Leader,
    /// Longer than a leader.
    Other,
}

/// State of the decoder of NEC frames read from the edges of the receiver's line.
///
/// The decoder looks at edges in pairs: at the second edge of a pair it takes the span
/// read at that edge as a `0` bit, a `1` bit or a leader.
pub struct IrDecoder {
    /// Edges seen in the current pair (0 or 1).
    pub edges_read: i32,
    /// Bits shifted in since the last leader.
    pub bits_read: i32,
    /// The shift register.
    pub ir_value: u32,
}

impl IrDecoder {
    /// The states the decoder can reach.
    pub open spec fn wf(self) -> bool {
        &&& 0 <= self.edges_read <= 1
        &&& 0 <= self.bits_read
    }
}

/// Whether an edge closes a pair.
pub open spec fn closes_pair(s: IrDecoder) -> bool {
    s.edges_read + 1 >= 2
}

/// The decoder's state after an edge whose span was read as `span`.
pub open spec fn next_state(s: IrDecoder, span: PairSpan) -> IrDecoder {
    if closes_pair(s) {
        let (v, bits) = match span {
            PairSpan::Bit0 => (shift_in(s.ir_value, false), s.bits_read + 1),
            PairSpan::Bit1 => (shift_in(s.ir_value, true), s.bits_read + 1),
            PairSpan::Leader => (s.ir_value, 0int),
            PairSpan::Other => (s.ir_value, s.bits_read as int),
        };
        IrDecoder { edges_read: 0, bits_read: bits as i32, ir_value: v }
    } else {
        IrDecoder { edges_read: (s.edges_read + 1) as i32, bits_read: s.bits_read, ir_value: s.ir_value }
    }
}

/// Whether an edge would push the bit counter past `i32::MAX`.
pub open spec fn step_overflows(s: IrDecoder, span: PairSpan) -> bool {
    &&& closes_pair(s)
    &&& (span == PairSpan::Bit0 || span == PairSpan::Bit1)
    &&& s.bits_read == i32::MAX
}

/// Whether an edge completes a 32-bit code, which is then looked up.
pub open spec fn completes_code(s: IrDecoder, span: PairSpan) -> bool {
    closes_pair(s) && next_state(s, span).bits_read == 32
}

/// What the decoder reports for an edge, given the table of codes.
pub open spec fn pressed_button(s: IrDecoder, span: PairSpan, mapping: Map<u32, RemoteButton>) -> Option<
    RemoteButton,
> {
    let v = next_state(s, span).ir_value;
    if completes_code(s, span) && mapping.contains_key(v) {
        Some(mapping[v])
    } else {
        None
    }
}

impl IrDecoder {
    /// A decoder that has seen no edge yet.
    pub fn new() -> (d: IrDecoder)
        ensures
            d.wf(),
            d == (IrDecoder { edges_read: 0, bits_read: 0, ir_value: 0 }),
    {
        IrDecoder { edges_read: 0, bits_read: 0, ir_value: 0 }
    }

    /// Whether an edge whose span was read as `span` would push the bit counter past
    /// `i32::MAX`.
    pub fn would_overflow(&self, span: PairSpan) -> (overflows: bool)
        requires
            self.wf(),
        ensures
            overflows == step_overflows(*self, span),
    {
        self.edges_read + 1 >= 2 && (span == PairSpan::Bit0 || span == PairSpan::Bit1)
            && self.bits_read == i32::MAX
    }

    /// Takes an edge of the receiver's line, whose span was read as `span`, and returns
    /// the button whose code it completes, if any.
    pub fn on_edge(&mut self, span: PairSpan, mapping: &HashMap<u32, RemoteButton>) -> (pressed:
        Option<RemoteButton>)
        requires
            old(self).wf(),
            !step_overflows(*old(self), span),
        ensures
            final(self).wf(),
            *final(self) == next_state(*old(self), span),
            pressed == pressed_button(*old(self), span, mapping@),
    {
        broadcast use vstd::std_specs::hash::group_hash_axioms;

        let ghost s = *self;
        self.edges_read = self.edges_read + 1;
        let mut pressed: Option<RemoteButton> = None;
        if self.edges_read >= 2 {
            let v: u32 = self.ir_value;
            match span {
                PairSpan::Bit0 => {
                    assert(v << 1u32 == ((v as int * 2) % 0x1_0000_0000) as u32) by (bit_vector);
                    self.ir_value = v << 1u32;
                    self.bits_read = self.bits_read + 1;
                },
                PairSpan::Bit1 => {
                    assert((v << 1u32) < 0xffff_ffffu32) by (bit_vector);
                    assert((v << 1u32) + 1 == ((v as int * 2 + 1) % 0x1_0000_0000) as u32)
                        by (bit_vector);
                    self.ir_value = (v << 1u32) + 1;
                    self.bits_read = self.bits_read + 1;
                },
                PairSpan::Leader => {
                    self.bits_read = 0;
                },
                PairSpan::Other => {},
            }
            self.edges_read = 0;
            if self.bits_read == 32 {
                match mapping.get(&self.ir_value) {
                    Some(b) => {
                        pressed = Some(*b);
                    },
                    None => {},
                }
            }
        }
        proof {
            assert(*self == next_state(s, span));
        }
        pressed
    }
}

/// The codes that the remote control sends, and the buttons they stand for.
pub open spec fn button_map() -> Map<u32, RemoteButton> {
    map![
        0xff9867u32 => RemoteButton::Number(0),
        0xffa25du32 => RemoteButton::Number(1),
        0xff629du32 => RemoteButton::Number(2),
        0xffe21du32 => RemoteButton::Number(3),
        0xff22ddu32 => RemoteButton::Number(4),
        0xff02fdu32 => RemoteButton::Number(5),
        0xffc23du32 => RemoteButton::Number(6),
        0xffe01fu32 => RemoteButton::Number(7),
        0xffa857u32 => RemoteButton::Number(8),
        0xff906fu32 => RemoteButton::Number(9),
        0xff6897u32 => RemoteButton::Star,
        0xffb04fu32 => RemoteButton::Hash,
        0xff38c7u32 => RemoteButton::OkKey,
        0xff10efu32 => RemoteButton::Left,
        0xff4ab5u32 => RemoteButton::Down,
        0xff5aa5u32 => RemoteButton::Right,
        0xff18e7u32 => RemoteButton::Up
    ]
}

/// No two codes of the remote control stand for the same button.
pub proof fn lemma_button_codes_distinct(c1: u32, c2: u32)
    requires
        button_map().contains_key(c1),
        button_map().contains_key(c2),
        button_map()[c1] == button_map()[c2],
    ensures
        c1 == c2,
{
}

/// The table from the codes of the remote control to its buttons.
pub fn get_button_mapping() -> (map: HashMap<u32, RemoteButton>)
    ensures
        map@ == button_map(),
{
    broadcast use vstd::std_specs::hash::group_hash_axioms;

    let mut map: HashMap<u32, RemoteButton> = HashMap::new();
    map.insert(0xff9867, RemoteButton::Number(0));
    map.insert(0xffa25d, RemoteButton::Number(1));
    map.insert(0xff629d, RemoteButton::Number(2));
    map.insert(0xffe21d, RemoteButton::Number(3));
    map.insert(0xff22dd, RemoteButton::Number(4));
    map.insert(0xff02fd, RemoteButton::Number(5));
    map.insert(0xffc23d, RemoteButton::Number(6));
    map.insert(0xffe01f, RemoteButton::Number(7));
    map.insert(0xffa857, RemoteButton::Number(8));
    map.insert(0xff906f, RemoteButton::Number(9));
    map.insert(0xff6897, RemoteButton::Star);
    map.insert(0xffb04f, RemoteButton::Hash);
    map.insert(0xff38c7, RemoteButton::OkKey);
    map.insert(0xff10ef, RemoteButton::Left);
    map.insert(0xff4ab5, RemoteButton::Down);
    map.insert(0xff5aa5, RemoteButton::Right);
    map.insert(0xff18e7, RemoteButton::Up);
    assert(map@ =~= button_map());
    map
}

/// The decoder's state after edges whose spans were read as `times`, in order.
pub open spec fn feed(s: IrDecoder, times: Seq<PairSpan>) -> IrDecoder
    decreases times.len(),
{
    if times.len() == 0 {
        s
    } else {
        next_state(feed(s, times.drop_last()), times.last())
    }
}

/// Whether feeding the edges read as `times` to `s`, one by one, meets the `requires` of
/// `IrDecoder::on_edge` at every edge.
pub open spec fn feed_ok(s: IrDecoder, times: Seq<PairSpan>) -> bool
    decreases times.len(),
{
    times.len() == 0 || (feed_ok(s, times.drop_last()) && !step_overflows(
        feed(s, times.drop_last()),
        times.last(),
    ))
}

/// The number that a sequence of bits stands for, most significant bit first.
pub open spec fn code_of(bits: Seq<bool>) -> int
    decreases bits.len(),
{
    if bits.len() == 0 {
        0
    } else {
        code_of(bits.drop_last()) * 2 + (if bits.last() { 1int } else { 0int })
    }
}

/// The shift register after the given bits have come in, first to last.
pub open spec fn shift_all(v: u32, bits: Seq<bool>) -> u32
    decreases bits.len(),
{
    if bits.len() == 0 {
        v
    } else {
        shift_in(shift_all(v, bits.drop_last()), bits.last())
    }
}

/// 2 to the power `n`.
pub open spec fn two_to(n: nat) -> int
    decreases n,
{
    if n == 0 {
        1
    } else {
        2 * two_to((n - 1) as nat)
    }
}

/// How an edge that closes a pair must be read for the pair to send `bit`.
pub open spec fn bit_span(bit: bool) -> PairSpan {
    if bit {
        PairSpan::Bit1
    } else {
        PairSpan::Bit0
    }
}

/// The 66 edges of a NEC frame, as read: a leader pair, then one pair for each of the 32
/// bits, most significant first. Only the second edge of each pair is read.
pub open spec fn is_frame(times: Seq<PairSpan>, bits: Seq<bool>) -> bool {
    &&& times.len() == 66
    &&& bits.len() == 32
    &&& times[1] == PairSpan::Leader
    &&& forall|k: int| 1 <= k <= 32 ==> #[trigger] times[2 * k + 1] == bit_span(bits[k - 1])
}

proof fn lemma_next_state_wf(s: IrDecoder, ts: PairSpan)
    requires
        s.wf(),
        !step_overflows(s, ts),
    ensures
        next_state(s, ts).wf(),
{
}

proof fn lemma_code_of_bound(bits: Seq<bool>)
    ensures
        0 <= code_of(bits) < two_to(bits.len()),
    decreases bits.len(),
{
    if bits.len() > 0 {
        lemma_code_of_bound(bits.drop_last());
    }
}

proof fn lemma_shift_all_value(v: u32, bits: Seq<bool>)
    ensures
        shift_all(v, bits) as int == (v * two_to(bits.len()) + code_of(bits)) % word_modulus(),
    decreases bits.len(),
{
    let m = word_modulus();
    if bits.len() == 0 {
        assert(v * two_to(0) == v as int);
    } else {
        let pre = bits.drop_last();
        lemma_shift_all_value(v, pre);
        let p = two_to(pre.len());
        let c = code_of(pre);
        let y = v * p + c;
        let bb: int = if bits.last() { 1 } else { 0 };
        let x = shift_all(v, pre) as int;
        assert(x == y % m);
        assert(shift_all(v, bits) as int == (x * 2 + bb) % m);
        lemma_mul_mod_noop_right(2, y, m);
        lemma_add_mod_noop(2 * (y % m), bb, m);
        lemma_add_mod_noop(2 * y, bb, m);
        assert((x * 2 + bb) % m == (2 * y + bb) % m);
        assert(2 * y + bb == v * (2 * p) + (c * 2 + bb)) by (nonlinear_arith)
            requires
                y == v * p + c,
        ;
        assert(two_to(bits.len()) == 2 * p);
    }
}

proof fn lemma_shift_word(v: u32, bits: Seq<bool>)
    requires
        bits.len() == 32,
    ensures
        shift_all(v, bits) as int == code_of(bits),
{
    lemma_shift_all_value(v, bits);
    lemma_code_of_bound(bits);
    assert(two_to(32) == word_modulus()) by {
        reveal_with_fuel(two_to, 33);
    }
    lemma_mod_multiples_vanish(v as int, code_of(bits), word_modulus());
    assert(v * word_modulus() == word_modulus() * v) by (nonlinear_arith);
    vstd::arithmetic::div_mod::lemma_small_mod(code_of(bits) as nat, word_modulus() as nat);
}

/// The state after the first `k` pairs of a frame: the leader has cleared the bit
/// counter, and the bits read since stand in the shift register.
proof fn lemma_frame_prefix(s: IrDecoder, times: Seq<PairSpan>, bits: Seq<bool>, k: int)
    requires
        s.wf(),
        s.edges_read == 0,
        is_frame(times, bits),
        1 <= k <= 33,
    ensures
        feed_ok(s, times.take(2 * k)),
        feed(s, times.take(2 * k)).wf(),
        feed(s, times.take(2 * k)).edges_read == 0,
        feed(s, times.take(2 * k)).bits_read == k - 1,
        feed(s, times.take(2 * k)).ir_value == shift_all(s.ir_value, bits.take(k - 1)),
    decreases k,
{
    let j = k - 1;
    let (f, fok) = if j == 0 {
        assert(times.take(0) =~= Seq::<PairSpan>::empty());
        (s, true)
    } else {
        lemma_frame_prefix(s, times, bits, j);
        (feed(s, times.take(2 * j)), feed_ok(s, times.take(2 * j)))
    };
    assert(feed(s, times.take(2 * j)) == f);
    assert(feed_ok(s, times.take(2 * j)));
    let a = times[2 * j];
    let b = times[2 * j + 1];
    assert(times.take(2 * j + 1).drop_last() =~= times.take(2 * j));
    assert(times.take(2 * k).drop_last() =~= times.take(2 * j + 1));
    let g = next_state(f, a);
    assert(!step_overflows(f, a));
    lemma_next_state_wf(f, a);
    assert(feed(s, times.take(2 * j + 1)) == g);
    assert(feed_ok(s, times.take(2 * j + 1)));
    if j == 0 {
        assert(b == PairSpan::Leader);
    } else {
        assert(times[2 * j + 1] == bit_span(bits[j - 1]));
        assert(bits.take(j).drop_last() =~= bits.take(j - 1));
    }
    assert(!step_overflows(g, b));
    lemma_next_state_wf(g, b);
    assert(feed(s, times.take(2 * k)) == next_state(g, b));
    assert(feed_ok(s, times.take(2 * k)));
}

/// A NEC frame read from a state at the start of a pair leaves in the register the
/// number that its bit spans encode, and completes a code at its last edge.
proof fn lemma_frame_yields_bits(
    s: IrDecoder,
    times: Seq<PairSpan>,
    bits: Seq<bool>,
    mapping: Map<u32, RemoteButton>,
)
    requires
        s.wf(),
        s.edges_read == 0,
        is_frame(times, bits),
    ensures
        feed_ok(s, times),
        feed(s, times).ir_value == code_of(bits),
        completes_code(feed(s, times.drop_last()), times.last()),
        pressed_button(feed(s, times.drop_last()), times.last(), mapping) == (if mapping.contains_key(
            code_of(bits) as u32,
        ) {
            Some(mapping[code_of(bits) as u32])
        } else {
            None
        }),
{
    lemma_frame_prefix(s, times, bits, 33);
    assert(times.take(66) =~= times);
    assert(bits.take(32) =~= bits);
    lemma_shift_word(s.ir_value, bits);
    lemma_frame_prefix(s, times, bits, 32);
    assert(times.drop_last() =~= times.take(65));
    assert(times.take(65).drop_last() =~= times.take(64));
}

/// Bit `i` of a 32-bit code, counting from the most significant (`i == 0`).
pub open spec fn bit_of(code: u32, i: int) -> bool {
    (code as int / two_to((31 - i) as nat)) % 2 == 1
}

/// The 32 bits of a code, most significant first, as a NEC frame sends them.
pub open spec fn bits_of(code: u32) -> Seq<bool> {
    Seq::new(32, |i: int| bit_of(code, i))
}

proof fn lemma_two_to_pos(n: nat)
    ensures
        two_to(n) > 0,
    decreases n,
{
    if n > 0 {
        lemma_two_to_pos((n - 1) as nat);
    }
}

proof fn lemma_code_of_bits_prefix(code: u32, k: int)
    requires
        0 <= k <= 32,
    ensures
        code_of(bits_of(code).take(k)) == code as int / two_to((32 - k) as nat),
    decreases k,
{
    if k == 0 {
        assert(bits_of(code).take(0) =~= Seq::<bool>::empty());
        assert(two_to(32) == word_modulus()) by {
            reveal_with_fuel(two_to, 33);
        }
        assert(code as int / two_to(32) == 0);
    } else {
        let n = (32 - k) as nat;
        lemma_code_of_bits_prefix(code, k - 1);
        assert(bits_of(code).take(k).drop_last() =~= bits_of(code).take(k - 1));
        let m = two_to(n);
        lemma_two_to_pos(n);
        assert(two_to(n + 1) == m * 2);
        let y = code as int / m;
        lemma_div_denominator(code as int, m, 2);
        lemma_fundamental_div_mod(y, 2);
        assert(bits_of(code).take(k).last() == bit_of(code, k - 1));
    }
}

/// The bits of a code stand for the code.
pub proof fn lemma_code_of_bits(code: u32)
    ensures
        code_of(bits_of(code)) == code as int,
{
    lemma_code_of_bits_prefix(code, 32);
    assert(bits_of(code).take(32) =~= bits_of(code));
}

/// A NEC frame for a code, read from any state at the start of a pair, yields that code:
/// every edge meets the `requires` of `IrDecoder::on_edge`, the register holds the code
/// afterwards, and at the frame's last edge the decoder reports the button that
/// `mapping` gives the code, if any.
pub proof fn lemma_frame_yields_code(
    s: IrDecoder,
    times: Seq<PairSpan>,
    code: u32,
    mapping: Map<u32, RemoteButton>,
)
    requires
        s.wf(),
        s.edges_read == 0,
        is_frame(times, bits_of(code)),
    ensures
        feed_ok(s, times),
        feed(s, times).ir_value == code,
        completes_code(feed(s, times.drop_last()), times.last()),
        pressed_button(feed(s, times.drop_last()), times.last(), mapping) == (if mapping.contains_key(
            code,
        ) {
            Some(mapping[code])
        } else {
            None
        }),
{
    lemma_code_of_bits(code);
    lemma_frame_yields_bits(s, times, bits_of(code), mapping);
}

/// Each button of the remote control is reported once the frame of its code has been read.
pub proof fn lemma_remote_frame_reports_button(s: IrDecoder, times: Seq<PairSpan>, code: u32)
    requires
        s.wf(),
        s.edges_read == 0,
        is_frame(times, bits_of(code)),
        button_map().contains_key(code),
    ensures
        pressed_button(feed(s, times.drop_last()), times.last(), button_map()) == Some(
            button_map()[code],
        ),
{
    lemma_frame_yields_code(s, times, code, button_map());
}

/// What the decoder reports at each edge read as `times`, fed in order from `s`.
pub open spec fn reports(s: IrDecoder, times: Seq<PairSpan>, mapping: Map<u32, RemoteButton>) -> Seq<
    Option<RemoteButton>,
>
    decreases times.len(),
{
    if times.len() == 0 {
        Seq::empty()
    } else {
        reports(s, times.drop_last(), mapping).push(
            pressed_button(feed(s, times.drop_last()), times.last(), mapping),
        )
    }
}

/// Over any sequence of edges, the decoder reports one result per edge, and every button
/// it reports is the button of some code of the table.
pub proof fn lemma_reports_are_table_buttons(
    s: IrDecoder,
    times: Seq<PairSpan>,
    mapping: Map<u32, RemoteButton>,
)
    ensures
        reports(s, times, mapping).len() == times.len(),
        forall|i: int|
            0 <= i < times.len() && (#[trigger] reports(s, times, mapping)[i]) is Some ==> exists|
                k: u32,
            |
                mapping.contains_key(k) && mapping[k] == reports(s, times, mapping)[i]->Some_0,
    decreases times.len(),
{
    if times.len() > 0 {
        let pre = times.drop_last();
        lemma_reports_are_table_buttons(s, pre, mapping);
        let r = reports(s, times, mapping);
        assert forall|i: int|
            0 <= i < times.len() && (#[trigger] reports(s, times, mapping)[i]) is Some implies exists|
                k: u32,
            |
                mapping.contains_key(k) && mapping[k] == reports(s, times, mapping)[i]->Some_0 by {
            if i < times.len() - 1 {
                assert(r[i] == reports(s, pre, mapping)[i]);
            } else {
                let v = next_state(feed(s, pre), times.last()).ir_value;
                assert(mapping.contains_key(v) && mapping[v] == r[i]->Some_0);
            }
        }
    }
}

} // verus!
