//! Wire codec for client packets.
//!
//! A packet travels as the ASCII text of a small JSON document, for
//! example `{"Input":{"Button":["A",true]}}` or
//! `{"Input":{"Joystick":["LeftX",0.42]}}`. The joystick number is the
//! canonical decimal of the axis value: no sign on zero, no leading
//! zeros, no trailing fraction zeros. `encode` always produces this
//! canonical text and `decode` accepts exactly it, so decoding is the
//! inverse of encoding (see `lemma_round_trip`).

use vstd::prelude::*;
use crate::protocol::{AxisValue, ButtonType, ClientPacket, DecodeError, Frame, InputUpdate,
    JoystickAxis};

verus! {

/// The bytes of `{"Input":{"`, common to every packet.
pub open spec fn prefix_bytes() -> Seq<u8> {
    seq![123u8, 34, 73, 110, 112, 117, 116, 34, 58, 123, 34]
}

/// The bytes of `Button":["`.
pub open spec fn button_tag_bytes() -> Seq<u8> {
    seq![66u8, 117, 116, 116, 111, 110, 34, 58, 91, 34]
}

/// The bytes of `Joystick":["`.
pub open spec fn joystick_tag_bytes() -> Seq<u8> {
    seq![74u8, 111, 121, 115, 116, 105, 99, 107, 34, 58, 91, 34]
}

/// The name of a button, as on the wire.
pub open spec fn button_name_bytes(bt: ButtonType) -> Seq<u8> {
    match bt {
        ButtonType::A => seq![65u8],
        ButtonType::B => seq![66u8],
        ButtonType::X => seq![88u8],
        ButtonType::Y => seq![89u8],
        ButtonType::Up => seq![85u8, 112],
        ButtonType::Down => seq![68u8, 111, 119, 110],
        ButtonType::Left => seq![76u8, 101, 102, 116],
        ButtonType::Right => seq![82u8, 105, 103, 104, 116],
    }
}

/// The name of a joystick axis, as on the wire.
pub open spec fn axis_name_bytes(axis: JoystickAxis) -> Seq<u8> {
    match axis {
        JoystickAxis::LeftX => seq![76u8, 101, 102, 116, 88],
        JoystickAxis::LeftY => seq![76u8, 101, 102, 116, 89],
        JoystickAxis::RightX => seq![82u8, 105, 103, 104, 116, 88],
        JoystickAxis::RightY => seq![82u8, 105, 103, 104, 116, 89],
    }
}

/// The bytes of `true` or `false`.
pub open spec fn bool_bytes(v: bool) -> Seq<u8> {
    if v {
        seq![116u8, 114, 117, 101]
    } else {
        seq![102u8, 97, 108, 115, 101]
    }
}

/// The bytes of `",`, closing a name and separating it from the value.
pub open spec fn sep_bytes() -> Seq<u8> {
    seq![34u8, 44]
}

/// The bytes of `]}}`, closing the document.
pub open spec fn suffix_bytes() -> Seq<u8> {
    seq![93u8, 125, 125]
}

/// The ASCII digit for `d` (0 through 9).
pub open spec fn digit_byte(d: int) -> u8 {
    (48 + d) as u8
}

/// Canonical decimal text of a positive axis magnitude `a` (in
/// thousandths, `1 <= a <= 1000`): `1` for a full deflection, otherwise
/// `0.` followed by the fraction digits with trailing zeros stripped.
pub open spec fn magnitude_bytes(a: int) -> Seq<u8> {
    if a == 1000 {
        seq![49u8]
    } else {
        let d1 = a / 100;
        let d2 = (a / 10) % 10;
        let d3 = a % 10;
        if d3 != 0 {
            seq![48u8, 46, digit_byte(d1), digit_byte(d2), digit_byte(d3)]
        } else if d2 != 0 {
            seq![48u8, 46, digit_byte(d1), digit_byte(d2)]
        } else {
            seq![48u8, 46, digit_byte(d1)]
        }
    }
}

/// Canonical decimal text of an axis value of `m` thousandths
/// (`-1000 <= m <= 1000`): `0` without a sign, otherwise an optional
/// minus sign and the magnitude.
pub open spec fn millis_bytes(m: int) -> Seq<u8> {
    if m == 0 {
        seq![48u8]
    } else if m < 0 {
        seq![45u8] + magnitude_bytes(-m)
    } else {
        magnitude_bytes(m)
    }
}

/// The canonical wire text of a packet.
pub open spec fn spec_encode(p: ClientPacket) -> Seq<u8> {
    match p {
        ClientPacket::Input(InputUpdate::Button(bt, v)) => prefix_bytes() + button_tag_bytes()
            + button_name_bytes(bt) + sep_bytes() + bool_bytes(v) + suffix_bytes(),
        ClientPacket::Input(InputUpdate::Joystick(axis, value)) => prefix_bytes()
            + joystick_tag_bytes() + axis_name_bytes(axis) + sep_bytes()
            + millis_bytes(value.millis as int) + suffix_bytes(),
    }
}

fn push_prefix(v: &mut Vec<u8>)
    ensures
        final(v)@ == old(v)@ + prefix_bytes(),
{
    v.push(123);
    v.push(34);
    v.push(73);
    v.push(110);
    v.push(112);
    v.push(117);
    v.push(116);
    v.push(34);
    v.push(58);
    v.push(123);
    v.push(34);
    assert(v@ =~= old(v)@ + prefix_bytes());
}

fn push_button_tag(v: &mut Vec<u8>)
    ensures
        final(v)@ == old(v)@ + button_tag_bytes(),
{
    v.push(66);
    v.push(117);
    v.push(116);
    v.push(116);
    v.push(111);
    v.push(110);
    v.push(34);
    v.push(58);
    v.push(91);
    v.push(34);
    assert(v@ =~= old(v)@ + button_tag_bytes());
}

fn push_joystick_tag(v: &mut Vec<u8>)
    ensures
        final(v)@ == old(v)@ + joystick_tag_bytes(),
{
    v.push(74);
    v.push(111);
    v.push(121);
    v.push(115);
    v.push(116);
    v.push(105);
    v.push(99);
    v.push(107);
    v.push(34);
    v.push(58);
    v.push(91);
    v.push(34);
    assert(v@ =~= old(v)@ + joystick_tag_bytes());
}

fn push_button_name(v: &mut Vec<u8>, bt: ButtonType)
    ensures
        final(v)@ == old(v)@ + button_name_bytes(bt),
{
    match bt {
        ButtonType::A => v.push(65),
        ButtonType::B => v.push(66),
        ButtonType::X => v.push(88),
        ButtonType::Y => v.push(89),
        ButtonType::Up => {
            v.push(85);
            v.push(112);
        },
        ButtonType::Down => {
            v.push(68);
            v.push(111);
            v.push(119);
            v.push(110);
        },
        ButtonType::Left => {
            v.push(76);
            v.push(101);
            v.push(102);
            v.push(116);
        },
        ButtonType::Right => {
            v.push(82);
            v.push(105);
            v.push(103);
            v.push(104);
            v.push(116);
        },
    }
    assert(v@ =~= old(v)@ + button_name_bytes(bt));
}

fn push_axis_name(v: &mut Vec<u8>, axis: JoystickAxis)
    ensures
        final(v)@ == old(v)@ + axis_name_bytes(axis),
{
    match axis {
        JoystickAxis::LeftX => {
            v.push(76);
            v.push(101);
            v.push(102);
            v.push(116);
            v.push(88);
        },
        JoystickAxis::LeftY => {
            v.push(76);
            v.push(101);
            v.push(102);
            v.push(116);
            v.push(89);
        },
        JoystickAxis::RightX => {
            v.push(82);
            v.push(105);
            v.push(103);
            v.push(104);
            v.push(116);
            v.push(88);
        },
        JoystickAxis::RightY => {
            v.push(82);
            v.push(105);
            v.push(103);
            v.push(104);
            v.push(116);
            v.push(89);
        },
    }
    assert(v@ =~= old(v)@ + axis_name_bytes(axis));
}

fn push_bool(v: &mut Vec<u8>, b: bool)
    ensures
        final(v)@ == old(v)@ + bool_bytes(b),
{
    if b {
        v.push(116);
        v.push(114);
        v.push(117);
        v.push(101);
    } else {
        v.push(102);
        v.push(97);
        v.push(108);
        v.push(115);
        v.push(101);
    }
    assert(v@ =~= old(v)@ + bool_bytes(b));
}

fn push_sep(v: &mut Vec<u8>)
    ensures
        final(v)@ == old(v)@ + sep_bytes(),
{
    v.push(34);
    v.push(44);
    assert(v@ =~= old(v)@ + sep_bytes());
}

fn push_suffix(v: &mut Vec<u8>)
    ensures
        final(v)@ == old(v)@ + suffix_bytes(),
{
    v.push(93);
    v.push(125);
    v.push(125);
    assert(v@ =~= old(v)@ + suffix_bytes());
}

fn push_millis(v: &mut Vec<u8>, m: i32)
    requires
        -1000 <= m <= 1000,
    ensures
        final(v)@ == old(v)@ + millis_bytes(m as int),
{
    if m == 0 {
        v.push(48);
        assert(v@ =~= old(v)@ + millis_bytes(m as int));
        return ;
    }
    let a: i32 = if m < 0 {
        v.push(45);
        -m
    } else {
        m
    };
    let ghost mid = v@;
    if a == 1000 {
        v.push(49);
    } else {
        let d1 = a / 100;
        let d2 = (a / 10) % 10;
        let d3 = a % 10;
        v.push(48);
        v.push(46);
        v.push(48 + d1 as u8);
        if d3 != 0 {
            v.push(48 + d2 as u8);
            v.push(48 + d3 as u8);
        } else if d2 != 0 {
            v.push(48 + d2 as u8);
        }
    }
    assert(v@ =~= mid + magnitude_bytes(a as int));
    if m < 0 {
        assert(v@ =~= old(v)@ + millis_bytes(m as int));
    } else {
        assert(v@ =~= old(v)@ + millis_bytes(m as int));
    }
}

/// Encodes a packet as its canonical wire text.
pub fn encode(p: &ClientPacket) -> (r: Vec<u8>)
    requires
        p.wf(),
    ensures
        r@ == spec_encode(*p),
{
    let mut v: Vec<u8> = Vec::new();
    push_prefix(&mut v);
    match p {
        ClientPacket::Input(InputUpdate::Button(bt, b)) => {
            push_button_tag(&mut v);
            push_button_name(&mut v, *bt);
            push_sep(&mut v);
            push_bool(&mut v, *b);
            push_suffix(&mut v);
        },
        ClientPacket::Input(InputUpdate::Joystick(axis, value)) => {
            push_joystick_tag(&mut v);
            push_axis_name(&mut v, *axis);
            push_sep(&mut v);
            push_millis(&mut v, value.millis);
            push_suffix(&mut v);
        },
    }
    assert(v@ =~= spec_encode(*p));
    v
}

/// The button whose wire name starts with byte `c` (the eight names all
/// differ in their first byte).
pub open spec fn button_of_first_byte(c: u8) -> Option<ButtonType> {
    if c == 65 {
        Some(ButtonType::A)
    } else if c == 66 {
        Some(ButtonType::B)
    } else if c == 88 {
        Some(ButtonType::X)
    } else if c == 89 {
        Some(ButtonType::Y)
    } else if c == 85 {
        Some(ButtonType::Up)
    } else if c == 68 {
        Some(ButtonType::Down)
    } else if c == 76 {
        Some(ButtonType::Left)
    } else if c == 82 {
        Some(ButtonType::Right)
    } else {
        None
    }
}

/// The magnitude a canonical magnitude text denotes: `0`, `1`, or `0.`
/// followed by up to three fraction digits. (Validation against the
/// canonical encoding happens in `spec_parse`, so stray bytes here may
/// produce a value that the validation then rejects.)
pub open spec fn parse_magnitude(t: Seq<u8>) -> Option<int> {
    if t.len() == 1 && t[0] == 48 {
        Some(0)
    } else if t.len() == 1 && t[0] == 49 {
        Some(1000)
    } else if 3 <= t.len() <= 5 && t[0] == 48 && t[1] == 46 {
        Some(
            (t[2] - 48) * 100 + (if t.len() >= 4 { (t[3] - 48) * 10 } else { 0 }) + (if t.len()
                == 5 {
                (t[4] - 48) as int
            } else {
                0
            }),
        )
    } else {
        None
    }
}

/// The signed thousandths a canonical number text denotes.
pub open spec fn parse_millis(t: Seq<u8>) -> Option<int> {
    if t.len() == 0 {
        None
    } else if t[0] == 45 {
        match parse_magnitude(t.skip(1)) {
            Some(a) => if a > 0 {
                Some(-a)
            } else {
                None
            },
            None => None,
        }
    } else {
        parse_magnitude(t)
    }
}

/// The button packet a text is shaped like, before validation: the name
/// is identified by its first byte, the boolean by its first byte after
/// the separator.
pub open spec fn candidate_button(s: Seq<u8>) -> Option<ClientPacket> {
    if s.len() <= 21 {
        None
    } else {
        match button_of_first_byte(s[21]) {
            Some(bt) => {
                let bp = 23 + button_name_bytes(bt).len();
                if bp >= s.len() {
                    None
                } else if s[bp as int] == 116 {
                    Some(ClientPacket::Input(InputUpdate::Button(bt, true)))
                } else if s[bp as int] == 102 {
                    Some(ClientPacket::Input(InputUpdate::Button(bt, false)))
                } else {
                    None
                }
            },
            None => None,
        }
    }
}

/// The axis a text names (the four names are told apart by their first
/// byte and the byte after `Left`/`Right`).
pub open spec fn axis_of(s: Seq<u8>) -> Option<JoystickAxis> {
    if s.len() <= 23 {
        None
    } else if s[23] == 76 {
        if s.len() <= 27 {
            None
        } else if s[27] == 88 {
            Some(JoystickAxis::LeftX)
        } else if s[27] == 89 {
            Some(JoystickAxis::LeftY)
        } else {
            None
        }
    } else if s[23] == 82 {
        if s.len() <= 28 {
            None
        } else if s[28] == 88 {
            Some(JoystickAxis::RightX)
        } else if s[28] == 89 {
            Some(JoystickAxis::RightY)
        } else {
            None
        }
    } else {
        None
    }
}

/// The joystick packet a text is shaped like, before validation: the
/// number runs from after the separator to before the closing `]}}`.
pub open spec fn candidate_joystick(s: Seq<u8>) -> Option<ClientPacket> {
    match axis_of(s) {
        Some(axis) => {
            let ts = 25 + axis_name_bytes(axis).len();
            if s.len() < ts + 4 {
                None
            } else {
                match parse_millis(s.subrange(ts as int, s.len() - 3)) {
                    Some(m) => if -1000 <= m <= 1000 {
                        Some(
                            ClientPacket::Input(
                                InputUpdate::Joystick(axis, AxisValue { millis: m as i32 }),
                            ),
                        )
                    } else {
                        None
                    },
                    None => None,
                }
            }
        },
        None => None,
    }
}

/// The packet a text is shaped like, before validation, dispatching on
/// the tag byte after the common prefix.
pub open spec fn candidate(s: Seq<u8>) -> Option<ClientPacket> {
    if s.len() < 12 {
        None
    } else if s[11] == 66 {
        candidate_button(s)
    } else if s[11] == 74 {
        candidate_joystick(s)
    } else {
        None
    }
}

/// The packet a wire text denotes: the text must be, byte for byte, the
/// canonical encoding of the packet it is shaped like.
pub open spec fn spec_parse(s: Seq<u8>) -> Option<ClientPacket> {
    match candidate(s) {
        Some(p) => if p.wf() && s == spec_encode(p) {
            Some(p)
        } else {
            None
        },
        None => None,
    }
}

proof fn lemma_parse_magnitude_roundtrip(a: int)
    requires
        1 <= a <= 1000,
    ensures
        parse_magnitude(magnitude_bytes(a)) == Some(a),
{
    if a != 1000 {
        let d1 = a / 100;
        let d2 = (a / 10) % 10;
        let d3 = a % 10;
        assert(0 <= d3 <= 9);
        assert(0 <= d2 <= 9);
        assert(0 <= d1 <= 9) by {
            vstd::arithmetic::div_mod::lemma_div_is_ordered(a, 999, 100);
        }
        assert(d1 * 100 + d2 * 10 + d3 == a) by {
            vstd::arithmetic::div_mod::lemma_fundamental_div_mod(a, 10);
            vstd::arithmetic::div_mod::lemma_fundamental_div_mod(a / 10, 10);
            vstd::arithmetic::div_mod::lemma_div_denominator(a, 10, 10);
        }
    }
}

proof fn lemma_parse_millis_roundtrip(m: int)
    requires
        -1000 <= m <= 1000,
    ensures
        parse_millis(millis_bytes(m)) == Some(m),
{
    if m < 0 {
        lemma_parse_magnitude_roundtrip(-m);
        assert((seq![45u8] + magnitude_bytes(-m)).skip(1) =~= magnitude_bytes(-m));
    } else if m > 0 {
        lemma_parse_magnitude_roundtrip(m);
    }
}

#[verifier::rlimit(60)]
proof fn lemma_round_trip_button(bt: ButtonType, v: bool)
    ensures
        spec_parse(spec_encode(ClientPacket::Input(InputUpdate::Button(bt, v)))) == Some(
            ClientPacket::Input(InputUpdate::Button(bt, v)),
        ),
{
    let p = ClientPacket::Input(InputUpdate::Button(bt, v));
    let s = spec_encode(p);
    let name = button_name_bytes(bt);
    assert(s[11] == 66);
    assert(s[21] == name[0]);
    assert(button_of_first_byte(s[21]) == Some(bt));
    let bp = 23 + name.len();
    assert(s[bp as int] == bool_bytes(v)[0]);
    assert(candidate(s) == Some(p));
}

#[verifier::rlimit(60)]
proof fn lemma_round_trip_joystick(axis: JoystickAxis, value: AxisValue)
    requires
        value.wf(),
    ensures
        spec_parse(spec_encode(ClientPacket::Input(InputUpdate::Joystick(axis, value)))) == Some(
            ClientPacket::Input(InputUpdate::Joystick(axis, value)),
        ),
{
    let p = ClientPacket::Input(InputUpdate::Joystick(axis, value));
    let s = spec_encode(p);
    let aname = axis_name_bytes(axis);
    let mb = millis_bytes(value.millis as int);
    assert(s[11] == 74);
    assert(s[23] == aname[0]);
    match axis {
        JoystickAxis::LeftX => assert(s[27] == 88),
        JoystickAxis::LeftY => assert(s[27] == 89),
        JoystickAxis::RightX => assert(s[28] == 88),
        JoystickAxis::RightY => assert(s[28] == 89),
    }
    assert(axis_of(s) == Some(axis));
    let ts = 25 + aname.len() as int;
    assert(mb.len() >= 1);
    assert(s.len() == ts + mb.len() + 3);
    assert forall|i: int| 0 <= i < mb.len() implies s[ts + i] == mb[i] by {}
    assert(s.subrange(ts, s.len() - 3) =~= mb);
    lemma_parse_millis_roundtrip(value.millis as int);
    assert(AxisValue { millis: value.millis } == value);
    assert(candidate(s) == Some(p));
}

/// Round trip: the canonical encoding of any packet parses back to
/// exactly that packet.
pub proof fn lemma_round_trip(p: ClientPacket)
    requires
        p.wf(),
    ensures
        spec_parse(spec_encode(p)) == Some(p),
{
    match p {
        ClientPacket::Input(InputUpdate::Button(bt, v)) => lemma_round_trip_button(bt, v),
        ClientPacket::Input(InputUpdate::Joystick(axis, value)) => lemma_round_trip_joystick(
            axis,
            value,
        ),
    }
}

/// Distinct packets never share a wire text.
pub proof fn lemma_encode_injective(p1: ClientPacket, p2: ClientPacket)
    requires
        p1.wf(),
        p2.wf(),
        spec_encode(p1) == spec_encode(p2),
    ensures
        p1 == p2,
{
    lemma_round_trip(p1);
    lemma_round_trip(p2);
}

/// Byte-for-byte comparison of two texts.
fn bytes_eq(a: &[u8], b: &[u8]) -> (r: bool)
    ensures
        r == (a@ == b@),
{
    if a.len() != b.len() {
        return false;
    }
    let mut i: usize = 0;
    while i < a.len()
        invariant
            a@.len() == b@.len(),
            i <= a@.len(),
            forall|j: int| 0 <= j < i ==> a@[j] == b@[j],
        decreases a@.len() - i,
    {
        if a[i] != b[i] {
            return false;
        }
        i = i + 1;
    }
    proof {
        assert(a@ =~= b@);
    }
    true
}

/// Decodes wire text: succeeds on exactly the canonical encoding of a
/// packet, returning that packet, and rejects every other text.
#[verifier::rlimit(100)]
pub fn decode(s: &[u8]) -> (r: Result<ClientPacket, DecodeError>)
    ensures
        match r {
            Ok(p) => p.wf() && s@ == spec_encode(p) && spec_parse(s@) == Some(p),
            Err(e) => e == DecodeError::Malformed && spec_parse(s@) is None,
        },
{
    if s.len() < 12 {
        return Err(DecodeError::Malformed);
    }
    let tag = s[11];
    if tag == 66 {
        if s.len() <= 21 {
            return Err(DecodeError::Malformed);
        }
        let c = s[21];
        let (bt, nl): (ButtonType, usize) = if c == 65 {
            (ButtonType::A, 1)
        } else if c == 66 {
            (ButtonType::B, 1)
        } else if c == 88 {
            (ButtonType::X, 1)
        } else if c == 89 {
            (ButtonType::Y, 1)
        } else if c == 85 {
            (ButtonType::Up, 2)
        } else if c == 68 {
            (ButtonType::Down, 4)
        } else if c == 76 {
            (ButtonType::Left, 4)
        } else if c == 82 {
            (ButtonType::Right, 5)
        } else {
            return Err(DecodeError::Malformed);
        };
        assert(button_name_bytes(bt).len() == nl);
        let bp = 23 + nl;
        if bp >= s.len() {
            return Err(DecodeError::Malformed);
        }
        let bb = s[bp];
        let v = if bb == 116 {
            true
        } else if bb == 102 {
            false
        } else {
            return Err(DecodeError::Malformed);
        };
        let p = ClientPacket::Input(InputUpdate::Button(bt, v));
        assert(candidate(s@) == Some(p));
        let e = encode(&p);
        if bytes_eq(s, e.as_slice()) {
            Ok(p)
        } else {
            Err(DecodeError::Malformed)
        }
    } else if tag == 74 {
        if s.len() <= 23 {
            return Err(DecodeError::Malformed);
        }
        let a0 = s[23];
        let (axis, al): (JoystickAxis, usize) = if a0 == 76 {
            if s.len() <= 27 {
                return Err(DecodeError::Malformed);
            }
            let a4 = s[27];
            if a4 == 88 {
                (JoystickAxis::LeftX, 5)
            } else if a4 == 89 {
                (JoystickAxis::LeftY, 5)
            } else {
                return Err(DecodeError::Malformed);
            }
        } else if a0 == 82 {
            if s.len() <= 28 {
                return Err(DecodeError::Malformed);
            }
            let a5 = s[28];
            if a5 == 88 {
                (JoystickAxis::RightX, 6)
            } else if a5 == 89 {
                (JoystickAxis::RightY, 6)
            } else {
                return Err(DecodeError::Malformed);
            }
        } else {
            return Err(DecodeError::Malformed);
        };
        assert(axis_name_bytes(axis).len() == al);
        let ts = 25 + al;
        if s.len() < ts + 4 {
            return Err(DecodeError::Malformed);
        }
        let te = s.len() - 3;
        let ghost t = s@.subrange(ts as int, te as int);
        let neg = s[ts] == 45;
        let ms = if neg {
            ts + 1
        } else {
            ts
        };
        let mlen = te - ms;
        if mlen == 0 {
            return Err(DecodeError::Malformed);
        }
        let m_val: i32;
        if mlen == 1 && s[ms] == 48 {
            if neg {
                return Err(DecodeError::Malformed);
            }
            m_val = 0;
        } else if mlen == 1 && s[ms] == 49 {
            m_val = if neg {
                -1000
            } else {
                1000
            };
        } else if mlen >= 3 && mlen <= 5 && s[ms] == 48 && s[ms + 1] == 46 {
            let d1 = s[ms + 2] as i32 - 48;
            let mut a: i32 = d1 * 100;
            if mlen >= 4 {
                a = a + (s[ms + 3] as i32 - 48) * 10;
            }
            if mlen == 5 {
                a = a + (s[ms + 4] as i32 - 48);
            }
            if neg {
                if a <= 0 {
                    return Err(DecodeError::Malformed);
                }
                m_val = -a;
            } else {
                m_val = a;
            }
        } else {
            return Err(DecodeError::Malformed);
        }
        assert(parse_millis(t) == Some(m_val as int));
        let av = match AxisValue::new(m_val) {
            Some(av) => av,
            None => {
                return Err(DecodeError::Malformed);
            },
        };
        let p = ClientPacket::Input(InputUpdate::Joystick(axis, av));
        assert(candidate(s@) == Some(p));
        let e = encode(&p);
        if bytes_eq(s, e.as_slice()) {
            Ok(p)
        } else {
            Err(DecodeError::Malformed)
        }
    } else {
        Err(DecodeError::Malformed)
    }
}

impl ClientPacket {
    /// Classifies one transport frame and decodes its payload: only text
    /// frames carry packets; binary payloads and control frames are
    /// rejected with a typed error.
    pub fn from_ws_message(msg: &Frame) -> (r: Result<ClientPacket, DecodeError>)
        ensures
            match *msg {
                Frame::Text(bytes) => (match r {
                    Ok(p) => p.wf() && bytes@ == spec_encode(p) && spec_parse(bytes@) == Some(p),
                    Err(e) => e == DecodeError::Malformed && spec_parse(bytes@) is None,
                }),
                Frame::Binary(_) => r == Err::<ClientPacket, DecodeError>(
                    DecodeError::BinaryUnsupported,
                ),
                Frame::Close => r == Err::<ClientPacket, DecodeError>(
                    DecodeError::UnsupportedFrame,
                ),
                Frame::Other => r == Err::<ClientPacket, DecodeError>(
                    DecodeError::UnsupportedFrame,
                ),
            },
    {
        match msg {
            Frame::Text(bytes) => decode(bytes.as_slice()),
            Frame::Binary(_) => Err(DecodeError::BinaryUnsupported),
            Frame::Close => Err(DecodeError::UnsupportedFrame),
            Frame::Other => Err(DecodeError::UnsupportedFrame),
        }
    }
}

} // verus!
