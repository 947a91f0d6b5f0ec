//! What the decoder reads back of what the encoder writes.

use vstd::prelude::*;
use vstd::utf8::{decode_utf8, encode_utf8, encode_utf8_decode_utf8, encode_utf8_valid_utf8};

use crate::message::decoder::{
    cut_at_bar, decode_failure, declared_len, field_ok, first_bad_field, frame_message_type,
    from_region, header_pairs, decoded_intent, len_at, payload_text, replace_from_failure, replaced_from,
    size_field, to_region, header_region, payload_region,
};
use crate::message::encoder::{
    ascii_bytes, frame_len, dec_field, frame, from_bytes, header_bytes, hex_len_field,
    message_frame_len, message_frame, payload_bytes, to_bytes, wire_type_number,
};
use crate::message::header::spec_header;
use crate::message::types::Message;
use crate::message::wire::{byte_chars, dec_field_value, len_field_value, tab_pairs};
use crate::message::encoder::spec_payload_text;
use crate::text::{
    all_digits, dec_digits, digit_char, digit_value, digits_value, first_index_of, hex_digits,
    lemma_first_index_of, parse_i32, parse_unsigned, trim_leading_zeros, utf8_text, zero_pad,
};

verus! {

// ── Digits ───────────────────────────────────────────────────────────────────

proof fn lemma_digit_char(d: nat, base: nat)
    requires
        base == 10 || base == 16,
        d < base,
    ensures
        digit_value(digit_char(d), base) == Some(d),
        '\0' <= digit_char(d) <= '\u{7f}',
        digit_char(d) != 'x',
        digit_char(d) != '+',
        digit_char(d) != '-',
        digit_char(d) == '0' <==> d == 0,
{
}

/// The decimal digits of `n` are digits, read back as `n`.
pub(crate) proof fn lemma_dec_digits_read(n: nat)
    ensures
        dec_digits(n).len() > 0,
        all_digits(dec_digits(n), 10),
        digits_value(dec_digits(n), 10) == n,
        forall|i: int|
            #![trigger dec_digits(n)[i]]
            0 <= i < dec_digits(n).len() ==> '\0' <= dec_digits(n)[i] <= '\u{7f}' && dec_digits(n)[i] != 'x'
                && dec_digits(n)[i] != '+' && dec_digits(n)[i] != '-',
        n > 0 ==> dec_digits(n)[0] != '0',
    decreases n,
{
    let s = dec_digits(n);
    if n < 10 {
        lemma_digit_char(n, 10);
        assert(s =~= seq![digit_char(n)]);
        assert(s.drop_last() =~= Seq::<char>::empty());
        assert(s.last() == digit_char(n));
        assert(digits_value(s, 10) == digits_value(s.drop_last(), 10) * 10 + n);
    } else {
        lemma_dec_digits_read(n / 10);
        lemma_digit_char(n % 10, 10);
        let t = dec_digits(n / 10);
        assert(s =~= t.push(digit_char(n % 10)));
        assert(s.drop_last() =~= t);
        assert forall|i: int| 0 <= i < s.len() implies (#[trigger] digit_value(s[i], 10)) is Some by {
            if i < t.len() {
                assert(s[i] == t[i]);
            }
        }
        assert forall|i: int|
            #![trigger s[i]]
            0 <= i < s.len() implies '\0' <= s[i] <= '\u{7f}' && s[i] != 'x' && s[i] != '+' && s[i]
                != '-' by {
            if i < t.len() {
                assert(s[i] == t[i]);
            }
        }
        assert(s.last() == digit_char(n % 10));
        assert(digits_value(s, 10) == digits_value(t, 10) * 10 + n % 10);
        assert(n == (n / 10) * 10 + n % 10);
        assert(s[0] == t[0]);
    }
}

/// The hexadecimal digits of `n` are digits, read back as `n`.
proof fn lemma_hex_digits_read(n: nat)
    ensures
        hex_digits(n).len() > 0,
        all_digits(hex_digits(n), 16),
        digits_value(hex_digits(n), 16) == n,
        forall|i: int|
            #![trigger hex_digits(n)[i]]
            0 <= i < hex_digits(n).len() ==> '\0' <= hex_digits(n)[i] <= '\u{7f}' && hex_digits(n)[i] != 'x'
                && hex_digits(n)[i] != '+' && hex_digits(n)[i] != '-',
        n > 0 ==> hex_digits(n)[0] != '0',
    decreases n,
{
    let s = hex_digits(n);
    if n < 16 {
        lemma_digit_char(n, 16);
        assert(s =~= seq![digit_char(n)]);
        assert(s.drop_last() =~= Seq::<char>::empty());
        assert(s.last() == digit_char(n));
        assert(digits_value(s, 16) == digits_value(s.drop_last(), 16) * 16 + n);
    } else {
        lemma_hex_digits_read(n / 16);
        lemma_digit_char(n % 16, 16);
        let t = hex_digits(n / 16);
        assert(s =~= t.push(digit_char(n % 16)));
        assert(s.drop_last() =~= t);
        assert forall|i: int| 0 <= i < s.len() implies (#[trigger] digit_value(s[i], 16)) is Some by {
            if i < t.len() {
                assert(s[i] == t[i]);
            }
        }
        assert forall|i: int|
            #![trigger s[i]]
            0 <= i < s.len() implies '\0' <= s[i] <= '\u{7f}' && s[i] != 'x' && s[i] != '+' && s[i]
                != '-' by {
            if i < t.len() {
                assert(s[i] == t[i]);
            }
        }
        assert(s.last() == digit_char(n % 16));
        assert(digits_value(s, 16) == digits_value(t, 16) * 16 + n % 16);
        assert(n == (n / 16) * 16 + n % 16);
        assert(s[0] == t[0]);
    }
}

/// The number of hex digits of a value below `16^k`.
proof fn lemma_hex_digits_len(n: nat, k: nat)
    requires
        k >= 1,
        n < crate::message::wire::pow_nat(16, k),
    ensures
        hex_digits(n).len() <= k,
    decreases k,
{
    if n >= 16 {
        assert(k >= 2) by {
            if k == 1 {
                assert(crate::message::wire::pow_nat(16, 1) == 16) by {
                    reveal_with_fuel(crate::message::wire::pow_nat, 2);
                }
            }
        }
        let p = crate::message::wire::pow_nat(16, (k - 1) as nat);
        assert(n < 16 * p);
        assert(n / 16 < p) by (nonlinear_arith)
            requires
                n < 16 * p,
        ;
        lemma_hex_digits_len(n / 16, (k - 1) as nat);
    }
}

/// The number of decimal digits of a value below `10^k`.
proof fn lemma_dec_digits_len(n: nat, k: nat)
    requires
        k >= 1,
        n < crate::message::wire::pow_nat(10, k),
    ensures
        dec_digits(n).len() <= k,
    decreases k,
{
    if n >= 10 {
        assert(k >= 2) by {
            if k == 1 {
                assert(crate::message::wire::pow_nat(10, 1) == 10) by {
                    reveal_with_fuel(crate::message::wire::pow_nat, 2);
                }
            }
        }
        let p = crate::message::wire::pow_nat(10, (k - 1) as nat);
        assert(n < 10 * p);
        assert(n / 10 < p) by (nonlinear_arith)
            requires
                n < 10 * p,
        ;
        lemma_dec_digits_len(n / 10, (k - 1) as nat);
    }
}

/// Leading zeros do not change the value of a digit string.
proof fn lemma_zeros_value(z: nat, s: Seq<char>, base: nat)
    requires
        base == 10 || base == 16,
    ensures
        digits_value(Seq::new(z, |i: int| '0') + s, base) == digits_value(s, base),
    decreases s.len(), z,
{
    let w = Seq::new(z, |i: int| '0') + s;
    if s.len() > 0 {
        lemma_zeros_value(z, s.drop_last(), base);
        assert(w.drop_last() =~= Seq::new(z, |i: int| '0') + s.drop_last());
        assert(w.last() == s.last());
    } else if z > 0 {
        lemma_zeros_value((z - 1) as nat, s, base);
        assert(w.drop_last() =~= Seq::new((z - 1) as nat, |i: int| '0') + s);
        assert(w.last() == '0');
    } else {
        assert(w =~= s);
    }
}

/// Leading zeros are what `trim_leading_zeros` removes.
proof fn lemma_trim_zeros(z: nat, s: Seq<char>)
    requires
        s.len() > 0 ==> s[0] != '0',
    ensures
        trim_leading_zeros(Seq::new(z, |i: int| '0') + s) == s,
    decreases z,
{
    let w = Seq::new(z, |i: int| '0') + s;
    if z > 0 {
        assert(w.drop_first() =~= Seq::new((z - 1) as nat, |i: int| '0') + s);
        lemma_trim_zeros((z - 1) as nat, s);
    } else {
        assert(w =~= s);
    }
}

proof fn lemma_ascii_chars(s: Seq<char>)
    requires
        forall|i: int| #![trigger s[i]] 0 <= i < s.len() ==> '\0' <= s[i] <= '\u{7f}',
    ensures
        byte_chars(ascii_bytes(s)) == s,
        ascii_bytes(s).len() == s.len(),
{
    assert forall|i: int| 0 <= i < s.len() implies #[trigger] byte_chars(ascii_bytes(s))[i] == s[i] by {
        let c = s[i];
        assert('\0' <= c <= '\u{7f}');
        assert(((c as u8) as char) == c);
    }
    assert(byte_chars(ascii_bytes(s)) =~= s);
}

// ── Fields ───────────────────────────────────────────────────────────────────

/// A length below `16^8` is written in 9 bytes and read back.
pub proof fn lemma_hex_len_field(n: nat)
    requires
        n < 0x1_0000_0000,
    ensures
        hex_len_field(n).len() == 9,
        len_field_value(hex_len_field(n)) == Some(n),
{
    assert(crate::message::wire::pow_nat(16, 8) == 0x1_0000_0000) by {
        reveal_with_fuel(crate::message::wire::pow_nat, 9);
    }
    lemma_hex_digits_len(n, 8);
    lemma_hex_digits_read(n);
    let h = hex_digits(n);
    let z = (8 - h.len()) as nat;
    let p = zero_pad(h, 8);
    assert(p =~= Seq::new(z, |i: int| '0') + h);
    let s = seq!['x'] + p;
    assert forall|i: int| #![trigger s[i]] 0 <= i < s.len() implies '\0' <= s[i] <= '\u{7f}' by {
        if i > 0 && i - 1 >= z {
            assert(s[i] == h[i - 1 - z]);
        } else if i > 0 {
            assert(s[i] == '0');
        }
    }
    lemma_ascii_chars(s);
    assert(byte_chars(hex_len_field(n)) == s);
    assert(s.drop_first() =~= p);
    lemma_zeros_value(z, h, 16);
    assert(all_digits(p, 16)) by {
        assert forall|i: int| 0 <= i < p.len() implies (#[trigger] digit_value(p[i], 16)) is Some by {
            if i >= z {
                assert(p[i] == h[i - z]);
            }
        }
    }
    assert(p[0] != '+') by {
        if z == 0 {
            assert(p[0] == h[0]);
        } else {
            assert(p[0] == '0');
        }
    }
    assert(parse_unsigned(p, 16) == Some(n));
}

/// A length field is plain ASCII.
pub proof fn lemma_hex_len_field_ascii(n: nat)
    requires
        n < 0x1_0000_0000,
    ensures
        forall|i: int| 0 <= i < hex_len_field(n).len() ==> #[trigger] hex_len_field(n)[i] < 0x80,
{
    lemma_hex_len_field(n);
    let s = seq!['x'] + zero_pad(hex_digits(n), 8);
    let h = hex_digits(n);
    let z = (8 - h.len()) as nat;
    lemma_hex_digits_read(n);
    assert(zero_pad(h, 8) =~= Seq::new(z, |i: int| '0') + h);
    assert forall|i: int| #![trigger s[i]] 0 <= i < s.len() implies '\0' <= s[i] <= '\u{7f}' by {
        if i > 0 && i - 1 >= z {
            assert(s[i] == h[i - 1 - z]);
        } else if i > 0 {
            assert(s[i] == '0');
        }
    }
    lemma_ascii_chars(s);
    assert forall|i: int| 0 <= i < hex_len_field(n).len() implies #[trigger] hex_len_field(n)[i] < 0x80 by {
        assert(hex_len_field(n)[i] == s[i] as u8);
        assert(byte_chars(hex_len_field(n))[i] == s[i]);
    }
}

/// A number below `10^9` is written in 9 bytes and read back.
pub proof fn lemma_dec_field(n: nat)
    requires
        n < 1_000_000_000,
    ensures
        dec_field(n).len() == 9,
        dec_field_value(dec_field(n)) == Some(n as i32),
{
    assert(crate::message::wire::pow_nat(10, 9) == 1_000_000_000) by {
        reveal_with_fuel(crate::message::wire::pow_nat, 10);
    }
    lemma_dec_digits_len(n, 9);
    lemma_dec_digits_read(n);
    let d = dec_digits(n);
    let z = (9 - d.len()) as nat;
    let p = zero_pad(d, 9);
    assert(p =~= Seq::new(z, |i: int| '0') + d);
    assert forall|i: int| #![trigger p[i]] 0 <= i < p.len() implies '\0' <= p[i] <= '\u{7f}' by {
        if i >= z {
            assert(p[i] == d[i - z]);
        } else {
            assert(p[i] == '0');
        }
    }
    lemma_ascii_chars(p);
    assert(byte_chars(dec_field(n)) == p);
    if n == 0 {
        assert(d =~= seq!['0']);
        assert(p =~= Seq::new(9, |i: int| '0') + Seq::<char>::empty());
        lemma_trim_zeros(9, Seq::<char>::empty());
    } else {
        lemma_trim_zeros(z, d);
        assert(trim_leading_zeros(p) == d);
        assert(d[0] != '-');
        assert(d[0] != '+');
        assert(parse_unsigned(d, 10) == Some(n));
        assert(parse_i32(d) == Some(n as i32));
    }
}

// ── Frames ───────────────────────────────────────────────────────────────────

/// The fields and regions of a frame built from the given parts.
#[verifier::rlimit(50)]
#[verifier::spinoff_prover]
pub proof fn lemma_frame_layout(
    to: Seq<u8>,
    from: Seq<u8>,
    header: Seq<u8>,
    payload: Seq<u8>,
    message_type: i32,
)
    requires
        frame_len(to, from, header, payload) < 0x1_0000_0000,
        0 <= message_type < 1_000_000_000,
    ensures
        ({
            let raw = frame(to, from, header, payload, message_type);
            &&& raw.len() == frame_len(to, from, header, payload)
            &&& first_bad_field(raw, 0) is None
            &&& len_at(raw, 0) == raw.len()
            &&& len_at(raw, 1) == to.len()
            &&& len_at(raw, 2) == from.len()
            &&& len_at(raw, 3) == header.len()
            &&& len_at(raw, 6) == payload.len()
            &&& frame_message_type(raw) == message_type
            &&& declared_len(raw) == raw.len()
            &&& to_region(raw) == to
            &&& from_region(raw) == from
            &&& header_region(raw) == header
            &&& payload_region(raw) == payload
        }),
{
    let raw = frame(to, from, header, payload, message_type);
    let c = frame_len(to, from, header, payload);
    lemma_hex_len_field(c);
    lemma_hex_len_field(to.len());
    lemma_hex_len_field(from.len());
    lemma_hex_len_field(header.len());
    lemma_hex_len_field(payload.len());
    lemma_dec_field(message_type as nat);
    lemma_dec_field(0);
    assert(wire_type_number(message_type) == message_type as nat);
    let f0 = hex_len_field(c);
    let f1 = hex_len_field(to.len());
    let f2 = hex_len_field(from.len());
    let f3 = hex_len_field(header.len());
    let f4 = dec_field(message_type as nat);
    let f5 = dec_field(0);
    let f6 = hex_len_field(payload.len());
    assert(raw =~= f0 + f1 + f2 + f3 + f4 + f5 + f6 + to + from + header + payload);
    assert(size_field(raw, 0) =~= f0);
    assert(size_field(raw, 1) =~= f1);
    assert(size_field(raw, 2) =~= f2);
    assert(size_field(raw, 3) =~= f3);
    assert(size_field(raw, 4) =~= f4);
    assert(size_field(raw, 5) =~= f5);
    assert(size_field(raw, 6) =~= f6);
    assert(first_bad_field(raw, 0) is None) by {
        reveal_with_fuel(first_bad_field, 8);
    }
    assert(to_region(raw) =~= to);
    assert(from_region(raw) =~= from);
    assert(header_region(raw) =~= header);
    assert(payload_region(raw) =~= payload);
}

/// The text of the UTF-8 encoding of `s` is `s`.
pub proof fn lemma_utf8_text(s: Seq<char>)
    ensures
        utf8_text(encode_utf8(s)) == s,
{
    encode_utf8_valid_utf8(s);
    encode_utf8_decode_utf8(s);
}

/// An address without `|` keeps all of itself.
proof fn lemma_cut_at_bar(s: Seq<char>)
    requires
        !s.contains('|'),
    ensures
        cut_at_bar(s) == s,
{
    lemma_first_index_of(s, '|');
    if first_index_of(s, '|') is Some {
        let i = first_index_of(s, '|').unwrap();
        assert(s.contains('|')) by {
            assert(s[i] == '|');
        }
    }
}

/// Decoding reads back what encoding wrote: a frame that
/// `encode_message_with_limit` accepts with the conversation id `conv`
/// (within 4 GiB, with a message type of at most nine digits) is accepted by
/// the decoder under any limit it fits, and gives the same to address, the same from address (when it has
/// no `|`), the intent's message type, and the header and payload text that
/// were written; its total-length field reads as the frame's whole length.
pub proof fn lemma_decode_reads_encoded(msg: Message, conv: Seq<char>, max: int)
    requires
        message_frame_len(msg, conv) < 0x1_0000_0000,
        0 <= msg.envelope.intent.message_type < 1_000_000_000,
        message_frame(msg, conv).len() <= max,
    ensures
        decode_failure(message_frame(msg, conv), max) is None,
        utf8_text(to_region(message_frame(msg, conv))) == msg.envelope.to@,
        !msg.envelope.from@.contains('|') ==> cut_at_bar(utf8_text(from_region(message_frame(msg, conv))))
            == msg.envelope.from@,
        frame_message_type(message_frame(msg, conv)) == msg.envelope.intent.message_type,
        len_at(message_frame(msg, conv), 0) == message_frame(msg, conv).len(),
        header_pairs(message_frame(msg, conv)) == tab_pairs(spec_header(msg, msg.envelope.intent, conv)),
        payload_text(message_frame(msg, conv)) == spec_payload_text(msg, msg.envelope.intent),
{
    lemma_frame_layout(
        to_bytes(msg),
        from_bytes(msg),
        header_bytes(msg, conv),
        payload_bytes(msg),
        msg.envelope.intent.message_type,
    );
    lemma_utf8_text(msg.envelope.to@);
    lemma_utf8_text(msg.envelope.from@);
    lemma_utf8_text(spec_header(msg, msg.envelope.intent, conv));
    lemma_utf8_text(spec_payload_text(msg, msg.envelope.intent));
    if !msg.envelope.from@.contains('|') {
        lemma_cut_at_bar(msg.envelope.from@);
    }
}


/// The fields and regions of a frame whose from address was replaced.
#[verifier::spinoff_prover]
proof fn lemma_replaced_layout(raw: Seq<u8>, from: Seq<char>)
    requires
        raw.len() >= 63,
        63 + len_at(raw, 1) + len_at(raw, 2) <= raw.len(),
        63 + len_at(raw, 1) + encode_utf8(from).len() + len_at(raw, 3) + len_at(raw, 6)
            < 0x1_0000_0000,
    ensures
        ({
            let new = replaced_from(raw, from);
            let nf = encode_utf8(from);
            let to = len_at(raw, 1);
            &&& new.len() == 63 + to + nf.len() + raw.len() - (63 + to + len_at(raw, 2))
            &&& size_field(new, 0) == hex_len_field(
                63 + to + nf.len() + len_at(raw, 3) + len_at(raw, 6),
            )
            &&& size_field(new, 1) == size_field(raw, 1)
            &&& size_field(new, 2) == hex_len_field(nf.len())
            &&& size_field(new, 3) == size_field(raw, 3)
            &&& size_field(new, 4) == size_field(raw, 4)
            &&& size_field(new, 5) == size_field(raw, 5)
            &&& size_field(new, 6) == size_field(raw, 6)
            &&& new.subrange(63, 63 + to as int) == raw.subrange(63, 63 + to as int)
            &&& new.subrange(63 + to as int, (63 + to + nf.len()) as int) == nf
            &&& new.skip((63 + to + nf.len()) as int) == raw.skip((63 + to + len_at(raw, 2)) as int)
        }),
{
    let nf = encode_utf8(from);
    let to = len_at(raw, 1);
    let of = len_at(raw, 2);
    let total = 63 + to + nf.len() + len_at(raw, 3) + len_at(raw, 6);
    lemma_hex_len_field(total);
    lemma_hex_len_field(nf.len());
    let a = hex_len_field(total);
    let b = hex_len_field(nf.len());
    let x = raw.subrange(9, 18);
    let y = raw.subrange(27, 63);
    let z = raw.subrange(63, 63 + to as int);
    let rest = raw.skip((63 + to + of) as int);
    let head = a + x + b + y;
    assert(head.len() == 63);
    let new = replaced_from(raw, from);
    assert(new == head + z + nf + rest);
    assert(new.subrange(0, 63) =~= head);
    assert(head.subrange(0, 9) =~= a);
    assert(head.subrange(9, 18) =~= x);
    assert(head.subrange(18, 27) =~= b);
    assert(head.subrange(27, 36) =~= raw.subrange(27, 36));
    assert(head.subrange(36, 45) =~= raw.subrange(36, 45));
    assert(head.subrange(45, 54) =~= raw.subrange(45, 54));
    assert(head.subrange(54, 63) =~= raw.subrange(54, 63));
    assert forall|k: int| 0 <= k < 7 implies #[trigger] size_field(new, k) == new.subrange(0, 63).subrange(
        9 * k,
        9 * k + 9,
    ) by {
        assert(size_field(new, k) =~= new.subrange(0, 63).subrange(9 * k, 9 * k + 9));
    }
    assert(size_field(new, 0) == a);
    assert(size_field(new, 1) == x);
    assert(size_field(new, 2) == b);
    assert(size_field(new, 3) == raw.subrange(27, 36));
    assert(size_field(new, 4) == raw.subrange(36, 45));
    assert(size_field(new, 5) == raw.subrange(45, 54));
    assert(size_field(new, 6) == raw.subrange(54, 63));
    assert(new.subrange(63, 63 + to as int) =~= z);
    assert(new.subrange(63 + to as int, (63 + to + nf.len()) as int) =~= nf);
    assert(new.skip((63 + to + nf.len()) as int) =~= rest);
}

/// Replacing the from address of a frame the decoder accepts gives a frame
/// it accepts (within 4 GiB and the limit): its from address is the new one
/// (when that has no `|`), and its to address, message type, header (so its
/// header fields, message id and intent) and payload are those of the frame
/// it was given. Its length changes by the difference of the from lengths,
/// its to, header, type, data type and payload length fields are copied, and
/// when the given frame had no trailing bytes its total-length field is its
/// length.
#[verifier::rlimit(50)]
#[verifier::spinoff_prover]
pub proof fn lemma_replace_from(raw: Seq<u8>, from: Seq<char>, max: int)
    requires
        decode_failure(raw, max) is None,
        !from.contains('|'),
        63 + len_at(raw, 1) + encode_utf8(from).len() + len_at(raw, 3) + len_at(raw, 6)
            < 0x1_0000_0000,
        replaced_from(raw, from).len() <= max,
    ensures
        replace_from_failure(raw) is None,
        decode_failure(replaced_from(raw, from), max) is None,
        cut_at_bar(utf8_text(from_region(replaced_from(raw, from)))) == from,
        to_region(replaced_from(raw, from)) == to_region(raw),
        header_region(replaced_from(raw, from)) == header_region(raw),
        payload_region(replaced_from(raw, from)) == payload_region(raw),
        frame_message_type(replaced_from(raw, from)) == frame_message_type(raw),
        header_pairs(replaced_from(raw, from)) == header_pairs(raw),
        decoded_intent(replaced_from(raw, from)) == decoded_intent(raw),
        raw.len() == declared_len(raw) ==> len_at(replaced_from(raw, from), 0) == replaced_from(
            raw,
            from,
        ).len(),
        replaced_from(raw, from).len() == raw.len() - len_at(raw, 2) + encode_utf8(from).len(),
        replaced_from(raw, from).subrange(9, 18) == raw.subrange(9, 18),
        replaced_from(raw, from).subrange(27, 63) == raw.subrange(27, 63),
{
    let nf = encode_utf8(from);
    let to = len_at(raw, 1);
    let of = len_at(raw, 2);
    let h = len_at(raw, 3);
    let p = len_at(raw, 6);
    let total = 63 + to + nf.len() + h + p;
    let new = replaced_from(raw, from);
    assert(field_ok(raw, 0) && field_ok(raw, 1) && field_ok(raw, 2) && field_ok(raw, 3)
        && field_ok(raw, 4) && field_ok(raw, 5) && field_ok(raw, 6)) by {
        reveal_with_fuel(first_bad_field, 8);
    }
    assert(declared_len(raw) <= raw.len());
    lemma_replaced_layout(raw, from);
    lemma_hex_len_field(total);
    lemma_hex_len_field(nf.len());
    assert(first_bad_field(new, 0) is None) by {
        reveal_with_fuel(first_bad_field, 8);
    }
    assert(len_at(new, 2) == nf.len());
    assert(declared_len(new) <= new.len());
    assert(to_region(new) =~= to_region(raw));
    assert(from_region(new) =~= nf);
    let rest = raw.skip((63 + to + of) as int);
    assert(new.skip((63 + to + nf.len()) as int) == rest);
    assert(header_region(new) =~= new.skip((63 + to + nf.len()) as int).subrange(0, h as int));
    assert(header_region(raw) =~= rest.subrange(0, h as int));
    assert(payload_region(new) =~= new.skip((63 + to + nf.len()) as int).subrange(h as int, (h + p) as int));
    assert(payload_region(raw) =~= rest.subrange(h as int, (h + p) as int));
    lemma_utf8_text(from);
    lemma_cut_at_bar(from);
    assert(new.subrange(9, 18) =~= size_field(new, 1));
    assert(raw.subrange(9, 18) =~= size_field(raw, 1));
    assert(new.subrange(27, 63) =~= size_field(new, 3) + size_field(new, 4) + size_field(new, 5)
        + size_field(new, 6));
    assert(raw.subrange(27, 63) =~= size_field(raw, 3) + size_field(raw, 4) + size_field(raw, 5)
        + size_field(raw, 6));
}

} // verus!
