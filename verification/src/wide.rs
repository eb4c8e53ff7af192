//! Names as the window system stores them: UTF-16 code units in a buffer, ended by a NUL.
use vstd::prelude::*;

verus! {

/// The character that stands for a code unit that cannot be decoded.
pub const REPLACEMENT_CHARACTER: char = '\u{FFFD}';

/// A code unit that opens a surrogate pair.
pub open spec fn is_high_surrogate(unit: u16) -> bool {
    0xD800 <= unit < 0xDC00
}

/// A code unit that closes a surrogate pair.
pub open spec fn is_low_surrogate(unit: u16) -> bool {
    0xDC00 <= unit < 0xE000
}

/// The code point of a surrogate pair.
pub open spec fn paired(high: u16, low: u16) -> int {
    0x1_0000 + (high - 0xD800) * 0x400 + (low - 0xDC00)
}

/// Whether a number is the code point of a character.
pub open spec fn is_code_point(code: int) -> bool {
    0 <= code < 0xD800 || 0xE000 <= code < 0x11_0000
}

/// The code units before the first NUL, or all of them where there is none.
pub open spec fn until_nul(units: Seq<u16>) -> Seq<u16> {
    match units.index_of_first(0) {
        Some(end) => units.take(end),
        None => units,
    }
}

/// The text of a sequence of UTF-16 code units: a surrogate pair is one character, a surrogate
/// without its partner becomes the replacement character, any other unit is a character itself.
pub open spec fn decode_lossy(units: Seq<u16>) -> Seq<char>
    decreases units.len(),
{
    if units.len() == 0 {
        Seq::empty()
    } else if units.len() >= 2 && is_high_surrogate(units[0]) && is_low_surrogate(units[1]) {
        seq![paired(units[0], units[1]) as char] + decode_lossy(units.skip(2))
    } else if is_high_surrogate(units[0]) || is_low_surrogate(units[0]) {
        seq![REPLACEMENT_CHARACTER] + decode_lossy(units.skip(1))
    } else {
        seq![units[0] as char] + decode_lossy(units.skip(1))
    }
}

/// `char::from_u32` of the standard library: the character with that code point, and nothing
/// for a number that is no code point.
pub assume_specification[ char::from_u32 ](code: u32) -> (character: Option<char>)
    ensures
        character == if is_code_point(code as int) { Some(code as char) } else { None },
;

/// `String::push` of the standard library: appends one character.
pub assume_specification[ String::push ](text: &mut String, character: char)
    ensures
        final(text)@ == old(text)@.push(character),
;

/// Reads the name in a NUL-terminated buffer of UTF-16 code units.
pub fn wchar_to_string(s: &[u16]) -> (text: String)
    ensures
        text@ == decode_lossy(until_nul(s@)),
{
    let mut end: usize = 0;
    while end < s.len() && s[end] != 0
        invariant
            end <= s@.len(),
            forall|i: int| 0 <= i < end ==> s@[i] != 0,
        decreases s@.len() - end,
    {
        end += 1;
    }
    let ghost units = s@.take(end as int);
    assert(units == until_nul(s@)) by {
        s@.index_of_first_ensures(0);
    }
    let mut text: String = String::new();
    let mut at: usize = 0;
    assert(units.skip(0) == units);
    while at < end
        invariant
            at <= end <= s@.len(),
            units == s@.take(end as int),
            text@ + decode_lossy(units.skip(at as int)) == decode_lossy(units),
        decreases end - at,
    {
        let ghost rest = units.skip(at as int);
        let ghost before = text@;
        let unit: u16 = s[at];
        let mut decoded: Option<char> = None;
        if at + 1 < end && 0xD800 <= unit && unit < 0xDC00 {
            let low: u16 = s[at + 1];
            if 0xDC00 <= low && low < 0xE000 {
                let code: u32 = 0x1_0000 + (unit as u32 - 0xD800) * 0x400 + (low as u32 - 0xDC00);
                decoded = char::from_u32(code);
                at += 1;
            }
        } else {
            decoded = char::from_u32(unit as u32);
        }
        at += 1;
        match decoded {
            Some(character) => text.push(character),
            None => text.push(REPLACEMENT_CHARACTER),
        }
        proof {
            assert(rest.skip(1) == units.skip(at as int) || rest.skip(2) == units.skip(at as int));
            assert(text@ + decode_lossy(units.skip(at as int)) == before + decode_lossy(rest));
        }
    }
    assert(units.skip(end as int) == Seq::<u16>::empty());
    text
}

/// The UTF-16 code units of one character.
pub open spec fn encode_char(character: char) -> Seq<u16> {
    let code = character as int;
    if code < 0x1_0000 {
        seq![code as u16]
    } else {
        seq![
            (0xD800 + (code - 0x1_0000) / 0x400) as u16,
            (0xDC00 + (code - 0x1_0000) % 0x400) as u16,
        ]
    }
}

/// The UTF-16 code units of a text.
pub open spec fn encode(text: Seq<char>) -> Seq<u16>
    decreases text.len(),
{
    if text.len() == 0 {
        Seq::empty()
    } else {
        encode_char(text[0]) + encode(text.skip(1))
    }
}

/// Every character has a code point.
proof fn code_point_of(character: char)
    ensures
        is_code_point(character as int),
{
}

/// Decoding gives back any text that was encoded in UTF-16.
pub proof fn decoding_inverts_encoding(text: Seq<char>)
    ensures
        decode_lossy(encode(text)) == text,
    decreases text.len(),
{
    if text.len() > 0 {
        let rest = encode(text.skip(1));
        let units = encode_char(text[0]) + rest;
        decoding_inverts_encoding(text.skip(1));
        let code = text[0] as int;
        code_point_of(text[0]);
        if code < 0x1_0000 {
            assert(units[0] == code);
            assert(units.skip(1) == rest);
        } else {
            assert(is_high_surrogate(units[0]) && is_low_surrogate(units[1]));
            assert(paired(units[0], units[1]) == code);
            assert(units.skip(2) == rest);
        }
        assert(decode_lossy(units) == seq![text[0]] + decode_lossy(rest));
        assert(text == seq![text[0]] + text.skip(1));
    } else {
        assert(text == Seq::<char>::empty());
    }
}

/// A text without a NUL has no NUL among its code units.
proof fn encoding_keeps_nul_out(text: Seq<char>)
    requires
        !text.contains('\0'),
    ensures
        !encode(text).contains(0),
    decreases text.len(),
{
    if text.len() > 0 {
        let head = encode_char(text[0]);
        let rest = encode(text.skip(1));
        assert(text.contains(text[0]));
        assert forall|c: char| text.skip(1).contains(c) implies text.contains(c) by {
            let i = choose|i: int| 0 <= i < text.skip(1).len() && text.skip(1)[i] == c;
            assert(text[i + 1] == c);
        }
        encoding_keeps_nul_out(text.skip(1));
        assert forall|i: int| 0 <= i < (head + rest).len() implies (head + rest)[i] != 0 by {
            if i < head.len() {
                code_point_of(text[0]);
            } else {
                assert(rest.contains(rest[i - head.len()]));
            }
        }
    }
}

/// A name without a NUL, written into a buffer and ended by a NUL, is read back as it was,
/// whatever the buffer holds behind it.
pub proof fn terminated_name_is_read_back(name: Seq<char>, behind: Seq<u16>)
    requires
        !name.contains('\0'),
    ensures
        decode_lossy(until_nul(encode(name) + seq![0u16] + behind)) == name,
{
    let units = encode(name);
    let buffer = units + seq![0u16] + behind;
    encoding_keeps_nul_out(name);
    decoding_inverts_encoding(name);
    buffer.index_of_first_ensures(0);
    assert(buffer[units.len() as int] == 0);
    assert forall|i: int| 0 <= i < units.len() implies buffer[i] != 0 by {
        assert(units.contains(units[i]));
    }
    assert(until_nul(buffer) == units);
}

/// A name without a NUL that fills its buffer, so that nothing ends it, is read back as it was.
pub proof fn unterminated_name_is_read_back(name: Seq<char>)
    requires
        !name.contains('\0'),
    ensures
        decode_lossy(until_nul(encode(name))) == name,
{
    encoding_keeps_nul_out(name);
    decoding_inverts_encoding(name);
    encode(name).index_of_first_ensures(0);
}

/// Decoding goes piece by piece: two pieces that do not tear a surrogate pair apart are decoded
/// each on its own.
pub proof fn decoding_goes_piece_by_piece(one: Seq<u16>, other: Seq<u16>)
    requires
        one.len() > 0 && other.len() > 0 ==> !(0xD800 <= one.last() <= 0xDBFF && 0xDC00 <= other[0]
            <= 0xDFFF),
    ensures
        decode_lossy(one + other) == decode_lossy(one) + decode_lossy(other),
    decreases one.len(),
{
    let both = one + other;
    if one.len() == 0 {
        assert(both == other);
        assert(decode_lossy(one) + decode_lossy(other) == decode_lossy(other));
    } else if one.len() >= 2 && is_high_surrogate(one[0]) && is_low_surrogate(one[1]) {
        decoding_goes_piece_by_piece(one.skip(2), other);
        assert(both.skip(2) == one.skip(2) + other);
        assert(decode_lossy(both) == seq![paired(one[0], one[1]) as char] + decode_lossy(
            one.skip(2) + other,
        ));
        assert(decode_lossy(one + other) == decode_lossy(one) + decode_lossy(other));
    } else {
        decoding_goes_piece_by_piece(one.skip(1), other);
        assert(both.skip(1) == one.skip(1) + other);
        assert(decode_lossy(one + other) == decode_lossy(one) + decode_lossy(other));
    }
}

/// A code unit on its own is one character: itself, or the replacement character if it is half of
/// a surrogate pair.
pub proof fn a_single_unit_is_one_character(unit: u16)
    ensures
        decode_lossy(seq![unit]).len() == 1,
        0xD800 <= unit <= 0xDFFF ==> decode_lossy(seq![unit])[0] == '\u{FFFD}',
        !(0xD800 <= unit <= 0xDFFF) ==> decode_lossy(seq![unit])[0] as int == unit,
        decode_lossy(Seq::empty()).len() == 0,
{
    assert(seq![unit].skip(1) == Seq::<u16>::empty());
    assert(decode_lossy(Seq::<u16>::empty()) == Seq::<char>::empty());
}

/// A surrogate pair is the one character whose code point has the ten lower bits of the first
/// unit, then those of the second, above the first 65536 code points.
pub proof fn a_surrogate_pair_is_one_character(high: u16, low: u16)
    requires
        0xD800 <= high <= 0xDBFF,
        0xDC00 <= low <= 0xDFFF,
    ensures
        decode_lossy(seq![high, low]).len() == 1,
        decode_lossy(seq![high, low])[0] as int == 65_536 + (high % 1024) * 1024 + (low % 1024),
{
    assert(seq![high, low].skip(2) == Seq::<u16>::empty());
    assert(decode_lossy(Seq::<u16>::empty()) == Seq::<char>::empty());
}

/// What stands before the first NUL is the longest beginning of the buffer without a NUL.
pub proof fn a_name_is_all_before_the_first_nul(units: Seq<u16>)
    ensures
        until_nul(units).len() <= units.len(),
        forall|i: int|
            0 <= i < until_nul(units).len() ==> #[trigger] until_nul(units)[i] == units[i]
                && units[i] != 0,
        until_nul(units).len() < units.len() ==> units[until_nul(units).len() as int] == 0,
{
    units.index_of_first_ensures(0);
    if units.index_of_first(0) is None {
        assert forall|i: int| 0 <= i < units.len() implies units[i] != 0 by {
            assert(units.contains(units[i]));
        }
    }
}

} // verus!
