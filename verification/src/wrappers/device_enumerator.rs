use vstd::prelude::*;

verus! {

/// The UTF-16 code units of one character: the code point itself below
/// U+10000, a surrogate pair above.
pub open spec fn utf16_units(c: char) -> Seq<u16> {
    let v: u32 = c as u32;
    if v < 0x10000 {
        seq![v as u16]
    } else {
        seq![(0xD800 + (v - 0x10000) / 0x400) as u16, (0xDC00 + (v - 0x10000) % 0x400) as u16]
    }
}

/// The UTF-16 encoding of a string.
pub open spec fn utf16_encoding(s: Seq<char>) -> Seq<u16>
    decreases s.len(),
{
    if s.len() == 0 {
        seq![]
    } else {
        utf16_encoding(s.drop_last()) + utf16_units(s.last())
    }
}

/// A device identifier without NUL characters encodes to code units none of
/// which is zero, so the terminator of the buffer is its first zero and the
/// identifier is read whole.
pub proof fn law_terminator_is_first_zero(s: Seq<char>)
    requires
        forall|i: int| 0 <= i < s.len() ==> (#[trigger] s[i]) as u32 != 0,
    ensures
        forall|j: int| 0 <= j < utf16_encoding(s).len() ==> #[trigger] utf16_encoding(s)[j] != 0,
    decreases s.len(),
{
    if s.len() > 0 {
        let prefix = s.drop_last();
        assert forall|i: int| 0 <= i < prefix.len() implies (#[trigger] prefix[i]) as u32 != 0 by {
            assert(prefix[i] == s[i]);
        }
        law_terminator_is_first_zero(prefix);
        let c = s.last();
        vstd::utf8::char_is_scalar(c);
        assert((c as u32) != 0);
        let head = utf16_encoding(prefix);
        let tail = utf16_units(c);
        assert forall|j: int| 0 <= j < tail.len() implies #[trigger] tail[j] != 0 by {
            let v: u32 = c as u32;
            if v < 0x10000 {
                assert(0 < v < 0x10000);
                assert(tail[0] == v as u16);
            } else {
                assert(v <= 0x10FFFF);
                assert(0 <= (v - 0x10000) / 0x400 < 0x400);
                assert(0 <= (v - 0x10000) % 0x400 < 0x400);
            }
        }
        assert forall|j: int| 0 <= j < utf16_encoding(s).len() implies #[trigger] utf16_encoding(s)[j]
            != 0 by {
            assert(utf16_encoding(s) == head + tail);
            if j < head.len() {
                assert(utf16_encoding(s)[j] == head[j]);
            } else {
                assert(utf16_encoding(s)[j] == tail[j - head.len()]);
            }
        }
    }
}

/// The code units of a character decode back to it: a character below
/// U+10000 is one unit equal to its code point; any other is a high surrogate
/// followed by a low surrogate that together give its code point.
pub proof fn law_units_decode(c: char)
    ensures
        (c as u32) < 0x10000 ==> utf16_units(c).len() == 1 && utf16_units(c)[0] as u32 == c as u32,
        (c as u32) >= 0x10000 ==> {
            let u = utf16_units(c);
            &&& u.len() == 2
            &&& 0xD800 <= u[0] < 0xDC00
            &&& 0xDC00 <= u[1] < 0xE000
            &&& (u[0] - 0xD800) * 0x400 + (u[1] - 0xDC00) + 0x10000 == c as u32
        },
{
    vstd::utf8::char_is_scalar(c);
    let v = c as u32;
    if v >= 0x10000 {
        let w: int = v - 0x10000;
        assert(w < 0x100000);
        assert(0 <= w / 0x400 < 0x400 && 0 <= w % 0x400 < 0x400 && (w / 0x400) * 0x400 + w % 0x400 == w)
            by (nonlinear_arith)
            requires
                0 <= w < 0x100000,
        ;
    }
}

/// Appends the UTF-16 code units of `c` to `buffer`.
fn push_utf16(buffer: &mut Vec<u16>, c: char)
    ensures
        final(buffer)@ == old(buffer)@ + utf16_units(c),
{
    let v: u32 = c as u32;
    if v < 0x10000 {
        buffer.push(v as u16);
    } else {
        let w: u32 = v - 0x10000;
        assert(w < 0x100000);
        assert(w / 0x400 < 0x400) by (nonlinear_arith)
            requires
                w < 0x100000,
        ;
        buffer.push((0xD800 + w / 0x400) as u16);
        buffer.push((0xDC00 + w % 0x400) as u16);
    }
    assert(final(buffer)@ =~= old(buffer)@ + utf16_units(c));
}

/// The identifier of a device as the null-terminated UTF-16 string that the
/// device enumerator looks devices up by.
pub fn device_id_buffer(device_id: &str) -> (result: Vec<u16>)
    ensures
        result@ == utf16_encoding(device_id@).push(0u16),
{
    let mut buffer: Vec<u16> = Vec::new();
    proof {
        vstd::string::axiom_spec_iter(device_id);
    }
    for c in it: device_id.chars()
        invariant
            it.seq() == device_id@,
            buffer@ == utf16_encoding(device_id@.take(it.index() as int)),
    {
        push_utf16(&mut buffer, c);
        assert(device_id@.take(it.index() + 1).drop_last() =~= device_id@.take(it.index() as int));
    }
    assert(device_id@.take(device_id@.len() as int) =~= device_id@);
    buffer.push(0);
    buffer
}

} // verus!
