use vstd::prelude::*;

verus! {

/// The UTF-16 code units of one character: the character itself below U+10000, a surrogate
/// pair above.
pub open spec fn utf16_char(c: char) -> Seq<u16> {
    let v = c as u32;
    if v < 0x10000 {
        seq![v as u16]
    } else {
        let u = v - 0x10000;
        seq![(0xD800 + u / 0x400) as u16, (0xDC00 + u % 0x400) as u16]
    }
}

/// The UTF-16 encoding of a text.
pub open spec fn utf16(s: Seq<char>) -> Seq<u16>
    decreases s.len(),
{
    if s.len() == 0 {
        Seq::empty()
    } else {
        utf16(s.drop_last()) + utf16_char(s.last())
    }
}

/// The UTF-16 encoding of `text`.
pub fn encode_utf16(text: &str) -> (r: Vec<u16>)
    ensures
        r@ == utf16(text@),
{
    let n = text.unicode_len();
    let mut out: Vec<u16> = Vec::new();
    let mut i: usize = 0;
    while i < n
        invariant
            n == text@.len(),
            i <= n,
            out@ == utf16(text@.take(i as int)),
        decreases n - i,
    {
        let c = text.get_char(i);
        let v = c as u32;
        if v < 0x10000 {
            out.push(v as u16);
        } else {
            let u = v - 0x10000;
            out.push((0xD800 + u / 0x400) as u16);
            out.push((0xDC00 + u % 0x400) as u16);
        }
        proof {
            assert(text@.take(i + 1).drop_last() =~= text@.take(i as int));
            assert(text@.take(i + 1).last() == c);
            assert(out@ =~= utf16(text@.take(i as int)) + utf16_char(c));
        }
        i = i + 1;
    }
    proof {
        assert(text@.take(n as int) =~= text@);
    }
    out
}

/// `text` as a zero-terminated UTF-16 string, the form the system's wide-character calls take.
pub fn wide(text: &str) -> (r: Vec<u16>)
    ensures
        r@ == utf16(text@).push(0),
{
    let mut r = encode_utf16(text);
    r.push(0);
    r
}

/// The number of code units of `data` that fit in a buffer of `room` units with its terminating
/// zero.
pub open spec fn fitted(data: Seq<u16>, room: nat) -> int {
    if data.len() < room - 1 { data.len() as int } else { room - 1 }
}

/// Copies `text` into a fixed wide-character buffer, cut short to leave room for the
/// terminating zero, which follows it; the rest of the buffer is left as it was.
pub fn fill(buffer: &mut [u16], text: &str)
    requires
        old(buffer)@.len() > 0,
    ensures
        final(buffer)@ == utf16(text@).take(fitted(utf16(text@), old(buffer)@.len()))
            + seq![0u16]
            + old(buffer)@.skip(fitted(utf16(text@), old(buffer)@.len()) + 1),
{
    let data = encode_utf16(text);
    let room = buffer.len() - 1;
    let count = if data.len() < room {
        data.len()
    } else {
        room
    };
    let mut i: usize = 0;
    while i < count
        invariant
            count <= data@.len(),
            count < buffer@.len(),
            buffer@.len() == old(buffer)@.len(),
            i <= count,
            forall|j: int| 0 <= j < i ==> buffer@[j] == data@[j],
            forall|j: int| i <= j < buffer@.len() ==> buffer@[j] == old(buffer)@[j],
        decreases count - i,
    {
        buffer[i] = data[i];
        i = i + 1;
    }
    buffer[count] = 0;
    proof {
        assert(buffer@ =~= data@.take(count as int) + seq![0u16] + old(buffer)@.skip(count + 1));
    }
}

} // verus!
