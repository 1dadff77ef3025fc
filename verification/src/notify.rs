//! Text fields of a balloon notification: UTF-16, zero-terminated, cut to
//! the size of the system's fixed buffers.

use vstd::prelude::*;

verus! {

/// Capacity, in UTF-16 units, of a notification's title buffer.
pub const TITLE_CAPACITY: usize = 64;

/// Capacity, in UTF-16 units, of a notification's body buffer.
pub const BODY_CAPACITY: usize = 256;

/// The UTF-16 code units of one character: one unit below U+10000, a
/// surrogate pair above.
pub open spec fn utf16_units(c: char) -> Seq<u16> {
    let v = c as int;
    if v < 0x10000 {
        seq![v as u16]
    } else {
        let w = v - 0x10000;
        seq![(0xD800 + w / 0x400) as u16, (0xDC00 + w % 0x400) as u16]
    }
}

/// The UTF-16 encoding of a character sequence.
pub open spec fn utf16_of(s: Seq<char>) -> Seq<u16>
    decreases s.len(),
{
    if s.len() == 0 {
        seq![]
    } else {
        utf16_of(s.drop_last()) + utf16_units(s.last())
    }
}

/// Encodes a string as UTF-16.
pub fn encode_utf16(s: &str) -> (v: Vec<u16>)
    ensures
        v@ == utf16_of(s@),
{
    let n = s.unicode_len();
    let mut v: Vec<u16> = Vec::new();
    let mut i: usize = 0;
    while i < n
        invariant
            n == s@.len(),
            i <= n,
            v@ == utf16_of(s@.take(i as int)),
        decreases n - i,
    {
        let c = s.get_char(i);
        let code = c as u32;
        assert(s@.take(i + 1).drop_last() =~= s@.take(i as int));
        assert(s@.take(i + 1).last() == c);
        if code < 0x10000 {
            v.push(code as u16);
        } else {
            let w = code - 0x10000;
            assert(w / 0x400 < 0x400);
            v.push((0xD800 + w / 0x400) as u16);
            v.push((0xDC00 + w % 0x400) as u16);
        }
        i = i + 1;
    }
    assert(s@.take(n as int) =~= s@);
    v
}

/// Unit `j` of a buffer of `capacity` units filled from `units`: the text
/// up to `capacity - 1` units, zero after it.
pub open spec fn field_unit(units: Seq<u16>, capacity: int, j: int) -> u16 {
    if j < units.len() && j < capacity - 1 {
        units[j]
    } else {
        0
    }
}

/// Fills a zeroed buffer of `capacity` units with the text `units` followed
/// by a terminating zero, copying no more than `capacity - 1` units so the
/// last unit of the buffer stays zero.
pub fn fill_field(units: &Vec<u16>, capacity: usize) -> (v: Vec<u16>)
    requires
        capacity >= 1,
    ensures
        v@.len() == capacity,
        forall|j: int| 0 <= j < capacity ==> #[trigger] v@[j] == field_unit(units@, capacity as int, j),
{
    let mut v: Vec<u16> = Vec::new();
    let mut j: usize = 0;
    while j < capacity
        invariant
            j <= capacity,
            capacity >= 1,
            v@.len() == j,
            forall|k: int| 0 <= k < j ==> #[trigger] v@[k] == field_unit(units@, capacity as int, k),
        decreases capacity - j,
    {
        let u = if j < units.len() && j < capacity - 1 {
            units[j]
        } else {
            0
        };
        v.push(u);
        j = j + 1;
    }
    v
}

/// The title buffer of a notification with title `title`.
pub fn title_field(title: &str) -> (v: Vec<u16>)
    ensures
        v@.len() == TITLE_CAPACITY,
        forall|j: int|
            0 <= j < TITLE_CAPACITY ==> #[trigger] v@[j] == field_unit(
                utf16_of(title@),
                TITLE_CAPACITY as int,
                j,
            ),
{
    let units = encode_utf16(title);
    fill_field(&units, TITLE_CAPACITY)
}

/// The body buffer of a notification with text `body`.
pub fn body_field(body: &str) -> (v: Vec<u16>)
    ensures
        v@.len() == BODY_CAPACITY,
        forall|j: int|
            0 <= j < BODY_CAPACITY ==> #[trigger] v@[j] == field_unit(
                utf16_of(body@),
                BODY_CAPACITY as int,
                j,
            ),
{
    let units = encode_utf16(body);
    fill_field(&units, BODY_CAPACITY)
}

} // verus!
