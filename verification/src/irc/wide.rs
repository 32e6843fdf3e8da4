//! Searching bytes sixteen at a time: a vector of byte lanes, the mask of lanes that
//! matched, and the position of a match.
use vstd::prelude::*;
use crate::text::{absent, index_of, lemma_index_of, lemma_index_of_none, lemma_index_of_unique, to_index};

verus! {

broadcast use vstd::std_specs::bits::axiom_u32_trailing_zeros;

/// Number of lanes in a [`Vector`].
pub const SIZE: usize = 16;

/// Number of bytes that one round of the unrolled search covers.
pub const UNROLLED_BYTES: usize = 64;

/// Sixteen bytes, one per lane.
#[derive(Debug)]
pub struct Vector {
    lanes: Vec<u8>,
}

impl View for Vector {
    type V = Seq<u8>;

    closed spec fn view(&self) -> Seq<u8> {
        self.lanes@
    }
}

/// Bit `j` of `m` is set.
pub open spec fn bit_set(m: u32, j: u32) -> bool {
    (m >> j) & 1u32 == 1u32
}

/// Setting bit `i` of `m` changes no other bit.
proof fn lemma_set_bit(m: u32, i: u32, j: u32)
    requires
        i < 32,
        j < 32,
    ensures
        ((m | (1u32 << i)) >> j) & 1u32 == (if j == i {
            1u32
        } else {
            (m >> j) & 1u32
        }),
{
    assert(((m | (1u32 << i)) >> j) & 1u32 == (if j == i {
        1u32
    } else {
        (m >> j) & 1u32
    })) by (bit_vector)
        requires
            i < 32,
            j < 32,
    ;
}

/// Clearing the bits up to `k` keeps the bits above it.
proof fn lemma_clear_to(m: u32, k: u32, j: u32)
    requires
        k < 32,
        j < 32,
    ensures
        ((m & !(0xffff_ffffu32 >> (31 - k) as u32)) >> j) & 1u32 == (if j <= k {
            0u32
        } else {
            (m >> j) & 1u32
        }),
{
    assert(((m & !(0xffff_ffffu32 >> (31 - k) as u32)) >> j) & 1u32 == (if j <= k {
        0u32
    } else {
        (m >> j) & 1u32
    })) by (bit_vector)
        requires
            k < 32,
            j < 32,
    ;
}

/// The lowest set bit of `m` is bit `t` when bit `t` is set and the bits below it are
/// clear.
proof fn lemma_lowest_bit(m: u32, t: u32)
    requires
        t < 32,
        (m >> t) & 1u32 == 1u32,
        m << ((32 - t) as u32) == 0u32,
    ensures
        m & (1u32 << t) != 0u32,
        m & (((1u32 << t) - 1) as u32) == 0u32,
{
    assert(m & (1u32 << t) != 0u32 && m & (((1u32 << t) - 1) as u32) == 0u32) by (bit_vector)
        requires
            t < 32,
            (m >> t) & 1u32 == 1u32,
            m << ((32 - t) as u32) == 0u32,
    ;
}

/// A bit is either set or clear.
proof fn lemma_bit_values(m: u32, j: u32)
    ensures
        (m >> j) & 1u32 == 1u32 || (m >> j) & 1u32 == 0u32,
{
    assert((m >> j) & 1u32 == 1u32 || (m >> j) & 1u32 == 0u32) by (bit_vector);
}

/// No bit of zero is set, and a number with no set bit below 32 is zero.
proof fn lemma_zero_bits(m: u32)
    ensures
        m == 0 <==> forall|j: u32| j < 32 ==> #[trigger] ((m >> j) & 1u32) == 0u32,
{
    assert(forall|j: u32| j < 32 ==> #[trigger] ((0u32 >> j) & 1u32) == 0u32) by (bit_vector);
    if m != 0 {
        assert(m != 0 ==> (m >> u32_tz(m)) & 1u32 == 1u32) by {
            vstd::std_specs::bits::axiom_u32_trailing_zeros(m);
        }
    }
}

/// The trailing zeros of `m`.
spec fn u32_tz(m: u32) -> u32 {
    vstd::std_specs::bits::u32_trailing_zeros(m)
}

impl Vector {
    #[verifier::type_invariant]
    spec fn inv(self) -> bool {
        self.lanes@.len() == SIZE
    }

    /// Load 16 bytes from the given slice, starting at `offset`.
    pub fn load_unaligned(data: &[u8], offset: usize) -> (r: Vector)
        requires
            offset + SIZE <= data@.len(),
        ensures
            r@ == data@.subrange(offset as int, offset + SIZE),
    {
        let n = data.len();
        let mut lanes: Vec<u8> = Vec::new();
        let mut i: usize = 0;
        while i < SIZE
            invariant
                n == data@.len(),
                offset + SIZE <= data@.len(),
                i <= SIZE,
                lanes@ == data@.subrange(offset as int, offset + i),
            decreases SIZE - i,
        {
            lanes.push(data[offset + i]);
            i = i + 1;
            assert(lanes@ =~= data@.subrange(offset as int, offset + i));
        }
        Vector { lanes }
    }

    /// Load at most 16 bytes from the given slice, starting at `offset`; the lanes
    /// past the end of the slice hold zero.
    pub fn load_unaligned_remainder(data: &[u8], offset: usize) -> (r: Vector)
        requires
            offset <= data@.len() <= offset + SIZE,
        ensures
            r@ == data@.subrange(offset as int, data@.len() as int) + Seq::new(
                (offset + SIZE - data@.len()) as nat,
                |_i: int| 0u8,
            ),
    {
        let n = data.len();
        let mut lanes: Vec<u8> = Vec::new();
        let mut i: usize = 0;
        while i < SIZE
            invariant
                n == data@.len(),
                offset <= n <= offset + SIZE,
                i <= SIZE,
                lanes@.len() == i,
                forall|k: int| 0 <= k < i ==> lanes@[k] == (if offset + k < n {
                    data@[offset + k]
                } else {
                    0u8
                }),
            decreases SIZE - i,
        {
            if i < n - offset {
                lanes.push(data[offset + i]);
            } else {
                lanes.push(0);
            }
            i = i + 1;
        }
        assert(lanes@ =~= data@.subrange(offset as int, n as int) + Seq::new(
            (offset + SIZE - n) as nat,
            |_i: int| 0u8,
        ));
        Vector { lanes }
    }

    /// Compare each lane against `byte`, leaving `0xff` in each lane that is equal and
    /// `0` in each other lane.
    pub fn eq(&self, byte: u8) -> (r: Vector)
        ensures
            r@.len() == SIZE,
            forall|k: int| 0 <= k < SIZE ==> r@[k] == (if self@[k] == byte {
                0xffu8
            } else {
                0u8
            }),
    {
        proof {
            use_type_invariant(self);
        }
        let mut lanes: Vec<u8> = Vec::new();
        let mut i: usize = 0;
        while i < SIZE
            invariant
                self.lanes@.len() == SIZE,
                i <= SIZE,
                lanes@.len() == i,
                forall|k: int| 0 <= k < i ==> lanes@[k] == (if self.lanes@[k] == byte {
                    0xffu8
                } else {
                    0u8
                }),
            decreases SIZE - i,
        {
            if self.lanes[i] == byte {
                lanes.push(0xff);
            } else {
                lanes.push(0);
            }
            i = i + 1;
        }
        Vector { lanes }
    }

    /// The mask of the lanes whose high bit is set: bit `k` for lane `k`.
    pub fn movemask(&self) -> (r: Mask)
        ensures
            forall|j: u32| j < SIZE ==> #[trigger] bit_set(r@, j) == (self@[j as int] >= 0x80),
            forall|j: u32| SIZE <= j < 32 ==> !#[trigger] bit_set(r@, j),
    {
        proof {
            use_type_invariant(self);
        }
        let mut m: u32 = 0;
        let mut i: u32 = 0;
        assert(forall|j: u32| j < 32 ==> #[trigger] ((0u32 >> j) & 1u32) == 0u32) by (bit_vector);
        while i < 16
            invariant
                self.lanes@.len() == SIZE,
                i <= 16,
                forall|j: u32| j < i ==> #[trigger] bit_set(m, j) == (self.lanes@[j as int] >= 0x80),
                forall|j: u32| i <= j < 32 ==> #[trigger] ((m >> j) & 1u32) == 0u32,
            decreases 16 - i,
        {
            let old_m = m;
            if self.lanes[i as usize] >= 0x80 {
                m = m | (1u32 << i);
                assert forall|j: u32| j < 32 implies #[trigger] ((m >> j) & 1u32) == (if j == i {
                    1u32
                } else {
                    (old_m >> j) & 1u32
                }) by {
                    lemma_set_bit(old_m, i, j);
                }
            }
            i = i + 1;
            assert forall|j: u32| j < i implies #[trigger] bit_set(m, j) == (self.lanes@[j as int]
                >= 0x80) by {
                if j < i - 1 {
                    assert(bit_set(old_m, j) == (self.lanes@[j as int] >= 0x80));
                }
            }
        }
        Mask(m)
    }
}

/// The lanes that matched, one bit each.
#[derive(Debug, Clone, Copy, PartialEq, Eq, Structural)]
pub struct Mask(u32);

impl View for Mask {
    type V = u32;

    closed spec fn view(&self) -> u32 {
        self.0
    }
}

/// The position of a lane.
#[derive(Debug, Clone, Copy, PartialEq, Eq, Structural)]
pub struct Match(usize);

impl View for Match {
    type V = usize;

    closed spec fn view(&self) -> usize {
        self.0
    }
}

impl Mask {
    /// Whether some lane matched.
    pub fn has_match(&self) -> (r: bool)
        ensures
            r == (self@ != 0),
    {
        self.0 != 0
    }

    /// The first lane that matched: the number of trailing zeros, 32 where none did.
    pub fn first_match(&self) -> (r: Match)
        ensures
            r@ == vstd::std_specs::bits::u32_trailing_zeros(self@),
            r@ <= 32,
            r@ < 32 ==> bit_set(self@, r@ as u32),
            forall|j: u32| j < r@ ==> !#[trigger] bit_set(self@, j),
            self@ != 0 ==> r@ < 32 && self@ & (1u32 << r@ as u32) != 0u32 && self@ & (((1u32 << r@ as u32) - 1) as u32)
                == 0u32,
    {
        proof {
            vstd::std_specs::bits::axiom_u32_trailing_zeros(self.0);
            if self.0 != 0 {
                lemma_lowest_bit(self.0, u32_tz(self.0));
            }
            assert forall|j: u32| j < u32_tz(self.0) implies !#[trigger] bit_set(self.0, j) by {
                assert((self.0 >> j) & 1u32 == 0u32);
            }
        }
        Match(self.0.trailing_zeros() as usize)
    }

    /// Clear all bits up to and including `m`.
    pub fn clear_to(&mut self, m: Match)
        requires
            m@ < 32,
        ensures
            final(self)@ == old(self)@ & !(0xffff_ffffu32 >> (31 - m@) as u32),
            forall|j: u32| j < 32 ==> #[trigger] bit_set(final(self)@, j) == (j > m@ && bit_set(old(self)@, j)),
    {
        let k: u32 = m.0 as u32;
        let old_bits = self.0;
        self.0 = self.0 & !(0xffff_ffffu32 >> (31 - k));
        proof {
            assert forall|j: u32| j < 32 implies #[trigger] bit_set(self.0, j) == (j > m@ && bit_set(old_bits, j)) by {
                lemma_clear_to(old_bits, k, j);
                lemma_bit_values(old_bits, j);
            }
        }
    }
}

impl Match {
    /// The lane's position.
    pub fn as_index(&self) -> (r: usize)
        ensures
            r == self@,
    {
        self.0
    }
}

/// The first position in `data[from..to]` holding `x` is the first in `data[from..mid]`,
/// or else the first in `data[mid..to]`.
proof fn lemma_index_of_split(b: Seq<u8>, from: int, mid: int, to: int, x: u8)
    requires
        0 <= from <= mid <= to <= b.len(),
    ensures
        index_of(b, from, to, x) == match index_of(b, from, mid, x) {
            Some(i) => Some(i),
            None => index_of(b, mid, to, x),
        },
    decreases mid - from,
{
    if from < mid && b[from] != x {
        lemma_index_of_split(b, from + 1, mid, to, x);
    }
}

/// The first position in `data[offset..offset + 16]` that holds `byte`.
fn chunk_first(data: &[u8], offset: usize, byte: u8) -> (r: Option<usize>)
    requires
        offset + SIZE <= data@.len(),
    ensures
        r == to_index(index_of(data@, offset as int, offset + SIZE, byte)),
{
    let n = data.len();
    let chunk = Vector::load_unaligned(data, offset);
    let mask = chunk.eq(byte).movemask();
    proof {
        lemma_index_of(data@, offset as int, offset + SIZE, byte);
        assert forall|j: u32| j < SIZE implies #[trigger] bit_set(mask@, j) == (data@[offset + j] == byte) by {
            assert(data@.subrange(offset as int, offset + SIZE)[j as int] == data@[offset + j]);
        }
        lemma_zero_bits(mask@);
    }
    if mask.has_match() {
        let m = mask.first_match();
        proof {
            assert(m@ < SIZE) by {
                if m@ >= SIZE {
                    assert forall|j: u32| j < 32 implies #[trigger] ((mask@ >> j) & 1u32) == 0u32 by {
                        lemma_bit_values(mask@, j);
                        if j < SIZE {
                            assert(!bit_set(mask@, j));
                        } else {
                            assert(!bit_set(mask@, j));
                        }
                    }
                }
            }
            assert(bit_set(mask@, m@ as u32));
            assert forall|k: int| offset <= k < offset + m@ implies data@[k] != byte by {
                let j = (k - offset) as u32;
                assert(!bit_set(mask@, j));
            }
            lemma_index_of_unique(data@, offset as int, offset + SIZE, byte, offset + m@);
        }
        Some(offset + m.as_index())
    } else {
        proof {
            assert forall|k: int| offset <= k < offset + SIZE implies data@[k] != byte by {
                let j = (k - offset) as u32;
                assert(((mask@ >> j) & 1u32) == 0u32);
                assert(!bit_set(mask@, j));
            }
            lemma_index_of_none(data@, offset as int, offset + SIZE, byte);
        }
        None
    }
}

/// The position of the first `byte` in `data`, searching sixteen bytes at a time.
pub fn find_first(data: &[u8], byte: u8) -> (r: Option<usize>)
    ensures
        r == to_index(index_of(data@, 0, data@.len() as int, byte)),
{
    let n = data.len();
    // 1. small data: one byte at a time
    if n < SIZE {
        let mut i: usize = 0;
        while i < n
            invariant
                n == data@.len(),
                i <= n,
                index_of(data@, 0, n as int, byte) == index_of(data@, i as int, n as int, byte),
            decreases n - i,
        {
            if data[i] == byte {
                return Some(i);
            }
            i = i + 1;
        }
        return None;
    }
    // 2. the first chunk
    proof {
        lemma_index_of_split(data@, 0, SIZE as int, n as int, byte);
    }
    match chunk_first(data, 0, byte) {
        Some(i) => return Some(i),
        None => {},
    }
    // 3. four chunks at a time
    let mut offset: usize = SIZE;
    while n - offset > UNROLLED_BYTES
        invariant
            n == data@.len(),
            SIZE <= offset <= n,
            index_of(data@, 0, n as int, byte) == index_of(data@, offset as int, n as int, byte),
        decreases n - offset,
    {
        proof {
            lemma_index_of_split(data@, offset as int, offset + SIZE, n as int, byte);
            lemma_index_of_split(data@, offset + SIZE, offset + 2 * SIZE, n as int, byte);
            lemma_index_of_split(data@, offset + 2 * SIZE, offset + 3 * SIZE, n as int, byte);
            lemma_index_of_split(data@, offset + 3 * SIZE, offset + 4 * SIZE, n as int, byte);
        }
        match chunk_first(data, offset, byte) {
            Some(i) => return Some(i),
            None => {},
        }
        match chunk_first(data, offset + SIZE, byte) {
            Some(i) => return Some(i),
            None => {},
        }
        match chunk_first(data, offset + 2 * SIZE, byte) {
            Some(i) => return Some(i),
            None => {},
        }
        match chunk_first(data, offset + 3 * SIZE, byte) {
            Some(i) => return Some(i),
            None => {},
        }
        offset = offset + UNROLLED_BYTES;
    }
    // 4. one chunk at a time
    while n - offset >= SIZE
        invariant
            n == data@.len(),
            SIZE <= offset <= n,
            index_of(data@, 0, n as int, byte) == index_of(data@, offset as int, n as int, byte),
        decreases n - offset,
    {
        proof {
            lemma_index_of_split(data@, offset as int, offset + SIZE, n as int, byte);
        }
        match chunk_first(data, offset, byte) {
            Some(i) => return Some(i),
            None => {},
        }
        offset = offset + SIZE;
    }
    // 5. the last, overlapping chunk
    if offset < n {
        let last = n - SIZE;
        proof {
            lemma_index_of(data@, offset as int, n as int, byte);
            lemma_index_of(data@, last as int, n as int, byte);
            lemma_index_of(data@, 0, n as int, byte);
            lemma_index_of_split(data@, last as int, offset as int, n as int, byte);
            assert(absent(data@, last as int, offset as int, byte));
            lemma_index_of_none(data@, last as int, offset as int, byte);
        }
        return chunk_first(data, last, byte);
    }
    proof {
        assert(index_of(data@, n as int, n as int, byte) is None);
    }
    None
}

impl Vector {
    /// The first lane that holds `byte`.
    pub fn find_first(&self, byte: u8) -> (r: Option<usize>)
        ensures
            r == to_index(index_of(self@, 0, SIZE as int, byte)),
    {
        proof {
            use_type_invariant(self);
        }
        chunk_first(self.lanes.as_slice(), 0, byte)
    }
}

/// The sixteen-lane vector under the name that ARM targets give it.
pub type Vector128 = Vector;

/// The position of the first `byte` in `data[from..to]`, searching one sixteen-byte
/// chunk at a time and the bytes that are left one at a time.
pub fn find_in(data: &[u8], from: usize, to: usize, byte: u8) -> (r: Option<usize>)
    requires
        from <= to <= data@.len(),
    ensures
        r == to_index(index_of(data@, from as int, to as int, byte)),
{
    let mut pos = from;
    while to - pos >= SIZE
        invariant
            from <= pos <= to <= data@.len(),
            index_of(data@, from as int, to as int, byte) == index_of(data@, pos as int, to as int, byte),
        decreases to - pos,
    {
        proof {
            lemma_index_of_split(data@, pos as int, pos + SIZE, to as int, byte);
        }
        match chunk_first(data, pos, byte) {
            Some(i) => return Some(i),
            None => {},
        }
        pos = pos + SIZE;
    }
    while pos < to
        invariant
            from <= pos <= to <= data@.len(),
            index_of(data@, from as int, to as int, byte) == index_of(data@, pos as int, to as int, byte),
        decreases to - pos,
    {
        if data[pos] == byte {
            return Some(pos);
        }
        pos = pos + 1;
    }
    None
}

/// The position of the first `byte` in `data` at or after `offset`.
pub fn find(data: &[u8], offset: usize, byte: u8) -> (r: Option<usize>)
    ensures
        r == to_index(index_of(data@, offset as int, data@.len() as int, byte)),
{
    if offset >= data.len() {
        proof {
            lemma_index_of(data@, offset as int, data@.len() as int, byte);
        }
        return None;
    }
    find_in(data, offset, data.len(), byte)
}

} // verus!
