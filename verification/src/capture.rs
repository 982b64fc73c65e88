//! Ring buffer and ring cursor used for lossless sample streaming.
//!
//! The ring holds `L` bytes, where `L` is the requested minimum size rounded
//! up to the system allocation granularity and to at least two pages. Reads
//! and writes may straddle the seam: an access at `[i, i+n)` with `n <= L`
//! wraps around to the start of the ring, so the ring never has to be
//! defragmented and a capture can start at any offset.

use vstd::arithmetic::div_mod::{
    lemma_fundamental_div_mod, lemma_fundamental_div_mod_converse_mod, lemma_mod_bound,
    lemma_mod_multiples_vanish, lemma_small_mod,
};
use vstd::prelude::*;

use crate::Error;

verus! {

/// Relies on `vmap::allocation_size`: the cached system allocation
/// granularity, documented to be at least 4096 bytes on every platform the
/// crate supports.
#[verifier::external_body]
fn allocation_size() -> (r: usize)
    ensures
        4096 <= r,
{
    vmap::allocation_size()
}

/// Relies on `vmap::page_size`: the cached system page size, documented to be
/// at least 4096 bytes on every platform the crate supports.
#[verifier::external_body]
fn page_size() -> (r: usize)
    ensures
        4096 <= r,
{
    vmap::page_size()
}

/// The smallest multiple of `g` that is at least `n`.
pub open spec fn round_up_to(n: int, g: int) -> int {
    if n % g == 0 {
        n
    } else {
        n + g - n % g
    }
}

/// The length of the ring backing a request for `min_size` bytes: `min_size`
/// rounded up to the allocation granularity `g`, and to at least two pages.
pub open spec fn spec_ring_length(min_size: int, g: int, p: int) -> int {
    if round_up_to(min_size, g) >= 2 * p {
        round_up_to(min_size, g)
    } else {
        2 * p
    }
}

/// Compute the ring length, or `None` exactly when it does not fit in
/// `usize`.
fn ring_length(min_size: usize, g: usize, p: usize) -> (r: Option<usize>)
    requires
        g >= 1,
        p >= 1,
    ensures
        r matches Some(len) ==> len == spec_ring_length(min_size as int, g as int, p as int),
        r is None <==> spec_ring_length(min_size as int, g as int, p as int) > usize::MAX,
{
    let rem = min_size % g;
    let rounded: usize = if rem == 0 {
        min_size
    } else {
        if min_size > usize::MAX - (g - rem) {
            return None;
        }
        min_size + (g - rem)
    };
    if p > usize::MAX / 2 {
        // two pages alone already exceed the address space
        return None;
    }
    let two_pages = 2 * p;
    if rounded >= two_pages {
        Some(rounded)
    } else {
        Some(two_pages)
    }
}

/// The `count` bytes of `s` starting at `start`, wrapping past the end of
/// `s` back to its beginning.
pub open spec fn ring_read(s: Seq<u8>, start: int, count: int) -> Seq<u8> {
    Seq::new(count as nat, |j: int| s[(start + j) % (s.len() as int)])
}

/// `s` with `data` written starting at `start`, wrapping past the end of `s`
/// back to its beginning.
pub open spec fn ring_write(s: Seq<u8>, start: int, data: Seq<u8>) -> Seq<u8> {
    Seq::new(s.len(), |i: int| {
        let off = (i - start) % (s.len() as int);
        if off < data.len() {
            data[off]
        } else {
            s[i]
        }
    })
}

/// Positions on a ring of length `l` are in bijection with wrap offsets: a
/// position `i` sits `k` bytes past `start` (wrapping) exactly when `i` is
/// `start + k` reduced modulo `l`.
proof fn lemma_wrap_position(l: int, start: int, k: int, i: int)
    requires
        l >= 1,
        0 <= start < l,
        0 <= k < l,
        0 <= i < l,
    ensures
        ((i - start) % l == k) <==> (i == (start + k) % l),
{
    let j = (start + k) % l;
    lemma_fundamental_div_mod(start + k, l);
    let q2 = (start + k) / l;
    lemma_mod_bound(start + k, l);
    assert(j - start == (-q2) * l + k) by (nonlinear_arith)
        requires
            j == start + k - l * q2,
    ;
    lemma_fundamental_div_mod_converse_mod(j - start, l, -q2, k);
    if (i - start) % l == k {
        lemma_fundamental_div_mod(i - start, l);
        let q = (i - start) / l;
        assert(i == l * q + (start + k));
        lemma_mod_multiples_vanish(q, start + k, l);
        lemma_small_mod(i as nat, l as nat);
    }
}

/// Writing one more byte through the ring updates exactly the wrapped
/// position of that byte.
proof fn lemma_ring_write_step(s: Seq<u8>, start: int, data: Seq<u8>, k: int)
    requires
        0 <= start < s.len(),
        data.len() <= s.len(),
        0 <= k < data.len(),
    ensures
        ring_write(s, start, data.take(k + 1)) == ring_write(s, start, data.take(k)).update(
            (start + k) % (s.len() as int),
            data[k],
        ),
{
    let l = s.len() as int;
    let idx = (start + k) % l;
    lemma_mod_bound(start + k, l);
    let lhs = ring_write(s, start, data.take(k + 1));
    let rhs = ring_write(s, start, data.take(k)).update(idx, data[k]);
    assert forall|i: int| 0 <= i < l implies lhs[i] == rhs[i] by {
        let off = (i - start) % l;
        lemma_mod_bound(i - start, l);
        lemma_wrap_position(l, start, k, i);
    }
    assert(lhs =~= rhs);
}

/// Reading back a wrapped write returns exactly the written bytes: writes
/// through the ring and reads from it agree at every offset and length within
/// the ring's bound.
pub proof fn lemma_ring_write_then_read(s: Seq<u8>, start: int, data: Seq<u8>)
    requires
        0 <= start < s.len(),
        data.len() <= s.len(),
    ensures
        ring_read(ring_write(s, start, data), start, data.len() as int) == data,
{
    let l = s.len() as int;
    let w = ring_write(s, start, data);
    assert forall|j: int| 0 <= j < data.len() implies ring_read(w, start, data.len() as int)[j]
        == data[j] by {
        let idx = (start + j) % l;
        lemma_mod_bound(start + j, l);
        lemma_wrap_position(l, start, j, idx);
        assert((idx - start) % l == j);
    }
    assert(ring_read(w, start, data.len() as int) =~= data);
}

/// A wrapped write leaves every position outside its range untouched, so a
/// read comes back byte-for-byte from the writes that covered its range:
/// reading `[i, i+n)` after a write to `[w, w+m)` that does not meet it
/// returns what was there before.
pub proof fn lemma_ring_write_elsewhere(s: Seq<u8>, w: int, data: Seq<u8>, i: int, n: int)
    requires
        0 <= w < s.len(),
        data.len() <= s.len(),
        0 <= i < s.len(),
        0 <= n <= s.len(),
        forall|j: int| 0 <= j < n ==> #[trigger] ((i + j - w) % (s.len() as int)) >= data.len(),
    ensures
        ring_read(ring_write(s, w, data), i, n) == ring_read(s, i, n),
{
    let l = s.len() as int;
    assert forall|j: int| 0 <= j < n implies ring_read(ring_write(s, w, data), i, n)[j]
        == ring_read(s, i, n)[j] by {
        let idx = (i + j) % l;
        lemma_mod_bound(i + j, l);
        let off = (idx - w) % l;
        // the wrap offset of `idx` from `w` equals that of `i + j` from `w`
        lemma_fundamental_div_mod(i + j, l);
        let q = (i + j) / l;
        assert(idx - w == (-q) * l + (i + j - w)) by (nonlinear_arith)
            requires
                idx == i + j - l * q,
        ;
        lemma_mod_bound(i + j - w, l);
        lemma_fundamental_div_mod(i + j - w, l);
        let q2 = (i + j - w) / l;
        assert(idx - w == ((-q) + q2) * l + (i + j - w) % l) by (nonlinear_arith)
            requires
                idx - w == (-q) * l + (i + j - w),
                i + j - w == l * q2 + (i + j - w) % l,
        ;
        lemma_fundamental_div_mod_converse_mod(idx - w, l, (-q) + q2, (i + j - w) % l);
        assert(off == (i + j - w) % l);
        assert(off >= data.len());
    }
    assert(ring_read(ring_write(s, w, data), i, n) =~= ring_read(s, i, n));
}

/// A byte ring of fixed length; any slice of it up to its full length is
/// readable and writable contiguously, wrapping at the seam.
#[derive(Debug)]
pub struct RingSlice {
    data: Vec<u8>,
}

impl View for RingSlice {
    type V = Seq<u8>;

    closed spec fn view(&self) -> Seq<u8> {
        self.data@
    }
}

impl RingSlice {
    /// Allocate a zero-filled ring of at least `min_size` bytes, rounded up
    /// to the allocation granularity and to at least two pages. Fails only
    /// when the rounded length does not fit in `usize`.
    pub fn new(min_size: usize) -> (r: Result<RingSlice, Error>)
        ensures
            r matches Ok(rs) ==> rs@.len() >= min_size && rs@.len() >= 2 && rs@ =~= Seq::new(
                rs@.len(),
                |i: int| 0u8,
            ),
            r is Err ==> r == Err::<RingSlice, Error>(Error::Vmap),
    {
        let g = allocation_size();
        let p = page_size();
        let len = match ring_length(min_size, g, p) {
            Some(len) => len,
            None => {
                return Err(Error::Vmap);
            },
        };
        let mut data: Vec<u8> = Vec::new();
        while data.len() < len
            invariant
                data@.len() <= len,
                forall|i: int| 0 <= i < data@.len() ==> data@[i] == 0u8,
            decreases len - data@.len(),
        {
            data.push(0);
        }
        Ok(RingSlice { data })
    }

    pub fn len(&self) -> (r: usize)
        ensures
            r == self@.len(),
    {
        self.data.len()
    }

    /// Read `count` bytes starting at `start`, wrapping at the seam.
    pub fn read_at(&self, start: usize, count: usize) -> (r: Vec<u8>)
        requires
            start < self@.len(),
            count <= self@.len(),
        ensures
            r@ == ring_read(self@, start as int, count as int),
    {
        let l = self.data.len();
        let mut r: Vec<u8> = Vec::new();
        let mut j: usize = 0;
        while j < count
            invariant
                j <= count,
                count <= self@.len(),
                start < self@.len(),
                l == self@.len(),
                r@.len() == j,
                forall|k: int| 0 <= k < j ==> r@[k] == self@[(start + k) % (l as int)],
            decreases count - j,
        {
            let idx = if j < l - start {
                start + j
            } else {
                j - (l - start)
            };
            proof {
                let li = l as int;
                if j < l - start {
                    lemma_small_mod((start + j) as nat, l as nat);
                } else {
                    lemma_fundamental_div_mod_converse_mod(
                        start + j,
                        li,
                        1,
                        start + j as int - li,
                    );
                }
            }
            r.push(self.data[idx]);
            j += 1;
        }
        proof {
            assert(r@ =~= ring_read(self@, start as int, count as int));
        }
        r
    }

    /// Write `data` starting at `start`, wrapping at the seam.
    pub fn write_at(&mut self, start: usize, data: &[u8])
        requires
            start < old(self)@.len(),
            data@.len() <= old(self)@.len(),
        ensures
            final(self)@ == ring_write(old(self)@, start as int, data@),
            final(self)@.len() == old(self)@.len(),
    {
        let l = self.data.len();
        let ghost s0 = self@;
        let mut k: usize = 0;
        while k < data.len()
            invariant
                k <= data@.len(),
                data@.len() <= s0.len(),
                start < s0.len(),
                l == s0.len(),
                self@.len() == s0.len(),
                self@ == ring_write(s0, start as int, data@.take(k as int)),
            decreases data@.len() - k,
        {
            let idx = if k < l - start {
                start + k
            } else {
                k - (l - start)
            };
            proof {
                let li = l as int;
                if k < l - start {
                    lemma_small_mod((start + k) as nat, l as nat);
                } else {
                    lemma_fundamental_div_mod_converse_mod(
                        start + k,
                        li,
                        1,
                        start + k as int - li,
                    );
                }
                assert(idx == (start + k) % li);
            }
            self.data.set(idx, data[k]);
            proof {
                lemma_ring_write_step(s0, start as int, data@, k as int);
            }
            k += 1;
        }
        proof {
            assert(data@.take(data@.len() as int) =~= data@);
        }
    }
}

/// A position within a ring of a fixed bound; addition and subtraction are
/// modulo the bound, and equality considers only the position, not the bound.
#[derive(Debug, Clone, Copy)]
pub struct RingCursor {
    index: usize,
    bound: usize,
}

impl PartialEq for RingCursor {
    fn eq(&self, other: &RingCursor) -> (r: bool) {
        self.index == other.index
    }
}

impl vstd::std_specs::cmp::PartialEqSpecImpl for RingCursor {
    open spec fn obeys_eq_spec() -> bool {
        true
    }

    open spec fn eq_spec(&self, other: &RingCursor) -> bool {
        self.spec_index() == other.spec_index()
    }
}

impl RingCursor {
    pub closed spec fn spec_index(self) -> int {
        self.index as int
    }

    pub closed spec fn spec_bound(self) -> int {
        self.bound as int
    }

    pub open spec fn wf(self) -> bool {
        0 <= self.spec_index() < self.spec_bound()
    }

    pub fn new(bound: usize) -> (r: RingCursor)
        requires
            bound >= 1,
        ensures
            r.spec_index() == 0,
            r.spec_bound() == bound,
            r.wf(),
    {
        RingCursor { index: 0, bound }
    }

    pub fn into_inner(self) -> (r: usize)
        ensures
            r == self.spec_index(),
    {
        self.index
    }

    /// The cursor `offset` positions forward, wrapping at the bound; tolerates
    /// offsets larger than the bound.
    pub fn plus(self, offset: usize) -> (r: RingCursor)
        requires
            self.wf(),
        ensures
            r.spec_bound() == self.spec_bound(),
            r.wf(),
            r.spec_index() == (self.spec_index() + offset) % self.spec_bound(),
    {
        let o = offset % self.bound;
        let index = if self.index >= self.bound - o {
            self.index - (self.bound - o)
        } else {
            self.index + o
        };
        proof {
            let b = self.bound as int;
            lemma_fundamental_div_mod(offset as int, b);
            let q = offset as int / b;
            if self.index >= self.bound - o {
                assert(self.index + offset == (q + 1) * b + index) by (nonlinear_arith)
                    requires
                        offset == b * q + o,
                        index == self.index + o - b,
                ;
                lemma_fundamental_div_mod_converse_mod(
                    self.spec_index() + offset,
                    b,
                    q + 1,
                    index as int,
                );
            } else {
                assert(self.index + offset == q * b + index) by (nonlinear_arith)
                    requires
                        offset == b * q + o,
                        index == self.index + o,
                ;
                lemma_fundamental_div_mod_converse_mod(
                    self.spec_index() + offset,
                    b,
                    q,
                    index as int,
                );
            }
        }
        RingCursor { index, bound: self.bound }
    }

    /// The cursor `offset` positions backward, wrapping at the bound;
    /// tolerates offsets larger than the bound.
    pub fn minus(self, offset: usize) -> (r: RingCursor)
        requires
            self.wf(),
        ensures
            r.spec_bound() == self.spec_bound(),
            r.wf(),
            r.spec_index() == (self.spec_index() - offset) % self.spec_bound(),
    {
        let o = offset % self.bound;
        let index = if self.index >= o {
            self.index - o
        } else {
            self.index + (self.bound - o)
        };
        proof {
            let b = self.bound as int;
            lemma_fundamental_div_mod(offset as int, b);
            let q = offset as int / b;
            if self.index >= o {
                assert(self.index - offset == (-q) * b + index) by (nonlinear_arith)
                    requires
                        offset == b * q + o,
                        index == self.index - o,
                ;
                lemma_fundamental_div_mod_converse_mod(
                    self.spec_index() - offset,
                    b,
                    -q,
                    index as int,
                );
            } else {
                assert(self.index - offset == (-q - 1) * b + index) by (nonlinear_arith)
                    requires
                        offset == b * q + o,
                        index == self.index + b - o,
                ;
                lemma_fundamental_div_mod_converse_mod(
                    self.spec_index() - offset,
                    b,
                    -q - 1,
                    index as int,
                );
            }
        }
        RingCursor { index, bound: self.bound }
    }
}

/// Moving a cursor backward by `k` lands on `(index + L * ceil(k / L) - k)`
/// reduced modulo `L`, the smallest shift of `index - k` by whole turns of
/// the ring that is non-negative; `minus` computes exactly this.
pub proof fn lemma_cursor_backward(index: int, k: int, l: int)
    requires
        l >= 1,
        0 <= index < l,
        k >= 0,
    ensures
        (index - k) % l == (index + l * ((k + l - 1) / l) - k) % l,
{
    let m = (k + l - 1) / l;
    lemma_mod_multiples_vanish(m, index - k, l);
}

/// A byte ring together with the cursor of its write head.
#[derive(Debug)]
pub struct RingBuffer {
    buffer: RingSlice,
    cursor: RingCursor,
}

/// The bytes of `s` starting at `start` and wrapping at the seam, read back
/// as signed 8-bit samples.
pub open spec fn ring_read_samples(s: Seq<u8>, start: int, count: int) -> Seq<i8> {
    Seq::new(count as nat, |j: int| s[(start + j) % (s.len() as int)] as i8)
}

impl View for RingBuffer {
    type V = Seq<u8>;

    closed spec fn view(&self) -> Seq<u8> {
        self.buffer@
    }
}

impl RingBuffer {
    pub closed spec fn spec_cursor(self) -> RingCursor {
        self.cursor
    }

    pub open spec fn wf(self) -> bool {
        self.spec_cursor().wf() && self.spec_cursor().spec_bound() == self@.len()
    }

    /// Allocate a zero-filled ring buffer of at least `min_size` bytes, with
    /// the write head at position zero.
    pub fn new(min_size: usize) -> (r: Result<RingBuffer, Error>)
        ensures
            r matches Ok(rb) ==> rb.wf() && rb@.len() >= min_size && rb@ =~= Seq::new(
                rb@.len(),
                |i: int| 0u8,
            ) && rb.spec_cursor().spec_index() == 0,
            r is Err ==> r == Err::<RingBuffer, Error>(Error::Vmap),
    {
        let buffer = match RingSlice::new(min_size) {
            Ok(buffer) => buffer,
            Err(e) => {
                return Err(Error::Vmap);
            },
        };
        let cursor = RingCursor::new(buffer.len());
        Ok(RingBuffer { buffer, cursor })
    }

    pub fn len(&self) -> (r: usize)
        ensures
            r == self@.len(),
    {
        self.buffer.len()
    }

    pub fn cursor(&self) -> (r: RingCursor)
        ensures
            r == self.spec_cursor(),
    {
        self.cursor
    }

    /// Write `data` at the current cursor, wrapping at the seam, and advance
    /// the cursor past it.
    pub fn append(&mut self, data: &[u8])
        requires
            old(self).wf(),
            data@.len() <= old(self)@.len(),
        ensures
            final(self).wf(),
            final(self)@ == ring_write(old(self)@, old(self).spec_cursor().spec_index(), data@),
            final(self)@.len() == old(self)@.len(),
            final(self).spec_cursor().spec_bound() == old(self).spec_cursor().spec_bound(),
            final(self).spec_cursor().spec_index() == (old(self).spec_cursor().spec_index()
                + data@.len()) % old(self)@.len() as int,
    {
        self.buffer.write_at(self.cursor.index, data);
        self.cursor = self.cursor.plus(data.len());
    }

    /// Read `count` bytes starting at `cursor`, wrapping at the seam, as
    /// signed samples.
    pub fn read(&self, cursor: RingCursor, count: usize) -> (r: Vec<i8>)
        requires
            self.wf(),
            cursor.wf(),
            cursor.spec_bound() == self@.len(),
            count <= self@.len(),
        ensures
            r@ == ring_read_samples(self@, cursor.spec_index(), count as int),
    {
        let bytes = self.buffer.read_at(cursor.index, count);
        let mut r: Vec<i8> = Vec::new();
        let mut j: usize = 0;
        while j < bytes.len()
            invariant
                j <= bytes@.len(),
                r@.len() == j,
                bytes@ == ring_read(self@, cursor.spec_index(), count as int),
                forall|k: int| 0 <= k < j ==> r@[k] == bytes@[k] as i8,
            decreases bytes@.len() - j,
        {
            r.push(bytes[j] as i8);
            j += 1;
        }
        proof {
            assert(r@ =~= ring_read_samples(self@, cursor.spec_index(), count as int));
        }
        r
    }
}

} // verus!
