//! The physical-page allocator: a bitmap of page-sized frames with
//! first-fit allocation, and the page-table entry bit layout.

use vstd::prelude::*;

verus! {

use vstd::arithmetic::div_mod::lemma_fundamental_div_mod;

use crate::bits::BitAccess;

/// Bit `k` of one byte.
pub open spec fn byte_bit(b: u8, k: u8) -> bool {
    (b >> k) & 1 == 1
}

/// The first `size` bits packed into the byte string, lowest bit of the
/// lowest byte first.
pub open spec fn bits_of(data: Seq<u8>, size: nat) -> Seq<bool> {
    Seq::new(size, |i: int| byte_bit(data[i / 8], (i % 8) as u8))
}

/// Setting bit `k` of a byte sets it and leaves the other bits alone.
proof fn lemma_set_bit_u8(b: u8, k: u8)
    by (bit_vector)
    requires
        k < 8,
    ensures
        byte_bit(b | (1u8 << k), k),
        forall|k2: u8| k2 < 8 && k2 != k ==> byte_bit(b | (1u8 << k), k2) == byte_bit(b, k2),
{
}

/// Clearing bit `k` of a byte clears it and leaves the other bits alone.
proof fn lemma_clear_bit_u8(b: u8, k: u8)
    by (bit_vector)
    requires
        k < 8,
    ensures
        !byte_bit(b & !(1u8 << k), k),
        forall|k2: u8| k2 < 8 && k2 != k ==> byte_bit(b & !(1u8 << k), k2) == byte_bit(b, k2),
{
}

/// Flipping bit `k` of a byte inverts it and leaves the other bits alone.
proof fn lemma_flip_bit_u8(b: u8, k: u8)
    by (bit_vector)
    requires
        k < 8,
    ensures
        byte_bit(b ^ (1u8 << k), k) == !byte_bit(b, k),
        forall|k2: u8| k2 < 8 && k2 != k ==> byte_bit(b ^ (1u8 << k), k2) == byte_bit(b, k2),
{
}

/// Replacing one byte changes exactly the bits of that byte in the
/// packed view.
proof fn lemma_bits_of_byte_update(data: Seq<u8>, size: nat, idx: int, b: u8)
    requires
        0 <= idx < size,
        8 * data.len() >= size,
        forall|k2: u8|
            k2 < 8 && k2 != (idx % 8) as u8 ==> byte_bit(b, k2) == byte_bit(data[idx / 8], k2),
    ensures
        bits_of(data.update(idx / 8, b), size) =~= bits_of(data, size).update(
            idx,
            byte_bit(b, (idx % 8) as u8),
        ),
{
    let lhs = bits_of(data.update(idx / 8, b), size);
    let rhs = bits_of(data, size).update(idx, byte_bit(b, (idx % 8) as u8));
    assert forall|j: int| #![trigger lhs[j]] 0 <= j < size implies lhs[j] == rhs[j] by {
        lemma_fundamental_div_mod(j, 8);
        lemma_fundamental_div_mod(idx, 8);
        if j != idx && j / 8 == idx / 8 {
            assert((j % 8) as u8 != (idx % 8) as u8);
        }
    }
    assert(lhs =~= rhs);
}

/// Some frame of the `cnt`-frame window at `k` has value `val`.
pub open spec fn has_frame(bits: Seq<bool>, k: int, cnt: int, val: bool) -> bool {
    exists|j: int| k <= j < k + cnt && bits[j] == val
}

/// Every frame of the `cnt`-frame window at `k` has value `val`.
pub open spec fn all_frames(bits: Seq<bool>, k: int, cnt: int, val: bool) -> bool {
    forall|j: int| k <= j < k + cnt ==> bits[j] == val
}

/// A bitmap over page frames: bit `i` is set when frame `i` is in use.
pub struct BitMap {
    data: Vec<u8>,
    size: usize,
}

impl View for BitMap {
    type V = Seq<bool>;

    closed spec fn view(&self) -> Seq<bool> {
        bits_of(self.data@, self.size as nat)
    }
}

impl BitMap {
    /// The byte string holds exactly the bits of the map.
    pub closed spec fn wf(self) -> bool {
        self.data@.len() == (self.size as int + 7) / 8
    }

    /// A map of `size` frames, all free.
    pub fn new(size: usize) -> (r: BitMap)
        requires
            size <= usize::MAX - 7,
        ensures
            r.wf(),
            r@.len() == size,
            forall|i: int| 0 <= i < size ==> !r@[i],
    {
        let len = (size + 7) / 8;
        let mut data: Vec<u8> = Vec::new();
        let mut i: usize = 0;
        while i < len
            invariant
                i <= len,
                data@.len() == i,
                forall|j: int| 0 <= j < i ==> data@[j] == 0u8,
            decreases len - i,
        {
            data.push(0);
            i = i + 1;
        }
        let r = BitMap { data, size };
        proof {
            assert forall|i2: int| 0 <= i2 < size implies !r@[i2] by {
                lemma_fundamental_div_mod(i2, 8);
                assert((size as int + 7) / 8 * 8 >= size) by (nonlinear_arith);
                assert(forall|k2: u8| !byte_bit(0, k2)) by (bit_vector);
            }
        }
        r
    }

    /// The number of frames the map covers.
    pub fn size(&self) -> (r: usize)
        ensures
            r == self@.len(),
    {
        self.size
    }

    /// Whether frame `idx` is in use.
    pub fn test(&self, idx: usize) -> (r: bool)
        requires
            self.wf(),
            idx < self@.len(),
        ensures
            r == self@[idx as int],
    {
        proof {
            assert((idx as int) / 8 < ((self.size as int) + 7) / 8) by (nonlinear_arith)
                requires
                    (idx as int) < (self.size as int),
            ;
        }
        let b = self.data[idx / 8];
        let k: u8 = (idx % 8) as u8;
        let r = b & (1u8 << k) != 0;
        proof {
            assert(k < 8 ==> ((b & (1u8 << k) != 0) == byte_bit(b, k))) by (bit_vector);
            lemma_fundamental_div_mod(idx as int, 8);
        }
        r
    }

    /// Marks frame `idx` free.
    pub fn clear(&mut self, idx: usize)
        requires
            old(self).wf(),
            idx < old(self)@.len(),
        ensures
            final(self).wf(),
            final(self)@ == old(self)@.update(idx as int, false),
    {
        proof {
            assert((idx as int) / 8 < ((self.size as int) + 7) / 8) by (nonlinear_arith)
                requires
                    (idx as int) < (self.size as int),
            ;
            assert(8 * (((self.size as int) + 7) / 8) >= self.size as int) by (nonlinear_arith);
        }
        let k: u8 = (idx % 8) as u8;
        let b = self.data[idx / 8] & !(1u8 << k);
        self.data[idx / 8] = b;
        proof {
            lemma_clear_bit_u8(old(self).data@[idx as int / 8], k);
            lemma_bits_of_byte_update(old(self).data@, self.size as nat, idx as int, b);
        }
    }

    /// Marks frame `idx` in use.
    pub fn mark(&mut self, idx: usize)
        requires
            old(self).wf(),
            idx < old(self)@.len(),
        ensures
            final(self).wf(),
            final(self)@ == old(self)@.update(idx as int, true),
    {
        proof {
            assert((idx as int) / 8 < ((self.size as int) + 7) / 8) by (nonlinear_arith)
                requires
                    (idx as int) < (self.size as int),
            ;
            assert(8 * (((self.size as int) + 7) / 8) >= self.size as int) by (nonlinear_arith);
        }
        let k: u8 = (idx % 8) as u8;
        let b = self.data[idx / 8] | (1u8 << k);
        self.data[idx / 8] = b;
        proof {
            lemma_set_bit_u8(old(self).data@[idx as int / 8], k);
            lemma_bits_of_byte_update(old(self).data@, self.size as nat, idx as int, b);
        }
    }

    /// Inverts frame `idx`.
    pub fn flip(&mut self, idx: usize)
        requires
            old(self).wf(),
            idx < old(self)@.len(),
        ensures
            final(self).wf(),
            final(self)@ == old(self)@.update(idx as int, !old(self)@[idx as int]),
    {
        proof {
            assert((idx as int) / 8 < ((self.size as int) + 7) / 8) by (nonlinear_arith)
                requires
                    (idx as int) < (self.size as int),
            ;
            assert(8 * (((self.size as int) + 7) / 8) >= self.size as int) by (nonlinear_arith);
        }
        let k: u8 = (idx % 8) as u8;
        let b = self.data[idx / 8] ^ (1u8 << k);
        self.data[idx / 8] = b;
        proof {
            lemma_flip_bit_u8(old(self).data@[idx as int / 8], k);
            lemma_bits_of_byte_update(old(self).data@, self.size as nat, idx as int, b);
            lemma_fundamental_div_mod(idx as int, 8);
        }
    }

    /// Inverts the run of `len` frames starting at `idx`.
    pub fn flips(&mut self, idx: usize, len: usize)
        requires
            old(self).wf(),
            idx + len <= old(self)@.len(),
        ensures
            final(self).wf(),
            final(self)@.len() == old(self)@.len(),
            forall|j: int|
                0 <= j < old(self)@.len() ==> final(self)@[j] == if idx <= j < idx + len {
                    !old(self)@[j]
                } else {
                    old(self)@[j]
                },
    {
        let mut i: usize = 0;
        while i < len
            invariant
                i <= len,
                idx + len <= old(self)@.len(),
                self.wf(),
                self@.len() == old(self)@.len(),
                forall|j: int|
                    0 <= j < old(self)@.len() ==> self@[j] == if idx <= j < idx + i {
                        !old(self)@[j]
                    } else {
                        old(self)@[j]
                    },
            decreases len - i,
        {
            self.flip(idx + i);
            i = i + 1;
        }
    }

    /// Sets frame `idx` to `val`.
    pub fn set(&mut self, idx: usize, val: bool)
        requires
            old(self).wf(),
            idx < old(self)@.len(),
        ensures
            final(self).wf(),
            final(self)@ == old(self)@.update(idx as int, val),
    {
        if val {
            self.mark(idx)
        } else {
            self.clear(idx)
        }
    }

    /// Sets the run of `len` frames starting at `idx` to `val`.
    pub fn sets(&mut self, idx: usize, len: usize, val: bool)
        requires
            old(self).wf(),
            idx + len <= old(self)@.len(),
        ensures
            final(self).wf(),
            final(self)@.len() == old(self)@.len(),
            forall|j: int|
                0 <= j < old(self)@.len() ==> final(self)@[j] == if idx <= j < idx + len {
                    val
                } else {
                    old(self)@[j]
                },
    {
        let mut i: usize = 0;
        while i < len
            invariant
                i <= len,
                idx + len <= old(self)@.len(),
                self.wf(),
                self@.len() == old(self)@.len(),
                forall|j: int|
                    0 <= j < old(self)@.len() ==> self@[j] == if idx <= j < idx + i {
                        val
                    } else {
                        old(self)@[j]
                    },
            decreases len - i,
        {
            self.set(idx + i, val);
            i = i + 1;
        }
    }

    /// Whether any of the `len` frames from `start` has value `val`.
    pub fn contains(&self, start: usize, len: usize, val: bool) -> (r: bool)
        requires
            self.wf(),
            start + len <= self@.len(),
        ensures
            r == has_frame(self@, start as int, len as int, val),
    {
        let mut i: usize = 0;
        while i < len
            invariant
                i <= len,
                start + len <= self@.len(),
                self.wf(),
                forall|j: int| start <= j < start + i ==> self@[j] != val,
            decreases len - i,
        {
            if self.test(start + i) == val {
                return true;
            }
            i = i + 1;
        }
        false
    }

    /// The first position at or after `start` where a whole window of
    /// `len` frames has value `val`; nothing when no window fits or
    /// every fitting window holds an opposite frame.
    pub fn find(&self, start: usize, len: usize, val: bool) -> (r: Option<usize>)
        requires
            self.wf(),
        ensures
            r matches Some(i) ==> start <= i && i + len <= self@.len() && all_frames(
                self@,
                i as int,
                len as int,
                val,
            ) && (forall|k: int|
                start <= k < i ==> !#[trigger] all_frames(self@, k, len as int, val)),
            r is None ==> forall|k: int|
                start <= k && k + len <= self@.len() ==> !#[trigger] all_frames(
                    self@,
                    k,
                    len as int,
                    val,
                ),
    {
        if len > self.size {
            return None;
        }
        let mut i: usize = start;
        if i > self.size - len {
            return None;
        }
        while i <= self.size - len
            invariant
                start <= i,
                len <= self.size,
                self.wf(),
                self@.len() == self.size,
                forall|k: int|
                    start <= k < i ==> !#[trigger] all_frames(self@, k, len as int, val),
            decreases self.size - len - i + 1,
        {
            if !self.contains(i, len, !val) {
                return Some(i);
            }
            i = i + 1;
        }
        None
    }

    /// Whether all of the `len` frames from `start` are in use.
    pub fn all(&self, start: usize, len: usize) -> (r: bool)
        requires
            self.wf(),
            start + len <= self@.len(),
        ensures
            r == forall|j: int| start <= j < start + len ==> self@[j],
    {
        let r = !self.contains(start, len, false);
        proof {
            if !has_frame(self@, start as int, len as int, false) {
                assert forall|j: int| start <= j < start + len implies self@[j] by {
                    assert(!(self@[j] == false));
                }
            }
        }
        r
    }

    /// Whether any of the `len` frames from `start` is in use.
    pub fn any(&self, start: usize, len: usize) -> (r: bool)
        requires
            self.wf(),
            start + len <= self@.len(),
        ensures
            r == has_frame(self@, start as int, len as int, true),
    {
        self.contains(start, len, true)
    }
}

/// A successful allocation: the first `cnt`-frame window at or after
/// the start that was wholly free is now wholly in use, every other
/// frame is as it was, and every earlier window held a used frame.
pub open spec fn alloc_transition(pre: Seq<bool>, post: Seq<bool>, idx: int, cnt: int) -> bool {
    0 <= idx && idx + cnt <= pre.len() && post.len() == pre.len() && (forall|j: int|
        idx <= j < idx + cnt ==> !pre[j] && post[j]) && (forall|j: int|
        0 <= j < pre.len() && !(idx <= j < idx + cnt) ==> post[j] == pre[j]) && (forall|k: int|
        0 <= k < idx ==> #[trigger] has_frame(pre, k, cnt, true))
}

/// The number of whole page frames `memsize` bytes cover.
pub open spec fn spec_page_count(memsize: usize) -> int {
    memsize as int / 4096
}

/// The number of pages the allocator's own bitmap occupies for a memory
/// of `memsize` bytes.
pub open spec fn spec_bitmap_pages(memsize: usize) -> int {
    ((spec_page_count(memsize) + 7) / 8 + 4095) / 4096
}

/// First-fit allocator over 4 KiB page frames: a bitmap of the frames
/// beyond its own storage, and the address the first tracked frame
/// lives at.
pub struct PageAllocator {
    bitmap: BitMap,
    base_addr: usize,
}

impl PageAllocator {
    /// The bitmap's byte storage matches its size.
    pub closed spec fn wf(self) -> bool {
        self.bitmap.wf()
    }

    /// The per-frame use bits.
    pub closed spec fn bits(self) -> Seq<bool> {
        self.bitmap@
    }

    /// The address of frame 0.
    pub closed spec fn spec_base(self) -> usize {
        self.base_addr
    }

    /// An allocator managing a memory of `memsize` bytes: the bitmap's
    /// own pages are carved off the front, and every remaining frame
    /// starts free.
    pub fn new(memsize: usize) -> (r: PageAllocator)
        requires
            0xc0100000 + spec_bitmap_pages(memsize) * 4096 <= usize::MAX,
        ensures
            r.wf(),
            r.spec_base() == 0xc0100000 + spec_bitmap_pages(memsize) * 4096,
            r.bits().len() == spec_page_count(memsize) - spec_bitmap_pages(memsize),
            forall|i: int| 0 <= i < r.bits().len() ==> !r.bits()[i],
    {
        let pagecnt = memsize / 4096;
        proof {
            assert(memsize as int / 4096 <= memsize as int) by (nonlinear_arith);
        }
        let bitmap_size = (pagecnt + 7) / 8;
        proof {
            assert((pagecnt as int + 7) / 8 <= pagecnt as int + 7) by (nonlinear_arith);
        }
        let bitmap_pages = (bitmap_size + 4095) / 4096;
        proof {
            assert(pagecnt as int >= 1 ==> ((pagecnt as int + 7) / 8 + 4095) / 4096
                <= pagecnt as int) by (nonlinear_arith);
            assert(pagecnt as int == 0 ==> ((pagecnt as int + 7) / 8 + 4095) / 4096 == 0)
                by (nonlinear_arith);
        }
        let avl_pages = pagecnt - bitmap_pages;
        PageAllocator {
            bitmap: BitMap::new(avl_pages),
            base_addr: 0xc0100000 + bitmap_pages * 4096,
        }
    }

    /// Allocates the first free run of `cnt` frames and returns its
    /// address; nothing when no such run exists, with the map unchanged.
    pub fn get_page(&mut self, cnt: usize) -> (r: Option<usize>)
        requires
            old(self).wf(),
            old(self).spec_base() + old(self).bits().len() * 4096 <= usize::MAX,
        ensures
            final(self).wf(),
            final(self).spec_base() == old(self).spec_base(),
            final(self).bits().len() == old(self).bits().len(),
            r matches Some(addr) ==> exists|idx: int|
                #![auto]
                alloc_transition(old(self).bits(), final(self).bits(), idx, cnt as int) && addr
                    == old(self).spec_base() + idx * 4096,
            r is None ==> final(self).bits() == old(self).bits() && (forall|k: int|
                0 <= k && k + cnt <= old(self).bits().len() ==> #[trigger] has_frame(
                    old(self).bits(),
                    k,
                    cnt as int,
                    true,
                )),
    {
        match self.bitmap.find(0, cnt, false) {
            None => {
                proof {
                    let b = old(self).bits();
                    assert forall|k: int| 0 <= k && k + cnt <= b.len() implies #[trigger] has_frame(
                        b,
                        k,
                        cnt as int,
                        true,
                    ) by {
                        assert(!all_frames(b, k, cnt as int, false));
                        assert(exists|j: int| k <= j < k + cnt && b[j] != false);
                        let j = choose|j: int| k <= j < k + cnt && b[j] != false;
                        assert(b[j] == true);
                    }
                }
                None
            },
            Some(avl_page) => {
                self.bitmap.flips(avl_page, cnt);
                proof {
                    let pre = old(self).bits();
                    let post = self.bits();
                    let ghost n = pre.len() as int;
                    assert(avl_page as int <= n);
                    assert(avl_page as int * 4096 <= n * 4096) by (nonlinear_arith)
                        requires
                            avl_page as int <= n,
                    ;
                    assert forall|k: int| 0 <= k < avl_page implies #[trigger] has_frame(
                        pre,
                        k,
                        cnt as int,
                        true,
                    ) by {
                        assert(!all_frames(pre, k, cnt as int, false));
                        assert(exists|j: int| k <= j < k + cnt && pre[j] != false);
                        let j = choose|j: int| k <= j < k + cnt && pre[j] != false;
                        assert(pre[j] == true);
                    }
                    assert(alloc_transition(pre, post, avl_page as int, cnt as int));
                }
                Some(self.base_addr + avl_page * 4096)
            },
        }
    }

    /// Returns the run of `cnt` frames at the page-aligned address
    /// `page` to the free pool; all of them must be in use.
    pub fn free_page(&mut self, page: usize, cnt: usize)
        requires
            old(self).wf(),
            page % 4096 == 0,
            page >= old(self).spec_base(),
            (page - old(self).spec_base()) / 4096 + cnt <= old(self).bits().len(),
            forall|j: int|
                (page - old(self).spec_base()) / 4096 <= j < (page - old(self).spec_base()) / 4096
                    + cnt ==> old(self).bits()[j],
        ensures
            final(self).wf(),
            final(self).spec_base() == old(self).spec_base(),
            final(self).bits().len() == old(self).bits().len(),
            forall|j: int|
                0 <= j < old(self).bits().len() ==> final(self).bits()[j] == if (page - old(
                    self,
                ).spec_base()) / 4096 <= j < (page - old(self).spec_base()) / 4096 + cnt {
                    false
                } else {
                    old(self).bits()[j]
                },
    {
        let pidx = (page - self.base_addr) / 4096;
        self.bitmap.flips(pidx, cnt);
    }
}

/// One 32-bit page-table entry, read field by field.
pub struct PageTableEntry(u32);

impl View for PageTableEntry {
    type V = u32;

    closed spec fn view(&self) -> u32 {
        self.0
    }
}

/// Bit `k` of a 32-bit entry.
pub open spec fn entry_bit(w: u32, k: u32) -> bool {
    (w as u64 >> k as u64) & 1 == 1
}

impl PageTableEntry {
    /// An entry with the given raw value.
    pub fn new(raw: u32) -> (r: PageTableEntry)
        ensures
            r@ == raw,
    {
        PageTableEntry(raw)
    }

    /// The page is mapped.
    pub fn present(&self) -> (r: bool)
        ensures
            r == entry_bit(self@, 0),
    {
        self.0.get_bit(0)
    }

    /// The page may be written.
    pub fn rw(&self) -> (r: bool)
        ensures
            r == entry_bit(self@, 1),
    {
        self.0.get_bit(1)
    }

    /// The page is reachable from ring 3.
    pub fn is_user(&self) -> (r: bool)
        ensures
            r == entry_bit(self@, 2),
    {
        self.0.get_bit(2)
    }

    /// Writes go straight to memory.
    pub fn write_through(&self) -> (r: bool)
        ensures
            r == entry_bit(self@, 3),
    {
        self.0.get_bit(3)
    }

    /// The page bypasses the cache.
    pub fn cache_disable(&self) -> (r: bool)
        ensures
            r == entry_bit(self@, 4),
    {
        self.0.get_bit(4)
    }

    /// The page has been read or written since the bit was cleared.
    pub fn accessed(&self) -> (r: bool)
        ensures
            r == entry_bit(self@, 5),
    {
        self.0.get_bit(5)
    }

    /// The page has been written since the bit was cleared.
    pub fn dirty(&self) -> (r: bool)
        ensures
            r == entry_bit(self@, 6),
    {
        self.0.get_bit(6)
    }

    /// The page-attribute-table bit.
    pub fn page_attribute(&self) -> (r: bool)
        ensures
            r == entry_bit(self@, 7),
    {
        self.0.get_bit(7)
    }

    /// The mapping survives address-space switches.
    pub fn global(&self) -> (r: bool)
        ensures
            r == entry_bit(self@, 8),
    {
        self.0.get_bit(8)
    }

    /// The three bits left to the kernel's own use.
    pub fn available(&self) -> (r: u32)
        ensures
            r as u64 == (self@ as u64 >> 9) & 7,
    {
        let r = self.0.get_bits(9, 12);
        proof {
            assert(((1u64 << 3u64) - 1) as u64 == 7) by (bit_vector);
        }
        r
    }

    /// The physical address of the frame, the entry's top 20 bits.
    pub fn addr(&self) -> (r: u32)
        ensures
            r == self@ & 0xfffff000u32,
    {
        let high = self.0.get_bits(12, 32);
        let r = high << 12;
        proof {
            let w = self.0;
            assert(high as u64 == (w as u64 >> 12u64) & ((1u64 << 20u64) - 1) as u64 ==> high
                << 12 == w & 0xfffff000u32) by (bit_vector);
        }
        r
    }
}

} // verus!
