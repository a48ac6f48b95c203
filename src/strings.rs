//! Owned byte buffers addressed by integer handles.
//!
//! A host that can only exchange integers with this library creates,
//! fills, reads and releases byte buffers through handles. Every buffer
//! lives in a `StringTable`; a handle is an index into that table and stays
//! valid from the call that returns it until the call that destroys it.
use vstd::prelude::*;
use vstd::string::StringSliceAdditionalSpecFns;
use vstd::string::StrSliceExecFns;

verus! {

/// A buffer of `n` zero bytes.
pub open spec fn zeros(n: nat) -> Seq<u8> {
    Seq::new(n, |_i: int| 0u8)
}

/// The arena of live buffers. A slot that holds `None` is free.
pub struct StringTable {
    slots: Vec<Option<Vec<u8>>>,
}

impl View for StringTable {
    /// Each live handle with the bytes of its buffer.
    type V = Map<u32, Seq<u8>>;

    closed spec fn view(&self) -> Map<u32, Seq<u8>> {
        Map::new(
            |h: u32| (h as int) < self.slots@.len() && self.slots@[h as int] is Some,
            |h: u32| self.slots@[h as int]->0@,
        )
    }
}

impl StringTable {
    /// Every slot is addressable by a `u32` handle and every buffer reports
    /// its length as a `u32`.
    pub closed spec fn wf(&self) -> bool {
        &&& self.slots@.len() <= u32::MAX as nat + 1
        &&& forall|i: int|
            0 <= i < self.slots@.len() && #[trigger] self.slots@[i] is Some
                ==> self.slots@[i]->0@.len() <= u32::MAX as nat
    }

    /// Some handle value is not in use, so one more buffer can be created.
    pub open spec fn has_room(&self) -> bool {
        exists|h: u32| !self@.contains_key(h)
    }

    /// `h` is the smallest handle value that is not in use.
    pub open spec fn is_lowest_free(&self, h: u32) -> bool {
        &&& !self@.contains_key(h)
        &&& forall|k: u32| k < h ==> self@.contains_key(k)
    }

    /// An empty table.
    pub fn new() -> (t: StringTable)
        ensures
            t.wf(),
            t@ == Map::<u32, Seq<u8>>::empty(),
    {
        let t = StringTable { slots: Vec::new() };
        assert(t@ =~= Map::<u32, Seq<u8>>::empty());
        t
    }

    /// Whether `h` is a live handle.
    pub fn is_live(&self, h: u32) -> (r: bool)
        ensures
            r == self@.contains_key(h),
    {
        (h as usize) < self.slots.len() && self.slots[h as usize].is_some()
    }

    /// Whether one more buffer can be created.
    pub fn can_allocate(&self) -> (r: bool)
        requires
            self.wf(),
        ensures
            r == self.has_room(),
    {
        match self.first_free() {
            Some(i) => {
                assert(!self@.contains_key(i as u32));
                true
            },
            None => {
                let n = self.slots.len();
                if n <= u32::MAX as usize {
                    assert(!self@.contains_key(n as u32));
                    true
                } else {
                    assert forall|h: u32| self@.contains_key(h) by {
                        assert(self.slots@[h as int] is Some);
                    }
                    false
                }
            },
        }
    }

    /// A copy of the bytes of the buffer of `h`.
    pub fn bytes(&self, h: u32) -> (r: Vec<u8>)
        requires
            self@.contains_key(h),
        ensures
            r@ == self@[h],
    {
        match &self.slots[h as usize] {
            Some(buf) => buf.clone(),
            None => Vec::new(),
        }
    }

    /// The first free slot, if any.
    fn first_free(&self) -> (r: Option<usize>)
        ensures
            match r {
                Some(i) => i < self.slots@.len() && self.slots@[i as int] is None && forall|k: int|
                    0 <= k < i ==> #[trigger] self.slots@[k] is Some,
                None => forall|k: int| 0 <= k < self.slots@.len() ==> #[trigger] self.slots@[k] is Some,
            },
    {
        let n = self.slots.len();
        let mut i: usize = 0;
        while i < n
            invariant
                n == self.slots@.len(),
                i <= n,
                forall|k: int| 0 <= k < i ==> #[trigger] self.slots@[k] is Some,
            decreases n - i,
        {
            if self.slots[i].is_none() {
                return Some(i);
            }
            i += 1;
        }
        None
    }

    /// Stores `buf` under the smallest free handle.
    fn allocate(&mut self, buf: Vec<u8>) -> (h: u32)
        requires
            old(self).wf(),
            old(self).has_room(),
            buf@.len() <= u32::MAX as nat,
        ensures
            final(self).wf(),
            old(self).is_lowest_free(h),
            final(self)@ == old(self)@.insert(h, buf@),
    {
        let ghost m = self@;
        let ghost b = buf@;
        match self.first_free() {
            Some(i) => {
                self.slots[i] = Some(buf);
                proof {
                    assert(forall|k: u32| k < i ==> m.contains_key(k));
                    assert(self@ =~= m.insert(i as u32, b));
                }
                i as u32
            },
            None => {
                let n = self.slots.len();
                proof {
                    let f = choose|f: u32| !m.contains_key(f);
                    assert(f as int >= n);
                }
                self.slots.push(Some(buf));
                proof {
                    assert(forall|k: u32| k < n ==> m.contains_key(k));
                    assert(self@ =~= m.insert(n as u32, b));
                }
                n as u32
            },
        }
    }
}

/// The version string of this library.
pub const VERSION: &'static str = "0.1.0";

/// The bytes that `wasm_get_version` hands out.
pub open spec fn version_bytes() -> Seq<u8> {
    VERSION.spec_bytes()
}

/// The table after a buffer of `n` zero bytes was created under `h`.
pub open spec fn after_create(m: Map<u32, Seq<u8>>, h: u32, n: nat) -> Map<u32, Seq<u8>> {
    m.insert(h, zeros(n))
}

/// The table after byte `i` of buffer `h` was overwritten with `v`.
pub open spec fn after_write(m: Map<u32, Seq<u8>>, h: u32, i: int, v: u8) -> Map<u32, Seq<u8>> {
    m.insert(h, m[h].update(i, v))
}

/// The length that buffer `h` reports.
pub open spec fn length_of(m: Map<u32, Seq<u8>>, h: u32) -> nat {
    m[h].len()
}

/// The byte at index `i` of buffer `h`.
pub open spec fn byte_at(m: Map<u32, Seq<u8>>, h: u32, i: int) -> u8 {
    m[h][i]
}

/// Creates a buffer of `len` zero bytes and returns its handle, the
/// smallest handle value not in use.
pub fn wasm_string_new(strings: &mut StringTable, len: u32) -> (h: u32)
    requires
        old(strings).wf(),
        old(strings).has_room(),
    ensures
        final(strings).wf(),
        old(strings).is_lowest_free(h),
        final(strings)@ == after_create(old(strings)@, h, len as nat),
{
    let mut buf: Vec<u8> = Vec::new();
    let mut i: u32 = 0;
    while i < len
        invariant
            i <= len,
            buf@ == zeros(i as nat),
        decreases len - i,
    {
        buf.push(0u8);
        i += 1;
        assert(buf@ =~= zeros(i as nat));
    }
    strings.allocate(buf)
}

/// Creates a buffer that holds `content` and returns its handle, the
/// smallest handle value not in use.
pub fn wasm_string_new_with(strings: &mut StringTable, content: Vec<u8>) -> (h: u32)
    requires
        old(strings).wf(),
        old(strings).has_room(),
        content@.len() <= u32::MAX as nat,
    ensures
        final(strings).wf(),
        old(strings).is_lowest_free(h),
        final(strings)@ == old(strings)@.insert(h, content@),
{
    strings.allocate(content)
}

/// Releases the buffer of `h`; the handle is no longer valid afterwards.
pub fn wasm_string_drop(strings: &mut StringTable, h: u32)
    requires
        old(strings).wf(),
        old(strings)@.contains_key(h),
    ensures
        final(strings).wf(),
        final(strings)@ == old(strings)@.remove(h),
{
    let ghost m = strings@;
    strings.slots[h as usize] = None;
    assert(strings@ =~= m.remove(h));
}

/// The number of bytes in the buffer of `h`.
pub fn wasm_string_get_len(strings: &StringTable, h: u32) -> (r: u32)
    requires
        strings.wf(),
        strings@.contains_key(h),
    ensures
        r as nat == length_of(strings@, h),
{
    match &strings.slots[h as usize] {
        Some(buf) => buf.len() as u32,
        None => 0,
    }
}

/// The byte at `index` of the buffer of `h`.
pub fn wasm_string_get_byte(strings: &StringTable, h: u32, index: u32) -> (r: u8)
    requires
        strings.wf(),
        strings@.contains_key(h),
        index < length_of(strings@, h),
    ensures
        r == byte_at(strings@, h, index as int),
{
    match &strings.slots[h as usize] {
        Some(buf) => buf[index as usize],
        None => 0,
    }
}

/// Overwrites the byte at `index` of the buffer of `h` with `value`.
pub fn wasm_string_set_byte(strings: &mut StringTable, h: u32, index: u32, value: u8)
    requires
        old(strings).wf(),
        old(strings)@.contains_key(h),
        index < length_of(old(strings)@, h),
    ensures
        final(strings).wf(),
        final(strings)@ == after_write(old(strings)@, h, index as int, value),
{
    let ghost m = strings@;
    let slot = &mut strings.slots[h as usize];
    match slot {
        Some(buf) => {
            buf[index as usize] = value;
        },
        None => {},
    }
    assert(strings@ =~= after_write(m, h, index as int, value));
}

/// Creates a buffer that holds the version string and returns its handle.
pub fn wasm_get_version(strings: &mut StringTable) -> (h: u32)
    requires
        old(strings).wf(),
        old(strings).has_room(),
    ensures
        final(strings).wf(),
        old(strings).is_lowest_free(h),
        final(strings)@ == old(strings)@.insert(h, version_bytes()),
        version_bytes().len() > 0,
{
    let bytes = VERSION.as_bytes_vec();
    proof {
        reveal_strlit("0.1.0");
        assert(vstd::string::is_ascii(VERSION));
    }
    strings.allocate(bytes)
}

/// The table after the bytes of `b` were written, in order of index, to
/// the first `k` positions of buffer `h`.
pub open spec fn after_writes(m: Map<u32, Seq<u8>>, h: u32, b: Seq<u8>, k: nat) -> Map<
    u32,
    Seq<u8>,
>
    decreases k,
{
    if k == 0 {
        m
    } else {
        let k1 = (k - 1) as nat;
        after_write(after_writes(m, h, b, k1), h, k1 as int, b[k1 as int])
    }
}

/// A buffer created with length `n` reports length `n`, and each of its
/// bytes reads as zero.
pub proof fn lemma_create_then_read(m: Map<u32, Seq<u8>>, h: u32, n: nat)
    ensures
        length_of(after_create(m, h, n), h) == n,
        forall|i: int| 0 <= i < n ==> byte_at(after_create(m, h, n), h, i) == 0,
{
}

proof fn lemma_after_writes_prefix(m: Map<u32, Seq<u8>>, h: u32, b: Seq<u8>, k: nat)
    requires
        m.contains_key(h),
        m[h].len() == b.len(),
        k <= b.len(),
    ensures
        after_writes(m, h, b, k).dom() == m.dom(),
        forall|g: u32| g != h && m.contains_key(g) ==> #[trigger] after_writes(m, h, b, k)[g] == m[g],
        after_writes(m, h, b, k)[h].len() == b.len(),
        forall|i: int| 0 <= i < k ==> #[trigger] after_writes(m, h, b, k)[h][i] == b[i],
        forall|i: int| k <= i < b.len() ==> #[trigger] after_writes(m, h, b, k)[h][i] == m[h][i],
    decreases k,
{
    if k > 0 {
        let k1 = (k - 1) as nat;
        lemma_after_writes_prefix(m, h, b, k1);
        let p = after_writes(m, h, b, k1);
        assert(p.contains_key(h));
        assert(after_writes(m, h, b, k).dom() =~= m.dom());
    }
}

/// Writing the bytes of `b` one index after the other into a buffer of
/// length `len(b)` and then reading each index back gives `b`; every other
/// buffer is left as it was.
pub proof fn lemma_write_read_round_trip(m: Map<u32, Seq<u8>>, h: u32, b: Seq<u8>)
    requires
        m.contains_key(h),
        length_of(m, h) == b.len(),
    ensures
        after_writes(m, h, b, b.len()).contains_key(h),
        length_of(after_writes(m, h, b, b.len()), h) == b.len(),
        forall|i: int| 0 <= i < b.len() ==> byte_at(after_writes(m, h, b, b.len()), h, i) == b[i],
        after_writes(m, h, b, b.len())[h] == b,
        after_writes(m, h, b, b.len()).remove(h) == m.remove(h),
{
    lemma_after_writes_prefix(m, h, b, b.len());
    let w = after_writes(m, h, b, b.len());
    assert(w[h] =~= b);
    assert(w.remove(h) =~= m.remove(h));
}

/// Creating a buffer and then destroying it leaves the table exactly as it
/// was: nothing of the buffer stays behind.
pub proof fn lemma_create_then_destroy(m: Map<u32, Seq<u8>>, h: u32, n: nat)
    requires
        !m.contains_key(h),
    ensures
        after_create(m, h, n).remove(h) == m,
{
    assert(after_create(m, h, n).remove(h) =~= m);
}

/// The version buffer is not empty, and its bytes are the same whatever
/// the table held before the call.
pub proof fn lemma_version_independent(m1: Map<u32, Seq<u8>>, h1: u32, m2: Map<u32, Seq<u8>>, h2: u32)
    ensures
        m1.insert(h1, version_bytes())[h1] == m2.insert(h2, version_bytes())[h2],
        m1.insert(h1, version_bytes())[h1].len() > 0,
{
    reveal_strlit("0.1.0");
    assert(vstd::string::is_ascii(VERSION));
}

} // verus!
