//! Observed memory of the attached game process.
//!
//! The host that owns the real attachment reads ranges of the game's address
//! space and records them here as segments. The rest of the library computes
//! over a `Process` value only; it never issues a write, and a read that
//! reaches outside the recorded segments fails with the exact range that was
//! missing, so the host can fetch it and retry.

use vstd::prelude::*;

verus! {

/// An address in the attached process's 64-bit address space.
pub type Address = u64;

/// How an operation of the core can fail.
#[derive(Clone, Copy, Debug, PartialEq, Eq, Structural)]
pub enum Error {
    /// The host found no process with the expected name.
    NotAttached,
    /// The attached process is not the expected game.
    WrongProcess,
    /// A read of `len` bytes at `addr` failed; the fields are `(addr, len)`.
    FailedRead(u64, u64),
    /// A class or field was not found, or a class had an unexpected kind.
    ReflectionError,
    /// A C string was not NUL-terminated within the supported length.
    DecodeError,
}

/// One contiguous range of observed bytes.
struct Segment {
    base: u64,
    data: Vec<u8>,
}

impl Segment {
    /// The segment holds the byte at address `a`.
    spec fn covers(&self, a: int) -> bool {
        self.base <= a < self.base + self.data@.len()
    }

    /// The segment is non-empty and does not run past the address space.
    spec fn seg_wf(&self) -> bool {
        &&& self.data@.len() > 0
        &&& self.base + self.data@.len() <= u64::MAX
    }

    /// The byte the segment holds at address `a`.
    spec fn byte(&self, a: int) -> u8 {
        self.data@[a - self.base]
    }
}

/// Two segments share no address.
spec fn seg_disjoint(s1: &Segment, s2: &Segment) -> bool {
    s1.base + s1.data@.len() <= s2.base || s2.base + s2.data@.len() <= s1.base
}

/// The bytes `bytes` laid out from address `base`, as a partial map.
pub open spec fn range_map(base: u64, bytes: Seq<u8>) -> Map<int, u8> {
    Map::new(|a: int| base <= a < base + bytes.len(), |a: int| bytes[a - base])
}

/// Addition on addresses is modular, as it is in the observed process.
pub open spec fn wrap_add(a: u64, b: u64) -> u64 {
    if a + b > u64::MAX {
        ((a + b - 0x1_0000_0000_0000_0000) as u64)
    } else {
        ((a + b) as u64)
    }
}

/// Every byte of `[addr, addr + len)` has been observed in `m`.
pub open spec fn spec_has_range(m: Map<int, u8>, addr: int, len: int) -> bool {
    forall|k: int| 0 <= k < len ==> m.dom().contains(#[trigger] (addr + k))
}

/// The observed bytes of `[addr, addr + len)`.
pub open spec fn spec_bytes_at(m: Map<int, u8>, addr: int, len: int) -> Seq<u8> {
    Seq::new(len as nat, |k: int| m[addr + k])
}

/// What a read of `len` bytes at `addr` returns: the observed bytes, or
/// `FailedRead` naming the requested range when any byte is missing.
/// A partial read is a failure.
pub open spec fn spec_read_bytes(m: Map<int, u8>, addr: u64, len: u64) -> Result<Seq<u8>, Error> {
    if len <= usize::MAX && spec_has_range(m, addr as int, len as int) {
        Ok(spec_bytes_at(m, addr as int, len as int))
    } else {
        Err(Error::FailedRead(addr, len))
    }
}

/// What a one-byte read at `addr` returns.
pub open spec fn spec_read_u8(m: Map<int, u8>, addr: u64) -> Result<u8, Error> {
    match spec_read_bytes(m, addr, 1) {
        Ok(s) => Ok(s[0]),
        Err(e) => Err(e),
    }
}

/// What a four-byte little-endian read at `addr` returns.
pub open spec fn spec_read_u32(m: Map<int, u8>, addr: u64) -> Result<u32, Error> {
    match spec_read_bytes(m, addr, 4) {
        Ok(s) => Ok(vstd::bytes::spec_u32_from_le_bytes(s)),
        Err(e) => Err(e),
    }
}

/// What an eight-byte little-endian read at `addr` returns.
pub open spec fn spec_read_u64(m: Map<int, u8>, addr: u64) -> Result<u64, Error> {
    match spec_read_bytes(m, addr, 8) {
        Ok(s) => Ok(vstd::bytes::spec_u64_from_le_bytes(s)),
        Err(e) => Err(e),
    }
}

/// What reading the NUL-terminated byte string at `a` returns, with `budget`
/// non-NUL bytes still allowed.
pub open spec fn spec_cstr_rec(m: Map<int, u8>, a: u64, budget: nat) -> Result<Seq<u8>, Error>
    decreases budget,
{
    match spec_read_u8(m, a) {
        Err(e) => Err(e),
        Ok(b) => if b == 0 {
            Ok(Seq::empty())
        } else if budget == 0 {
            Err(Error::DecodeError)
        } else {
            match spec_cstr_rec(m, wrap_add(a, 1), (budget - 1) as nat) {
                Ok(s) => Ok(seq![b] + s),
                Err(e) => Err(e),
            }
        },
    }
}

/// What reading the NUL-terminated byte string at `a` returns: up to 255
/// bytes before the NUL, `DecodeError` when no NUL appears in that span.
pub open spec fn spec_cstr(m: Map<int, u8>, a: u64) -> Result<Seq<u8>, Error> {
    spec_cstr_rec(m, a, 255)
}

/// A snapshot of the observable memory of the attached process.
///
/// Its view is the partial map from addresses to the bytes that have been
/// observed; all reads of the core are specified against that map.
pub struct Process {
    segs: Vec<Segment>,
}

impl View for Process {
    type V = Map<int, u8>;

    closed spec fn view(&self) -> Map<int, u8> {
        Map::new(
            |a: int|
                exists|i: int|
                    0 <= i < self.segs@.len() && (#[trigger] self.segs@[i]).covers(a),
            |a: int|
                {
                    let i = choose|i: int|
                        0 <= i < self.segs@.len() && (#[trigger] self.segs@[i]).covers(a);
                    self.segs@[i].byte(a)
                },
        )
    }
}

impl Process {
    /// The segments are non-empty, stay within the address space, and are
    /// pairwise disjoint, so each observed address has one byte.
    pub closed spec fn wf(&self) -> bool {
        &&& forall|i: int|
            0 <= i < self.segs@.len() ==> (#[trigger] self.segs@[i]).seg_wf()
        &&& forall|i: int, j: int|
            0 <= i < j < self.segs@.len() ==> seg_disjoint(&self.segs@[i], &self.segs@[j])
    }

    /// A covering segment decides membership and value of the view.
    proof fn lemma_byte_at(&self, i: int, a: int)
        requires
            self.wf(),
            0 <= i < self.segs@.len(),
            self.segs@[i].covers(a),
        ensures
            self@.dom().contains(a),
            self@[a] == self.segs@[i].byte(a),
    {
        assert(self@.dom().contains(a));
        let j = choose|j: int|
            0 <= j < self.segs@.len() && (#[trigger] self.segs@[j]).covers(a);
        if i != j {
            if i < j {
                assert(seg_disjoint(&self.segs@[i], &self.segs@[j]));
            } else {
                assert(seg_disjoint(&self.segs@[j], &self.segs@[i]));
            }
            assert(false);
        }
    }

    /// An observed address lies in some segment.
    proof fn lemma_dom_covered(&self, a: int) -> (i: int)
        requires
            self@.dom().contains(a),
        ensures
            0 <= i < self.segs@.len(),
            self.segs@[i].covers(a),
    {
        choose|i: int| 0 <= i < self.segs@.len() && (#[trigger] self.segs@[i]).covers(a)
    }

    /// An empty snapshot: no byte of the process has been observed.
    pub fn new() -> (r: Process)
        ensures
            r.wf(),
            r@ == Map::<int, u8>::empty(),
    {
        let r = Process { segs: Vec::new() };
        proof {
            assert(r@ =~= Map::<int, u8>::empty());
        }
        r
    }

    /// Record `data` as the observed bytes at `base`.
    ///
    /// The bytes are accepted exactly when they fit in the address space and
    /// no address of the range has been observed already; otherwise the
    /// snapshot is unchanged.
    pub fn add_segment(&mut self, base: u64, data: Vec<u8>) -> (added: bool)
        requires
            old(self).wf(),
        ensures
            final(self).wf(),
            added == (base + data@.len() <= u64::MAX && forall|a: int|
                base <= a < base + data@.len() ==> !old(self)@.dom().contains(a)),
            added ==> final(self)@ == old(self)@.union_prefer_right(range_map(base, data@)),
            !added ==> *final(self) == *old(self),
    {
        if data.len() == 0 {
            proof {
                assert(self@ =~= old(self)@.union_prefer_right(range_map(base, data@)));
            }
            return true;
        }
        let len_u64: u64 = data.len() as u64;
        if base > u64::MAX - len_u64 {
            return false;
        }
        let my_end: u64 = base + len_u64;
        let n = self.segs.len();
        let mut i: usize = 0;
        while i < n
            invariant
                n == self.segs@.len(),
                i <= n,
                self.wf(),
                *self == *old(self),
                data@.len() > 0,
                base + data@.len() <= u64::MAX,
                my_end == base + data@.len(),
                forall|j: int|
                    0 <= j < i ==> seg_disjoint(
                        &Segment { base, data: data },
                        #[trigger] &self.segs@[j],
                    ),
            decreases n - i,
        {
            let s_base = self.segs[i].base;
            let s_len: u64 = self.segs[i].data.len() as u64;
            if base < s_base + s_len && s_base < my_end {
                proof {
                    // the ranges overlap: the larger base is a shared address
                    let a: int = if base >= s_base {
                        base as int
                    } else {
                        s_base as int
                    };
                    assert(self.segs@[i as int].covers(a));
                    self.lemma_byte_at(i as int, a);
                }
                return false;
            }
            i += 1;
        }
        let ghost old_self = *self;
        let seg = Segment { base, data };
        self.segs.push(seg);
        proof {
            let n2 = self.segs@.len() as int;
            assert(self.segs@[n2 - 1].covers(base as int));
            // well-formedness of the extended list
            assert forall|i2: int, j2: int|
                0 <= i2 < j2 < n2 implies seg_disjoint(&self.segs@[i2], &self.segs@[j2]) by {
                if j2 < n2 - 1 {
                    assert(seg_disjoint(&old_self.segs@[i2], &old_self.segs@[j2]));
                } else {
                    assert(seg_disjoint(
                        &Segment { base, data: self.segs@[n2 - 1].data },
                        &old_self.segs@[i2],
                    ));
                }
            }
            assert(self.wf());
            // no address of the new range was already observed
            assert forall|a: int|
                base <= a < base + self.segs@[n2 - 1].data@.len() implies !old_self@.dom().contains(
                a,
            ) by {
                if old_self@.dom().contains(a) {
                    let k = old_self.lemma_dom_covered(a);
                    assert(seg_disjoint(
                        &Segment { base, data: self.segs@[n2 - 1].data },
                        &old_self.segs@[k],
                    ));
                }
            }
            // the new view is the old one extended by the new range
            let u = old_self@.union_prefer_right(range_map(base, self.segs@[n2 - 1].data@));
            assert forall|a: int| self@.dom().contains(a) implies u.dom().contains(a) && self@[a]
                == u[a] by {
                let k = self.lemma_dom_covered(a);
                self.lemma_byte_at(k, a);
                if k < n2 - 1 {
                    old_self.lemma_byte_at(k, a);
                    assert(seg_disjoint(&old_self.segs@[k], &self.segs@[n2 - 1]));
                    assert(!range_map(base, self.segs@[n2 - 1].data@).dom().contains(a));
                } else {
                    assert(range_map(base, self.segs@[n2 - 1].data@).dom().contains(a));
                    assert(range_map(base, self.segs@[n2 - 1].data@)[a] == self.segs@[n2
                        - 1].byte(a));
                }
            }
            assert forall|a: int| u.dom().contains(a) implies self@.dom().contains(a) by {
                if range_map(base, self.segs@[n2 - 1].data@).dom().contains(a) {
                    assert(self.segs@[n2 - 1].covers(a));
                    self.lemma_byte_at(n2 - 1, a);
                } else {
                    let k = old_self.lemma_dom_covered(a);
                    self.lemma_byte_at(k, a);
                }
            }
            assert(self@ =~= u);
            assert(self.segs@[n2 - 1].data@ == data@);
            assert(u =~= old_self@.union_prefer_right(range_map(base, data@)));
        }
        true
    }

    /// The byte observed at `a`, if any.
    fn get_byte(&self, a: u64) -> (r: Option<u8>)
        requires
            self.wf(),
        ensures
            r == if self@.dom().contains(a as int) {
                Some(self@[a as int])
            } else {
                None::<u8>
            },
    {
        let n = self.segs.len();
        let mut i: usize = 0;
        while i < n
            invariant
                n == self.segs@.len(),
                i <= n,
                self.wf(),
                forall|j: int| 0 <= j < i ==> !(#[trigger] self.segs@[j]).covers(a as int),
            decreases n - i,
        {
            let s_base = self.segs[i].base;
            let s_len = self.segs[i].data.len();
            if a >= s_base && a - s_base < s_len as u64 {
                let off = (a - s_base) as usize;
                let b = self.segs[i].data[off];
                proof {
                    self.lemma_byte_at(i as int, a as int);
                }
                return Some(b);
            }
            i += 1;
        }
        proof {
            if self@.dom().contains(a as int) {
                let k = self.lemma_dom_covered(a as int);
            }
        }
        None
    }

    /// No observed address reaches the top of the address space.
    proof fn lemma_dom_bound(&self, a: int)
        requires
            self.wf(),
            self@.dom().contains(a),
        ensures
            0 <= a < u64::MAX,
    {
        let i = self.lemma_dom_covered(a);
        assert(self.segs@[i].seg_wf());
    }

    /// Read `len` bytes at `addr`; a partial read is a failure.
    pub fn read_bytes(&self, addr: u64, len: u64) -> (r: Result<Vec<u8>, Error>)
        requires
            self.wf(),
        ensures
            match spec_read_bytes(self@, addr, len) {
                Ok(s) => r is Ok && r->Ok_0@ == s,
                Err(e) => r == Err::<Vec<u8>, Error>(e),
            },
    {
        if len > usize::MAX as u64 {
            return Err(Error::FailedRead(addr, len));
        }
        let len_us = len as usize;
        let mut v: Vec<u8> = Vec::new();
        let mut k: usize = 0;
        while k < len_us
            invariant
                self.wf(),
                k <= len_us,
                len_us == len,
                len <= usize::MAX,
                v@.len() == k,
                forall|j: int|
                    0 <= j < k ==> self@.dom().contains(#[trigger] (addr + j)) && v@[j] == self@[addr
                        + j],
            decreases len_us - k,
        {
            if addr > u64::MAX - (k as u64) {
                proof {
                    if self@.dom().contains(addr + k) {
                        self.lemma_dom_bound(addr + k);
                    }
                    assert(!spec_has_range(self@, addr as int, len as int));
                }
                return Err(Error::FailedRead(addr, len));
            }
            let a = addr + (k as u64);
            match self.get_byte(a) {
                Some(b) => {
                    v.push(b);
                },
                None => {
                    proof {
                        assert(!spec_has_range(self@, addr as int, len as int));
                    }
                    return Err(Error::FailedRead(addr, len));
                },
            }
            k += 1;
        }
        proof {
            assert(spec_has_range(self@, addr as int, len as int));
            assert(v@ =~= spec_bytes_at(self@, addr as int, len as int));
        }
        Ok(v)
    }

    /// Read `buf.len()` bytes at `addr` into `buf`; on failure `buf` is
    /// unchanged.
    pub fn read_into_buf(&self, addr: Address, buf: &mut Vec<u8>) -> (r: Result<(), Error>)
        requires
            self.wf(),
        ensures
            match spec_read_bytes(self@, addr, old(buf)@.len() as u64) {
                Ok(s) => r == Ok::<(), Error>(()) && final(buf)@ == s,
                Err(e) => r == Err::<(), Error>(e) && final(buf)@ == old(buf)@,
            },
    {
        match self.read_bytes(addr, buf.len() as u64) {
            Ok(v) => {
                *buf = v;
                Ok(())
            },
            Err(e) => Err(e),
        }
    }

    /// Read one byte at `addr`.
    pub fn read_u8(&self, addr: Address) -> (r: Result<u8, Error>)
        requires
            self.wf(),
        ensures
            r == spec_read_u8(self@, addr),
    {
        match self.get_byte(addr) {
            Some(b) => {
                proof {
                    assert(spec_has_range(self@, addr as int, 1));
                    assert(spec_bytes_at(self@, addr as int, 1)[0] == self@[addr as int]);
                }
                Ok(b)
            },
            None => {
                proof {
                    assert(!spec_has_range(self@, addr as int, 1));
                }
                Err(Error::FailedRead(addr, 1))
            },
        }
    }

    /// Read a little-endian `u32` at `addr`.
    pub fn read_u32(&self, addr: Address) -> (r: Result<u32, Error>)
        requires
            self.wf(),
        ensures
            r == spec_read_u32(self@, addr),
    {
        match self.read_bytes(addr, 4) {
            Ok(v) => Ok(vstd::bytes::u32_from_le_bytes(v.as_slice())),
            Err(e) => Err(e),
        }
    }

    /// Read a little-endian `u64` at `addr`.
    pub fn read_u64(&self, addr: Address) -> (r: Result<u64, Error>)
        requires
            self.wf(),
        ensures
            r == spec_read_u64(self@, addr),
    {
        match self.read_bytes(addr, 8) {
            Ok(v) => Ok(vstd::bytes::u64_from_le_bytes(v.as_slice())),
            Err(e) => Err(e),
        }
    }

    /// Read the NUL-terminated byte string at `addr` (at most 255 bytes).
    pub fn read_cstr(&self, addr: Address) -> (r: Result<Vec<u8>, Error>)
        requires
            self.wf(),
        ensures
            match spec_cstr(self@, addr) {
                Ok(s) => r is Ok && r->Ok_0@ == s,
                Err(e) => r == Err::<Vec<u8>, Error>(e),
            },
    {
        let mut acc: Vec<u8> = Vec::new();
        let mut a = addr;
        let mut budget: u64 = 255;
        loop
            invariant
                self.wf(),
                budget <= 255,
                spec_cstr(self@, addr) == (match spec_cstr_rec(self@, a, budget as nat) {
                    Ok(s) => Ok::<Seq<u8>, Error>(acc@ + s),
                    Err(e) => Err::<Seq<u8>, Error>(e),
                }),
            decreases budget,
        {
            match self.get_byte(a) {
                None => {
                    return Err(Error::FailedRead(a, 1));
                },
                Some(b) => {
                    proof {
                        assert(spec_read_u8(self@, a) == Ok::<u8, Error>(b));
                    }
                    if b == 0 {
                        proof {
                            assert(acc@ + Seq::<u8>::empty() =~= acc@);
                        }
                        return Ok(acc);
                    }
                    if budget == 0 {
                        return Err(Error::DecodeError);
                    }
                    let ghost acc0 = acc@;
                    acc.push(b);
                    proof {
                        let rest = spec_cstr_rec(self@, wrap_add(a, 1), (budget - 1) as nat);
                        match rest {
                            Ok(s) => {
                                assert(acc@ + s =~= acc0 + (seq![b] + s));
                            },
                            Err(_) => {},
                        }
                    }
                    a = a.wrapping_add(1);
                    budget = budget - 1;
                },
            }
        }
    }
}

} // verus!
