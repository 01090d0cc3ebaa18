//! The managed-runtime reflector: resolves classes and fields by name from
//! the Mono runtime's metadata tables, given only raw addresses and the
//! published struct offsets of one game build.
//!
//! Every operation is specified by a deterministic partial function of the
//! observed memory: the executable methods return exactly what those
//! functions denote, including which error surfaces first.

use vstd::prelude::*;
use vstd::string::*;

use crate::mem::Address;
use crate::mem::Error;
use crate::mem::Process;
use crate::mem::spec_cstr;
use crate::mem::spec_read_bytes;
use crate::mem::spec_read_u32;
use crate::mem::spec_read_u64;
use crate::mem::spec_read_u8;
use crate::mem::wrap_add;
use crate::text::bytes_eq;
use crate::text::spec_utf16_chars;
use crate::text::spec_utf16_units;
use crate::text::utf16_to_string;
use crate::text::utf16_units;

verus! {

/// Offset of the kind byte in a class descriptor.
pub const OFF_CLASS_KIND: u64 = 0x24;

/// Offset of the name pointer in a class descriptor.
pub const OFF_CLASS_NAME: u64 = 0x40;

/// Offset of the vtable size in a class descriptor.
pub const OFF_CLASS_VTABLE_SIZE: u64 = 0x54;

/// Offset of the fields-array pointer in a class descriptor.
pub const OFF_CLASS_FIELDS: u64 = 0x90;

/// Offset of the runtime-info pointer in a class descriptor.
pub const OFF_CLASS_RUNTIME_INFO: u64 = 0xc8;

/// Offset of the generic-definition pointer in a Ginst class descriptor.
pub const OFF_CLASS_GENERIC_DEF: u64 = 0xe0;

/// Offset of the field count in a class descriptor.
pub const OFF_CLASS_FIELD_COUNT: u64 = 0xf0;

/// Offset of the next-in-hash-chain pointer in a class descriptor.
pub const OFF_CLASS_NEXT: u64 = 0xf8;

/// Offset of the table size in the class cache.
pub const OFF_CACHE_SIZE: u64 = 0x18;

/// Offset of the bucket-array pointer in the class cache.
pub const OFF_CACHE_TABLE: u64 = 0x20;

/// Size of one field descriptor: `ty:u64, name:u64, parent:u64, offset:u32`
/// plus padding.
pub const FIELD_DESC_SIZE: u64 = 32;

/// Offset of the name pointer within a field descriptor.
pub const FIELD_DESC_NAME: u64 = 8;

/// Offset of the field offset within a field descriptor.
pub const FIELD_DESC_OFFSET: u64 = 24;

/// The static-field area sits `64 + 8 * vtable_size` past a vtable.
pub const VTABLE_HEADER: u64 = 64;

/// The packed `AutoSplitterInfo` payload sits this far past the managed
/// object header.
pub const ASI_PAYLOAD_OFFSET: u64 = 0x10;

/// Most hash-chain steps a lookup will follow; a guard against walking a
/// cyclic chain in corrupt memory forever.
pub const CHAIN_LIMIT: u64 = 65536;

/// Most generic-instantiation links a field lookup will unwrap.
pub const GINST_DEPTH: u64 = 32;

/// The mask that strips the GC tag bit from an instance address.
pub const TAG_MASK: u64 = 0xffff_ffff_ffff_fffe;

/// The kind of a Mono class, held in the low 3 bits of its kind byte.
/// Only `Def`, `Gtd` and `Ginst` are expected during field resolution.
#[derive(Clone, Copy, Debug, PartialEq, Eq, Structural)]
pub enum MonoKind {
    /// A non-generic type.
    Def,
    /// A generic type definition.
    Gtd,
    /// A generic instantiation.
    Ginst,
    /// A generic parameter.
    Gparam,
    /// A vector or array.
    Array,
    /// A pointer or function pointer.
    Pointer,
}

/// The kind encoded by a kind byte; the values 0 and 7 name no kind.
pub open spec fn spec_mono_kind(b: u8) -> Result<MonoKind, Error> {
    let k = b & 7;
    if k == 1 {
        Ok(MonoKind::Def)
    } else if k == 2 {
        Ok(MonoKind::Gtd)
    } else if k == 3 {
        Ok(MonoKind::Ginst)
    } else if k == 4 {
        Ok(MonoKind::Gparam)
    } else if k == 5 {
        Ok(MonoKind::Array)
    } else if k == 6 {
        Ok(MonoKind::Pointer)
    } else {
        Err(Error::ReflectionError)
    }
}

/// What resolving the kind of `class` returns.
pub open spec fn spec_class_kind(m: Map<int, u8>, class: u64) -> Result<MonoKind, Error> {
    match spec_read_u8(m, wrap_add(class, OFF_CLASS_KIND)) {
        Err(e) => Err(e),
        Ok(b) => spec_mono_kind(b),
    }
}

/// What reading the name of `class` returns: the C string its name pointer
/// points at.
pub open spec fn spec_class_name(m: Map<int, u8>, class: u64) -> Result<Seq<u8>, Error> {
    match spec_read_u64(m, wrap_add(class, OFF_CLASS_NAME)) {
        Err(e) => Err(e),
        Ok(p) => spec_cstr(m, p),
    }
}

/// The bytes of a class name decoded as characters, one per byte.
pub open spec fn latin1_chars(s: Seq<u8>) -> Seq<char> {
    Seq::new(s.len(), |i: int| s[i] as char)
}

/// What walking a hash chain from `class` looking for `name` returns:
/// the first class of that name, or `None` when the chain ends.
pub open spec fn spec_chain_find(m: Map<int, u8>, class: u64, name: Seq<u8>, fuel: nat) -> Result<
    Option<u64>,
    Error,
>
    decreases fuel,
{
    if class == 0 {
        Ok(None)
    } else if fuel == 0 {
        Err(Error::ReflectionError)
    } else {
        match spec_class_name(m, class) {
            Err(e) => Err(e),
            Ok(s) => if s == name {
                Ok(Some(class))
            } else {
                match spec_read_u64(m, wrap_add(class, OFF_CLASS_NEXT)) {
                    Err(e) => Err(e),
                    Ok(next) => spec_chain_find(m, next, name, (fuel - 1) as nat),
                }
            },
        }
    }
}

/// What scanning buckets `b..size` of the class cache for `name` returns.
pub open spec fn spec_bucket_find(
    m: Map<int, u8>,
    table: u64,
    size: u32,
    b: nat,
    name: Seq<u8>,
) -> Result<u64, Error>
    decreases size - b,
{
    if b >= size {
        Err(Error::ReflectionError)
    } else {
        match spec_read_u64(m, wrap_add(table, (8 * b) as u64)) {
            Err(e) => Err(e),
            Ok(head) => match spec_chain_find(m, head, name, CHAIN_LIMIT as nat) {
                Err(e) => Err(e),
                Ok(Some(c)) => Ok(c),
                Ok(None) => spec_bucket_find(m, table, size, b + 1, name),
            },
        }
    }
}

/// What looking `name` up in the class cache at `cache` returns: the first
/// matching class over all buckets and chains.
pub open spec fn spec_lookup_class(m: Map<int, u8>, cache: u64, name: Seq<u8>) -> Result<
    u64,
    Error,
> {
    match spec_read_u64(m, wrap_add(cache, OFF_CACHE_TABLE)) {
        Err(e) => Err(e),
        Ok(table) => match spec_read_u32(m, wrap_add(cache, OFF_CACHE_SIZE)) {
            Err(e) => Err(e),
            Ok(size) => spec_bucket_find(m, table, size, 0, name),
        },
    }
}

/// What scanning the domain vtable slots `i..=maxd` returns: the static-field
/// area of the first domain with a nonzero vtable.
pub open spec fn spec_vtable_scan(
    m: Map<int, u8>,
    rt: u64,
    vts: u32,
    maxd: u32,
    i: nat,
) -> Result<u64, Error>
    decreases maxd + 1 - i,
{
    if i > maxd {
        Err(Error::ReflectionError)
    } else {
        match spec_read_u64(m, wrap_add(rt, (8 + 8 * i) as u64)) {
            Err(e) => Err(e),
            Ok(vt) => if vt != 0 {
                spec_read_u64(m, wrap_add(vt, (VTABLE_HEADER + 8 * vts) as u64))
            } else {
                spec_vtable_scan(m, rt, vts, maxd, i + 1)
            },
        }
    }
}

/// What resolving the static-field area of `class` returns: the area hanging
/// off the vtable of the first domain the class is loaded in.
pub open spec fn spec_static_fields(m: Map<int, u8>, class: u64) -> Result<u64, Error> {
    match spec_read_u32(m, wrap_add(class, OFF_CLASS_VTABLE_SIZE)) {
        Err(e) => Err(e),
        Ok(vts) => match spec_read_u64(m, wrap_add(class, OFF_CLASS_RUNTIME_INFO)) {
            Err(e) => Err(e),
            Ok(rt) => match spec_read_u32(m, rt) {
                Err(e) => Err(e),
                Ok(maxd) => spec_vtable_scan(m, rt, vts, maxd, 0),
            },
        },
    }
}

/// What scanning the field-descriptor blob from entry `idx` on returns: the
/// offset recorded in the first descriptor whose name is `name`.
pub open spec fn spec_scan_fields(
    m: Map<int, u8>,
    blob: Seq<u8>,
    num: u32,
    name: Seq<u8>,
    idx: nat,
) -> Result<u32, Error>
    decreases num - idx,
{
    if idx >= num {
        Err(Error::ReflectionError)
    } else {
        let entry: int = 32 * (idx as int);
        match spec_cstr(
            m,
            vstd::bytes::spec_u64_from_le_bytes(blob.subrange(entry + 8, entry + 16)),
        ) {
            Err(e) => Err(e),
            Ok(s) => if s == name {
                Ok(vstd::bytes::spec_u32_from_le_bytes(blob.subrange(entry + 24, entry + 28)))
            } else {
                spec_scan_fields(m, blob, num, name, idx + 1)
            },
        }
    }
}

/// What searching the fields array of `class` for `name` returns. The whole
/// array is read as one contiguous blob, so a live host can serve it with a
/// single foreign call.
pub open spec fn spec_fields_search(m: Map<int, u8>, class: u64, name: Seq<u8>) -> Result<
    u32,
    Error,
> {
    match spec_read_u32(m, wrap_add(class, OFF_CLASS_FIELD_COUNT)) {
        Err(e) => Err(e),
        Ok(num) => match spec_read_u64(m, wrap_add(class, OFF_CLASS_FIELDS)) {
            Err(e) => Err(e),
            Ok(base) => match spec_read_bytes(m, base, (FIELD_DESC_SIZE * num) as u64) {
                Err(e) => Err(e),
                Ok(blob) => spec_scan_fields(m, blob, num, name, 0),
            },
        },
    }
}

/// What resolving the offset of field `name` on `class` returns, with `depth`
/// generic-instantiation links still allowed: a Ginst class defers to its
/// generic definition, a Def or Gtd class searches its own fields array, and
/// any other kind is a misuse.
pub open spec fn spec_field_offset(
    m: Map<int, u8>,
    class: u64,
    name: Seq<u8>,
    depth: nat,
) -> Result<u32, Error>
    decreases depth,
{
    match spec_class_kind(m, class) {
        Err(e) => Err(e),
        Ok(MonoKind::Ginst) => if depth == 0 {
            Err(Error::ReflectionError)
        } else {
            match spec_read_u64(m, wrap_add(class, OFF_CLASS_GENERIC_DEF)) {
                Err(e) => Err(e),
                Ok(p) => match spec_read_u64(m, p) {
                    Err(e) => Err(e),
                    Ok(gdef) => spec_field_offset(m, gdef, name, (depth - 1) as nat),
                },
            }
        },
        Ok(MonoKind::Def) => spec_fields_search(m, class, name),
        Ok(MonoKind::Gtd) => spec_fields_search(m, class, name),
        Ok(_) => Err(Error::ReflectionError),
    }
}

/// What resolving the offset of field `name` on `class` returns.
pub open spec fn spec_class_field_offset(m: Map<int, u8>, class: u64, name: Seq<u8>) -> Result<
    u32,
    Error,
> {
    spec_field_offset(m, class, name, GINST_DEPTH as nat)
}

/// What resolving the class of the instance at `inst` returns: the low tag
/// bit is masked off, then the class-pointer slot is followed.
pub open spec fn spec_instance_class(m: Map<int, u8>, inst: u64) -> Result<u64, Error> {
    match spec_read_u64(m, inst & TAG_MASK) {
        Err(e) => Err(e),
        Ok(p) => spec_read_u64(m, p),
    }
}

/// What reading the `u32` instance field `name` of the instance at `inst`
/// returns.
pub open spec fn spec_instance_field_u32(m: Map<int, u8>, inst: u64, name: Seq<u8>) -> Result<
    u32,
    Error,
> {
    match spec_instance_class(m, inst) {
        Err(e) => Err(e),
        Ok(cls) => match spec_class_field_offset(m, cls, name) {
            Err(e) => Err(e),
            Ok(off) => spec_read_u32(m, wrap_add(inst, off as u64)),
        },
    }
}

/// What reading the `u64` instance field `name` of the instance at `inst`
/// returns.
pub open spec fn spec_instance_field_u64(m: Map<int, u8>, inst: u64, name: Seq<u8>) -> Result<
    u64,
    Error,
> {
    match spec_instance_class(m, inst) {
        Err(e) => Err(e),
        Ok(cls) => match spec_class_field_offset(m, cls, name) {
            Err(e) => Err(e),
            Ok(off) => spec_read_u64(m, wrap_add(inst, off as u64)),
        },
    }
}

/// What reading the `u64` static field `name` of `class` returns.
pub open spec fn spec_static_field_u64(m: Map<int, u8>, class: u64, name: Seq<u8>) -> Result<
    u64,
    Error,
> {
    match spec_static_fields(m, class) {
        Err(e) => Err(e),
        Ok(base) => match spec_class_field_offset(m, class, name) {
            Err(e) => Err(e),
            Ok(off) => spec_read_u64(m, wrap_add(base, off as u64)),
        },
    }
}

/// What locating the packed `AutoSplitterInfo` payload returns: the managed
/// object the field points at, past its 16-byte object header.
pub open spec fn spec_locate_splitter_info(m: Map<int, u8>, inst: u64) -> Result<u64, Error> {
    match spec_instance_field_u64(m, inst, "AutoSplitterInfo".spec_bytes()) {
        Err(e) => Err(e),
        Ok(p) => Ok(wrap_add(p, ASI_PAYLOAD_OFFSET)),
    }
}

/// What reading the UTF-16 code units of the boxed string at `inst` returns:
/// `m_stringLength` code units starting at the `m_firstChar` field.
pub open spec fn spec_boxed_units(m: Map<int, u8>, inst: u64) -> Result<Seq<u16>, Error> {
    match spec_instance_class(m, inst) {
        Err(e) => Err(e),
        Ok(cls) => match spec_class_field_offset(m, cls, "m_firstChar".spec_bytes()) {
            Err(e) => Err(e),
            Ok(doff) => match spec_class_field_offset(m, cls, "m_stringLength".spec_bytes()) {
                Err(e) => Err(e),
                Ok(soff) => match spec_read_u32(m, wrap_add(inst, soff as u64)) {
                    Err(e) => Err(e),
                    Ok(size) => match spec_read_bytes(
                        m,
                        wrap_add(inst, doff as u64),
                        (2 * size) as u64,
                    ) {
                        Err(e) => Err(e),
                        Ok(bytes) => Ok(spec_utf16_units(bytes)),
                    },
                },
            },
        },
    }
}

/// Map a kind byte to the kind it encodes.
fn mono_kind_of(b: u8) -> (r: Result<MonoKind, Error>)
    ensures
        r == spec_mono_kind(b),
{
    let k = b & 7;
    if k == 1 {
        Ok(MonoKind::Def)
    } else if k == 2 {
        Ok(MonoKind::Gtd)
    } else if k == 3 {
        Ok(MonoKind::Ginst)
    } else if k == 4 {
        Ok(MonoKind::Gparam)
    } else if k == 5 {
        Ok(MonoKind::Array)
    } else if k == 6 {
        Ok(MonoKind::Pointer)
    } else {
        Err(Error::ReflectionError)
    }
}

/// Name-indexed access to the Mono metadata of the observed process.
pub trait CelesteProcess {
    /// The observed memory the reflector walks.
    spec fn memory(&self) -> Map<int, u8>;

    /// The observed memory is well-formed.
    spec fn memory_wf(&self) -> bool;

    /// Look `name` up in the class cache at `cache`.
    fn lookup_class(&self, cache: Address, name: &str) -> (r: Result<u64, Error>)
        requires
            self.memory_wf(),
        ensures
            r == spec_lookup_class(self.memory(), cache, name.spec_bytes()),
    ;

    /// The kind of `class`.
    fn class_kind(&self, class: u64) -> (r: Result<MonoKind, Error>)
        requires
            self.memory_wf(),
        ensures
            r == spec_class_kind(self.memory(), class),
    ;

    /// The name of `class`, one character per byte.
    fn class_name(&self, class: u64) -> (r: Result<String, Error>)
        requires
            self.memory_wf(),
        ensures
            match spec_class_name(self.memory(), class) {
                Ok(s) => r is Ok && r->Ok_0@ == latin1_chars(s),
                Err(e) => r == Err::<String, Error>(e),
            },
    ;

    /// The static-field area of `class` in the first domain it is loaded in.
    fn class_static_fields(&self, class: u64) -> (r: Result<u64, Error>)
        requires
            self.memory_wf(),
        ensures
            r == spec_static_fields(self.memory(), class),
    ;

    /// The offset of field `name` on `class`.
    fn class_field_offset(&self, class: u64, name: &str) -> (r: Result<u32, Error>)
        requires
            self.memory_wf(),
        ensures
            r == spec_class_field_offset(self.memory(), class, name.spec_bytes()),
    ;

    /// The class of the instance at `instance`.
    fn instance_class(&self, instance: u64) -> (r: Result<u64, Error>)
        requires
            self.memory_wf(),
        ensures
            r == spec_instance_class(self.memory(), instance),
    ;

    /// The `u32` instance field `name` of the instance at `instance`.
    fn instance_field_u32(&self, instance: u64, name: &str) -> (r: Result<u32, Error>)
        requires
            self.memory_wf(),
        ensures
            r == spec_instance_field_u32(self.memory(), instance, name.spec_bytes()),
    ;

    /// The `u64` instance field `name` of the instance at `instance`.
    fn instance_field_u64(&self, instance: u64, name: &str) -> (r: Result<u64, Error>)
        requires
            self.memory_wf(),
        ensures
            r == spec_instance_field_u64(self.memory(), instance, name.spec_bytes()),
    ;

    /// The `u64` static field `name` of `class`.
    fn static_field_u64(&self, class: u64, name: &str) -> (r: Result<u64, Error>)
        requires
            self.memory_wf(),
        ensures
            r == spec_static_field_u64(self.memory(), class, name.spec_bytes()),
    ;

    /// The address of the packed `AutoSplitterInfo` payload.
    fn locate_splitter_info(&self, instance: u64) -> (r: Result<u64, Error>)
        requires
            self.memory_wf(),
        ensures
            r == spec_locate_splitter_info(self.memory(), instance),
    ;

    /// The UTF-16 code units of the boxed string at `instance`.
    fn read_boxed_units(&self, instance: u64) -> (r: Result<Vec<u16>, Error>)
        requires
            self.memory_wf(),
        ensures
            match spec_boxed_units(self.memory(), instance) {
                Ok(s) => r is Ok && r->Ok_0@ == s,
                Err(e) => r == Err::<Vec<u16>, Error>(e),
            },
    ;

    /// The boxed string at `instance`, decoded from UTF-16 with unpaired
    /// surrogates replaced.
    fn read_boxed_string(&self, instance: u64) -> (r: Result<String, Error>)
        requires
            self.memory_wf(),
        ensures
            match spec_boxed_units(self.memory(), instance) {
                Ok(s) => r is Ok && r->Ok_0@ == spec_utf16_chars(s),
                Err(e) => r == Err::<String, Error>(e),
            },
    ;
}

impl Process {
    /// The raw bytes of the name of `class`.
    fn name_bytes_of(&self, class: u64) -> (r: Result<Vec<u8>, Error>)
        requires
            self.wf(),
        ensures
            match spec_class_name(self@, class) {
                Ok(s) => r is Ok && r->Ok_0@ == s,
                Err(e) => r == Err::<Vec<u8>, Error>(e),
            },
    {
        match self.read_u64(class.wrapping_add(OFF_CLASS_NAME)) {
            Err(e) => Err(e),
            Ok(p) => self.read_cstr(p),
        }
    }

    /// Search the fields array of `class` for `name_bytes`.
    fn fields_search(&self, class: u64, name_bytes: &[u8]) -> (r: Result<u32, Error>)
        requires
            self.wf(),
        ensures
            r == spec_fields_search(self@, class, name_bytes@),
    {
        let ghost m = self@;
        let ghost nm = name_bytes@;
        let num = match self.read_u32(class.wrapping_add(OFF_CLASS_FIELD_COUNT)) {
            Ok(v) => v,
            Err(e) => return Err(e),
        };
        let base = match self.read_u64(class.wrapping_add(OFF_CLASS_FIELDS)) {
            Ok(v) => v,
            Err(e) => return Err(e),
        };
        let blob = match self.read_bytes(base, FIELD_DESC_SIZE * (num as u64)) {
            Ok(v) => v,
            Err(e) => return Err(e),
        };
        let blob_len = blob.len();
        let mut idx: u32 = 0;
        while idx < num
            invariant
                self.wf(),
                m == self@,
                nm == name_bytes@,
                idx <= num,
                blob_len == blob@.len(),
                blob@.len() == FIELD_DESC_SIZE * num,
                spec_fields_search(m, class, nm) == spec_scan_fields(
                    m,
                    blob@,
                    num,
                    nm,
                    idx as nat,
                ),
            decreases num - idx,
        {
            let entry = (idx as usize) * 32;
            let ptr_slice = vstd::slice::slice_subrange(blob.as_slice(), entry + 8, entry + 16);
            let name_ptr = vstd::bytes::u64_from_le_bytes(ptr_slice);
            match self.read_cstr(name_ptr) {
                Err(e) => return Err(e),
                Ok(s) => {
                    if bytes_eq(s.as_slice(), name_bytes) {
                        let off_slice = vstd::slice::slice_subrange(
                            blob.as_slice(),
                            entry + 24,
                            entry + 28,
                        );
                        return Ok(vstd::bytes::u32_from_le_bytes(off_slice));
                    }
                },
            }
            idx += 1;
        }
        Err(Error::ReflectionError)
    }
}

impl CelesteProcess for Process {
    open spec fn memory(&self) -> Map<int, u8> {
        self@
    }

    open spec fn memory_wf(&self) -> bool {
        self.wf()
    }

    fn lookup_class(&self, cache: Address, name: &str) -> (r: Result<u64, Error>) {
        let ghost m = self@;
        let ghost nm = name.spec_bytes();
        let name_bytes = name.as_bytes();
        let table = match self.read_u64(cache.wrapping_add(OFF_CACHE_TABLE)) {
            Ok(v) => v,
            Err(e) => return Err(e),
        };
        let size = match self.read_u32(cache.wrapping_add(OFF_CACHE_SIZE)) {
            Ok(v) => v,
            Err(e) => return Err(e),
        };
        let mut b: u32 = 0;
        while b < size
            invariant
                self.wf(),
                m == self@,
                nm == name_bytes@,
                nm == name.spec_bytes(),
                b <= size,
                spec_lookup_class(m, cache, nm) == spec_bucket_find(m, table, size, b as nat, nm),
            decreases size - b,
        {
            let head = match self.read_u64(table.wrapping_add(8 * (b as u64))) {
                Ok(v) => v,
                Err(e) => return Err(e),
            };
            let mut class = head;
            let mut fuel: u64 = CHAIN_LIMIT;
            while class != 0 && fuel > 0
                invariant
                    self.wf(),
                    m == self@,
                    nm == name_bytes@,
                    nm == name.spec_bytes(),
                    fuel <= CHAIN_LIMIT,
                    b < size,
                    spec_lookup_class(m, cache, nm) == spec_bucket_find(
                        m,
                        table,
                        size,
                        b as nat,
                        nm,
                    ),
                    spec_read_u64(m, wrap_add(table, ((8 * (b as nat)) as u64))) == Ok::<
                        u64,
                        Error,
                    >(head),
                    spec_chain_find(m, head, nm, CHAIN_LIMIT as nat) == spec_chain_find(
                        m,
                        class,
                        nm,
                        fuel as nat,
                    ),
                decreases fuel,
            {
                match self.name_bytes_of(class) {
                    Err(e) => return Err(e),
                    Ok(s) => {
                        if bytes_eq(s.as_slice(), name_bytes) {
                            return Ok(class);
                        }
                        match self.read_u64(class.wrapping_add(OFF_CLASS_NEXT)) {
                            Err(e) => return Err(e),
                            Ok(next) => {
                                class = next;
                                fuel = fuel - 1;
                            },
                        }
                    },
                }
            }
            if class != 0 {
                return Err(Error::ReflectionError);
            }
            b += 1;
        }
        Err(Error::ReflectionError)
    }

    fn class_kind(&self, class: u64) -> (r: Result<MonoKind, Error>) {
        match self.read_u8(class.wrapping_add(OFF_CLASS_KIND)) {
            Err(e) => Err(e),
            Ok(b) => mono_kind_of(b),
        }
    }

    fn class_name(&self, class: u64) -> (r: Result<String, Error>) {
        match self.name_bytes_of(class) {
            Err(e) => Err(e),
            Ok(s) => {
                let n = s.len();
                let mut out = String::new();
                let mut i: usize = 0;
                while i < n
                    invariant
                        n == s@.len(),
                        i <= n,
                        out@ =~= latin1_chars(s@).take(i as int),
                    decreases n - i,
                {
                    let c = s[i] as char;
                    out.push(c);
                    proof {
                        assert(out@ =~= latin1_chars(s@).take(i + 1));
                    }
                    i += 1;
                }
                proof {
                    assert(out@ =~= latin1_chars(s@));
                }
                Ok(out)
            },
        }
    }

    fn class_static_fields(&self, class: u64) -> (r: Result<u64, Error>) {
        let ghost m = self@;
        let vts = match self.read_u32(class.wrapping_add(OFF_CLASS_VTABLE_SIZE)) {
            Ok(v) => v,
            Err(e) => return Err(e),
        };
        let rt = match self.read_u64(class.wrapping_add(OFF_CLASS_RUNTIME_INFO)) {
            Ok(v) => v,
            Err(e) => return Err(e),
        };
        let maxd = match self.read_u32(rt) {
            Ok(v) => v,
            Err(e) => return Err(e),
        };
        let mut i: u64 = 0;
        loop
            invariant
                self.wf(),
                m == self@,
                i <= maxd + 1,
                spec_static_fields(m, class) == spec_vtable_scan(m, rt, vts, maxd, i as nat),
            decreases maxd + 1 - i,
        {
            if i > maxd as u64 {
                return Err(Error::ReflectionError);
            }
            let slot = rt.wrapping_add(8 + 8 * i);
            match self.read_u64(slot) {
                Err(e) => return Err(e),
                Ok(vt) => {
                    if vt != 0 {
                        return self.read_u64(vt.wrapping_add(VTABLE_HEADER + 8 * (vts as u64)));
                    }
                },
            }
            i += 1;
        }
    }

    fn class_field_offset(&self, class: u64, name: &str) -> (r: Result<u32, Error>) {
        let ghost m = self@;
        let ghost nm = name.spec_bytes();
        let name_bytes = name.as_bytes();
        let mut cls = class;
        let mut depth: u64 = GINST_DEPTH;
        loop
            invariant
                self.wf(),
                m == self@,
                nm == name_bytes@,
                nm == name.spec_bytes(),
                depth <= GINST_DEPTH,
                spec_class_field_offset(m, class, nm) == spec_field_offset(
                    m,
                    cls,
                    nm,
                    depth as nat,
                ),
            decreases depth,
        {
            let kind = match self.class_kind(cls) {
                Ok(k) => k,
                Err(e) => return Err(e),
            };
            match kind {
                MonoKind::Ginst => {
                    if depth == 0 {
                        return Err(Error::ReflectionError);
                    }
                    let p = match self.read_u64(cls.wrapping_add(OFF_CLASS_GENERIC_DEF)) {
                        Ok(v) => v,
                        Err(e) => return Err(e),
                    };
                    let gdef = match self.read_u64(p) {
                        Ok(v) => v,
                        Err(e) => return Err(e),
                    };
                    cls = gdef;
                    depth = depth - 1;
                },
                MonoKind::Def => {
                    return self.fields_search(cls, name_bytes);
                },
                MonoKind::Gtd => {
                    return self.fields_search(cls, name_bytes);
                },
                _ => {
                    return Err(Error::ReflectionError);
                },
            }
        }
    }

    fn instance_class(&self, instance: u64) -> (r: Result<u64, Error>) {
        match self.read_u64(instance & TAG_MASK) {
            Err(e) => Err(e),
            Ok(p) => self.read_u64(p),
        }
    }

    fn instance_field_u32(&self, instance: u64, name: &str) -> (r: Result<u32, Error>) {
        match self.instance_class(instance) {
            Err(e) => Err(e),
            Ok(cls) => match self.class_field_offset(cls, name) {
                Err(e) => Err(e),
                Ok(off) => self.read_u32(instance.wrapping_add(off as u64)),
            },
        }
    }

    fn instance_field_u64(&self, instance: u64, name: &str) -> (r: Result<u64, Error>) {
        match self.instance_class(instance) {
            Err(e) => Err(e),
            Ok(cls) => match self.class_field_offset(cls, name) {
                Err(e) => Err(e),
                Ok(off) => self.read_u64(instance.wrapping_add(off as u64)),
            },
        }
    }

    fn static_field_u64(&self, class: u64, name: &str) -> (r: Result<u64, Error>) {
        match self.class_static_fields(class) {
            Err(e) => Err(e),
            Ok(base) => match self.class_field_offset(class, name) {
                Err(e) => Err(e),
                Ok(off) => self.read_u64(base.wrapping_add(off as u64)),
            },
        }
    }

    fn locate_splitter_info(&self, instance: u64) -> (r: Result<u64, Error>) {
        match self.instance_field_u64(instance, "AutoSplitterInfo") {
            Err(e) => Err(e),
            Ok(p) => Ok(p.wrapping_add(ASI_PAYLOAD_OFFSET)),
        }
    }

    fn read_boxed_units(&self, instance: u64) -> (r: Result<Vec<u16>, Error>) {
        let cls = match self.instance_class(instance) {
            Ok(v) => v,
            Err(e) => return Err(e),
        };
        let doff = match self.class_field_offset(cls, "m_firstChar") {
            Ok(v) => v,
            Err(e) => return Err(e),
        };
        let soff = match self.class_field_offset(cls, "m_stringLength") {
            Ok(v) => v,
            Err(e) => return Err(e),
        };
        let size = match self.read_u32(instance.wrapping_add(soff as u64)) {
            Ok(v) => v,
            Err(e) => return Err(e),
        };
        let bytes = match self.read_bytes(instance.wrapping_add(doff as u64), 2 * (size as u64)) {
            Ok(v) => v,
            Err(e) => return Err(e),
        };
        Ok(utf16_units(&bytes))
    }

    fn read_boxed_string(&self, instance: u64) -> (r: Result<String, Error>) {
        match self.read_boxed_units(instance) {
            Err(e) => Err(e),
            Ok(units) => Ok(utf16_to_string(&units)),
        }
    }
}

/// Law: the low tag bit of an instance address does not affect class
/// resolution: resolving the class of `a` and of `a | 1` reads the same
/// class-pointer slot and returns the same result.
pub proof fn lemma_instance_class_tag_masking(m: Map<int, u8>, a: u64)
    ensures
        spec_instance_class(m, a) == spec_instance_class(m, a | 1),
{
    assert((a & 0xffff_ffff_ffff_fffeu64) == ((a | 1) & 0xffff_ffff_ffff_fffeu64))
        by (bit_vector);
}

/// The vtable scan returns the area of the first nonzero slot at or past `k`
/// when every slot from `k` up to `i` reads as zero.
proof fn lemma_vtable_scan_skips(
    m: Map<int, u8>,
    rt: u64,
    vts: u32,
    maxd: u32,
    k: nat,
    i: nat,
    vt: u64,
)
    requires
        k <= i <= maxd,
        forall|j: nat|
            k <= j < i ==> #[trigger] spec_read_u64(m, wrap_add(rt, ((8 + 8 * j) as u64))) == Ok::<
                u64,
                Error,
            >(0u64),
        spec_read_u64(m, wrap_add(rt, ((8 + 8 * i) as u64))) == Ok::<u64, Error>(vt),
        vt != 0,
    ensures
        spec_vtable_scan(m, rt, vts, maxd, k) == spec_read_u64(
            m,
            wrap_add(vt, ((VTABLE_HEADER + 8 * vts) as u64)),
        ),
    decreases i - k,
{
    if k == i {
    } else {
        assert(spec_read_u64(m, wrap_add(rt, ((8 + 8 * k) as u64))) == Ok::<u64, Error>(0u64));
        lemma_vtable_scan_skips(m, rt, vts, maxd, k + 1, i, vt);
    }
}

/// Law: the static-field base of a class is the static-field area hanging
/// off the vtable of the first domain the class is loaded in: if the slots
/// before `i` are zero and slot `i` holds the nonzero vtable `vt`, resolution
/// reads the area at `vt + 64 + 8 * vtable_size`.
pub proof fn lemma_static_fields_first_domain(
    m: Map<int, u8>,
    class: u64,
    vts: u32,
    rt: u64,
    maxd: u32,
    i: nat,
    vt: u64,
)
    requires
        spec_read_u32(m, wrap_add(class, OFF_CLASS_VTABLE_SIZE)) == Ok::<u32, Error>(vts),
        spec_read_u64(m, wrap_add(class, OFF_CLASS_RUNTIME_INFO)) == Ok::<u64, Error>(rt),
        spec_read_u32(m, rt) == Ok::<u32, Error>(maxd),
        i <= maxd,
        forall|j: nat|
            j < i ==> #[trigger] spec_read_u64(m, wrap_add(rt, ((8 + 8 * j) as u64))) == Ok::<
                u64,
                Error,
            >(0u64),
        spec_read_u64(m, wrap_add(rt, ((8 + 8 * i) as u64))) == Ok::<u64, Error>(vt),
        vt != 0,
    ensures
        spec_static_fields(m, class) == spec_read_u64(
            m,
            wrap_add(vt, ((VTABLE_HEADER + 8 * vts) as u64)),
        ),
{
    lemma_vtable_scan_skips(m, rt, vts, maxd, 0, i, vt);
}

/// Law: a generic instantiation resolves field offsets through its generic
/// definition: when `g` is a Ginst class whose definition pointer leads to
/// `d`, and `d` is itself a plain definition, the two classes give every
/// field name the same offset.
pub proof fn lemma_ginst_defers_to_definition(
    m: Map<int, u8>,
    g: u64,
    d: u64,
    p: u64,
    name: Seq<u8>,
)
    requires
        spec_class_kind(m, g) == Ok::<MonoKind, Error>(MonoKind::Ginst),
        spec_read_u64(m, wrap_add(g, OFF_CLASS_GENERIC_DEF)) == Ok::<u64, Error>(p),
        spec_read_u64(m, p) == Ok::<u64, Error>(d),
        spec_class_kind(m, d) == Ok::<MonoKind, Error>(MonoKind::Gtd) || spec_class_kind(m, d)
            == Ok::<MonoKind, Error>(MonoKind::Def),
    ensures
        spec_class_field_offset(m, g, name) == spec_class_field_offset(m, d, name),
{
    assert(spec_field_offset(m, g, name, GINST_DEPTH as nat) == spec_field_offset(
        m,
        d,
        name,
        (GINST_DEPTH - 1) as nat,
    ));
    assert(spec_field_offset(m, d, name, (GINST_DEPTH - 1) as nat) == spec_fields_search(
        m,
        d,
        name,
    ));
    assert(spec_field_offset(m, d, name, GINST_DEPTH as nat) == spec_fields_search(m, d, name));
}

/// Law: reading a boxed managed string of length `len` round-trips: the
/// returned code units are exactly the `len` UTF-16 code units stored at the
/// string's `m_firstChar` field.
pub proof fn lemma_boxed_string_round_trip(
    m: Map<int, u8>,
    inst: u64,
    cls: u64,
    doff: u32,
    soff: u32,
    len: u32,
)
    requires
        spec_instance_class(m, inst) == Ok::<u64, Error>(cls),
        spec_class_field_offset(m, cls, "m_firstChar".spec_bytes()) == Ok::<u32, Error>(doff),
        spec_class_field_offset(m, cls, "m_stringLength".spec_bytes()) == Ok::<u32, Error>(soff),
        spec_read_u32(m, wrap_add(inst, soff as u64)) == Ok::<u32, Error>(len),
        spec_read_bytes(m, wrap_add(inst, doff as u64), (2 * len) as u64) is Ok,
    ensures
        spec_boxed_units(m, inst) is Ok,
        spec_boxed_units(m, inst)->Ok_0.len() == len,
        forall|i: int|
            0 <= i < len ==> spec_boxed_units(m, inst)->Ok_0[i]
                == vstd::bytes::spec_u16_from_le_bytes(
                seq![
                    m[wrap_add(inst, doff as u64) + 2 * i],
                    m[wrap_add(inst, doff as u64) + 2 * i + 1],
                ],
            ),
{
    let base = wrap_add(inst, doff as u64);
    let bytes = spec_read_bytes(m, base, (2 * len) as u64)->Ok_0;
    assert(spec_boxed_units(m, inst) == Ok::<Seq<u16>, Error>(spec_utf16_units(bytes)));
    assert forall|i: int| 0 <= i < len implies spec_boxed_units(m, inst)->Ok_0[i]
        == vstd::bytes::spec_u16_from_le_bytes(
        seq![m[base + 2 * i], m[base + 2 * i + 1]],
    ) by {
        assert(bytes[2 * i] == m[base + 2 * i]);
        assert(bytes[2 * i + 1] == m[base + 2 * i + 1]);
        assert(seq![bytes[2 * i], bytes[2 * i + 1]] =~= seq![
            m[base + 2 * i],
            m[base + 2 * i + 1],
        ]);
    }
}

} // verus!
