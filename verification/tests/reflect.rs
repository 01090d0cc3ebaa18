//! Tests of the managed-runtime reflector against a hand-built image of the
//! Mono metadata tables.

use auto_splitter::CelesteProcess;
use auto_splitter::Error;
use auto_splitter::MonoKind;
use auto_splitter::Process;

fn put_u8(v: &mut Vec<u8>, off: usize, val: u8) {
    v[off] = val;
}

fn put_u32(v: &mut Vec<u8>, off: usize, val: u32) {
    v[off..off + 4].copy_from_slice(&val.to_le_bytes());
}

fn put_u64(v: &mut Vec<u8>, off: usize, val: u64) {
    v[off..off + 8].copy_from_slice(&val.to_le_bytes());
}

fn cstr(s: &str) -> Vec<u8> {
    let mut v = s.as_bytes().to_vec();
    v.push(0);
    v
}

const KIND_DEF: u8 = 1;
const KIND_GINST: u8 = 3;
const KIND_ARRAY: u8 = 5;

/// A class descriptor blob with the offsets the reflector reads.
fn class_blob(kind: u8, name_ptr: u64, vtable_size: u32, fields: u64, rtinfo: u64, nfields: u32, next: u64) -> Vec<u8> {
    let mut v = vec![0u8; 0x100];
    put_u8(&mut v, 0x24, kind);
    put_u64(&mut v, 0x40, name_ptr);
    put_u32(&mut v, 0x54, vtable_size);
    put_u64(&mut v, 0x90, fields);
    put_u64(&mut v, 0xc8, rtinfo);
    put_u32(&mut v, 0xf0, nfields);
    put_u64(&mut v, 0xf8, next);
    v
}

/// A fields array: each entry is (name pointer, offset).
fn fields_blob(entries: &[(u64, u32)]) -> Vec<u8> {
    let mut v = vec![0u8; 32 * entries.len()];
    for (i, (name, off)) in entries.iter().enumerate() {
        put_u64(&mut v, 32 * i + 8, *name);
        put_u32(&mut v, 32 * i + 24, *off);
    }
    v
}

const NAME_ALPHA: u64 = 0x6000;
const NAME_SAVEDATA: u64 = 0x6010;
const NAME_INSTANCE: u64 = 0x6020;
const NAME_TOTALDEATHS: u64 = 0x6030;
const NAME_STRING: u64 = 0x6040;
const NAME_MFIRSTCHAR: u64 = 0x6050;
const NAME_MSTRINGLENGTH: u64 = 0x6060;

const CLS_ALPHA: u64 = 0x1000;
const CLS_SAVEDATA: u64 = 0x2000;
const CLS_STRING: u64 = 0xA000;
const CLS_GINST: u64 = 0xB000;

const CACHE: u64 = 0x100;
const TABLE: u64 = 0x200;
const RTINFO: u64 = 0x3000;
const VTABLE: u64 = 0x4000;
const STATIC_AREA: u64 = 0x5000;
const FLD_SAVEDATA: u64 = 0x7000;
const FLD_STRING: u64 = 0x7800;
const OBJ: u64 = 0x8000;
const OBJ_VTBL: u64 = 0x8100;
const STR_OBJ: u64 = 0x9000;
const STR_VTBL: u64 = 0x9100;
const GINST_INDIR: u64 = 0xB100;

/// Build a little Mono world: a two-bucket class cache whose second bucket
/// chains Alpha -> SaveData; SaveData has two fields, one domain vtable and
/// a static area; a boxed string object; and a generic instantiation that
/// defers to SaveData.
fn build_world() -> Process {
    let mut p = Process::new();
    // class cache header
    let mut cache = vec![0u8; 0x40];
    put_u32(&mut cache, 0x18, 2);
    put_u64(&mut cache, 0x20, TABLE);
    assert!(p.add_segment(CACHE, cache));
    // bucket array: bucket 0 empty, bucket 1 heads the chain
    let mut table = vec![0u8; 16];
    put_u64(&mut table, 0, 0);
    put_u64(&mut table, 8, CLS_ALPHA);
    assert!(p.add_segment(TABLE, table));
    // names
    assert!(p.add_segment(NAME_ALPHA, cstr("Alpha")));
    assert!(p.add_segment(NAME_SAVEDATA, cstr("SaveData")));
    assert!(p.add_segment(NAME_INSTANCE, cstr("Instance")));
    assert!(p.add_segment(NAME_TOTALDEATHS, cstr("TotalDeaths")));
    assert!(p.add_segment(NAME_STRING, cstr("String")));
    assert!(p.add_segment(NAME_MFIRSTCHAR, cstr("m_firstChar")));
    assert!(p.add_segment(NAME_MSTRINGLENGTH, cstr("m_stringLength")));
    // classes
    assert!(p.add_segment(
        CLS_ALPHA,
        class_blob(KIND_DEF, NAME_ALPHA, 0, 0, 0, 0, CLS_SAVEDATA)
    ));
    assert!(p.add_segment(
        CLS_SAVEDATA,
        class_blob(KIND_DEF, NAME_SAVEDATA, 3, FLD_SAVEDATA, RTINFO, 2, 0)
    ));
    assert!(p.add_segment(
        CLS_STRING,
        class_blob(KIND_DEF, NAME_STRING, 0, FLD_STRING, 0, 2, 0)
    ));
    // the Ginst defers to SaveData through a double indirection
    let mut ginst = class_blob(KIND_GINST, 0, 0, 0, 0, 0, 0);
    put_u64(&mut ginst, 0xe0, GINST_INDIR);
    assert!(p.add_segment(CLS_GINST, ginst));
    let mut indir = vec![0u8; 8];
    put_u64(&mut indir, 0, CLS_SAVEDATA);
    assert!(p.add_segment(GINST_INDIR, indir));
    // fields
    assert!(p.add_segment(
        FLD_SAVEDATA,
        fields_blob(&[(NAME_INSTANCE, 8), (NAME_TOTALDEATHS, 16)])
    ));
    assert!(p.add_segment(
        FLD_STRING,
        fields_blob(&[(NAME_MSTRINGLENGTH, 0x10), (NAME_MFIRSTCHAR, 0x14)])
    ));
    // runtime info: two domain slots, the first empty
    let mut rt = vec![0u8; 24];
    put_u32(&mut rt, 0, 1);
    put_u64(&mut rt, 8, 0);
    put_u64(&mut rt, 16, VTABLE);
    assert!(p.add_segment(RTINFO, rt));
    // vtable: the static-field area pointer sits at 64 + 8 * vtable_size
    let mut vt = vec![0u8; 0x80];
    put_u64(&mut vt, 64 + 8 * 3, STATIC_AREA);
    assert!(p.add_segment(VTABLE, vt));
    // static area: the Instance static field (offset 8) holds the object
    let mut st = vec![0u8; 0x20];
    put_u64(&mut st, 8, OBJ);
    assert!(p.add_segment(STATIC_AREA, st));
    // a SaveData object: object -> vtable slot -> class
    let mut obj = vec![0u8; 0x40];
    put_u64(&mut obj, 0, OBJ_VTBL);
    put_u32(&mut obj, 16, 1234);
    assert!(p.add_segment(OBJ, obj));
    let mut ovt = vec![0u8; 8];
    put_u64(&mut ovt, 0, CLS_SAVEDATA);
    assert!(p.add_segment(OBJ_VTBL, ovt));
    // a boxed string "Zip": length at 0x10, UTF-16 code units at 0x14
    let mut sobj = vec![0u8; 0x40];
    put_u64(&mut sobj, 0, STR_VTBL);
    put_u32(&mut sobj, 0x10, 3);
    sobj[0x14..0x1A].copy_from_slice(&[0x5A, 0x00, 0x69, 0x00, 0x70, 0x00]);
    assert!(p.add_segment(STR_OBJ, sobj));
    let mut svt = vec![0u8; 8];
    put_u64(&mut svt, 0, CLS_STRING);
    assert!(p.add_segment(STR_VTBL, svt));
    p
}

#[test]
fn lookup_class_walks_buckets_and_chains() {
    let p = build_world();
    assert_eq!(p.lookup_class(CACHE, "Alpha"), Ok(CLS_ALPHA));
    assert_eq!(p.lookup_class(CACHE, "SaveData"), Ok(CLS_SAVEDATA));
    assert_eq!(p.lookup_class(CACHE, "Missing"), Err(Error::ReflectionError));
}

#[test]
fn class_kind_and_name() {
    let p = build_world();
    assert_eq!(p.class_kind(CLS_ALPHA), Ok(MonoKind::Def));
    assert_eq!(p.class_kind(CLS_GINST), Ok(MonoKind::Ginst));
    assert_eq!(p.class_name(CLS_SAVEDATA), Ok("SaveData".to_string()));
}

#[test]
fn class_static_fields_takes_first_loaded_domain() {
    let p = build_world();
    // domain 0 has no vtable; domain 1 does, and its static area follows
    // the vtable entries
    assert_eq!(p.class_static_fields(CLS_SAVEDATA), Ok(STATIC_AREA));
}

#[test]
fn field_offsets_and_static_field() {
    let p = build_world();
    assert_eq!(p.class_field_offset(CLS_SAVEDATA, "Instance"), Ok(8));
    assert_eq!(p.class_field_offset(CLS_SAVEDATA, "TotalDeaths"), Ok(16));
    assert_eq!(
        p.class_field_offset(CLS_SAVEDATA, "Nope"),
        Err(Error::ReflectionError)
    );
    assert_eq!(p.static_field_u64(CLS_SAVEDATA, "Instance"), Ok(OBJ));
    assert_eq!(p.instance_field_u32(OBJ, "TotalDeaths"), Ok(1234));
}

#[test]
fn ginst_field_offset_equals_definition() {
    let p = build_world();
    // a generic instantiation resolves fields through its definition
    assert_eq!(
        p.class_field_offset(CLS_GINST, "Instance"),
        p.class_field_offset(CLS_SAVEDATA, "Instance")
    );
    assert_eq!(
        p.class_field_offset(CLS_GINST, "TotalDeaths"),
        p.class_field_offset(CLS_SAVEDATA, "TotalDeaths")
    );
}

#[test]
fn field_lookup_rejects_unexpected_kinds() {
    let mut p = build_world();
    let arr = class_blob(KIND_ARRAY, NAME_ALPHA, 0, 0, 0, 0, 0);
    assert!(p.add_segment(0xC000, arr));
    assert_eq!(
        p.class_field_offset(0xC000, "Instance"),
        Err(Error::ReflectionError)
    );
}

#[test]
fn instance_class_masks_the_tag_bit() {
    let p = build_world();
    assert_eq!(p.instance_class(OBJ), Ok(CLS_SAVEDATA));
    // the GC tag bit changes nothing
    assert_eq!(p.instance_class(OBJ | 1), p.instance_class(OBJ));
}

#[test]
fn boxed_string_round_trip() {
    let p = build_world();
    // the decoded code units are exactly the ones in memory
    assert_eq!(p.read_boxed_units(STR_OBJ), Ok(vec![0x5A, 0x69, 0x70]));
    assert_eq!(p.read_boxed_string(STR_OBJ), Ok("Zip".to_string()));
}

#[test]
fn boxed_string_fails_when_data_is_short() {
    let mut p = build_world();
    // a string object claiming more code units than memory holds
    let mut sobj = vec![0u8; 0x18];
    put_u64(&mut sobj, 0, STR_VTBL);
    put_u32(&mut sobj, 0x10, 400);
    assert!(p.add_segment(0xD000, sobj));
    assert_eq!(
        p.read_boxed_string(0xD000),
        Err(Error::FailedRead(0xD014, 800))
    );
}
