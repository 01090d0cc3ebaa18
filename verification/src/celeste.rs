//! The game adapter: one-time discovery of the classes and addresses the
//! game exposes, and the per-tick snapshot that derives an `Info` from them.

use vstd::prelude::*;
use vstd::string::*;

use crate::info::AutoSplitterInfo;
use crate::info::Info;
use crate::info::InfoV;
use crate::info::decode_asi;
use crate::info::spec_read_asi;
use crate::mem::Error;
use crate::mem::Process;
use crate::mem::spec_cstr;
use crate::mem::spec_read_u64;
use crate::mem::spec_read_u8;
use crate::mem::wrap_add;
use crate::mono::CelesteProcess;
use crate::mono::spec_boxed_units;
use crate::mono::spec_class_field_offset;
use crate::mono::spec_instance_class;
use crate::mono::spec_instance_field_u32;
use crate::mono::spec_instance_field_u64;
use crate::mono::spec_locate_splitter_info;
use crate::mono::spec_lookup_class;
use crate::mono::spec_static_field_u64;
use crate::text::bytes_eq;
use crate::text::spec_utf16_chars;

verus! {

/// Absolute address of the Mono domain-list pointer in the target build.
pub const DOMAIN_LIST_ADDR: u64 = 0xA17698;

/// Offset of the assembly pointer within a domain.
pub const OFF_DOMAIN_ASSEMBLY: u64 = 0xd0;

/// Offset of the friendly-name pointer within a domain.
pub const OFF_DOMAIN_NAME: u64 = 0xd8;

/// Offset of the image pointer within an assembly.
pub const OFF_ASSEMBLY_IMAGE: u64 = 0x60;

/// Offset of the class cache within an image.
pub const OFF_IMAGE_CLASS_CACHE: u64 = 1216;

/// Modular multiplication on addresses.
pub open spec fn wrap_mul(a: u64, b: u64) -> u64 {
    (((a as nat * b as nat) % 0x1_0000_0000_0000_0000nat) as u64)
}

/// The game adapter: the addresses discovered once after attaching, plus the
/// two scratch cursors the per-tick snapshot maintains. The class pointers
/// are non-owning observations of memory the game owns; they are meaningful
/// only while the attachment that produced them lives.
#[derive(Clone, Copy, Debug, PartialEq, Eq, Structural)]
pub struct Celeste {
    /// The `Celeste` singleton instance.
    pub instance: u64,
    /// The `SaveData` class descriptor.
    pub save_data_class: u64,
    /// The `Engine` class descriptor.
    pub engine_class: u64,
    /// The `Level` class descriptor.
    pub level_class: u64,
    /// Address of the packed `AutoSplitterInfo` payload.
    pub info: u64,
    /// The save-file instance seen on the previous tick.
    pub prev_save: u64,
    /// The cached per-mode stats object; 0 when not resolved.
    pub mode_stats: u64,
}

/// What discovery returns once the game domain is known: the class cache is
/// walked for the four classes, then the singleton and the info payload are
/// located.
pub open spec fn spec_discover_domain(m: Map<int, u8>, domain: u64) -> Result<Celeste, Error> {
    match spec_read_u64(m, wrap_add(domain, OFF_DOMAIN_ASSEMBLY)) {
        Err(e) => Err(e),
        Ok(assembly) => match spec_read_u64(m, wrap_add(assembly, OFF_ASSEMBLY_IMAGE)) {
            Err(e) => Err(e),
            Ok(image) => {
                let cache = wrap_add(image, OFF_IMAGE_CLASS_CACHE);
                match spec_lookup_class(m, cache, "Celeste".spec_bytes()) {
                    Err(e) => Err(e),
                    Ok(celeste_class) => match spec_lookup_class(
                        m,
                        cache,
                        "SaveData".spec_bytes(),
                    ) {
                        Err(e) => Err(e),
                        Ok(save_data_class) => match spec_lookup_class(
                            m,
                            cache,
                            "Engine".spec_bytes(),
                        ) {
                            Err(e) => Err(e),
                            Ok(engine_class) => match spec_lookup_class(
                                m,
                                cache,
                                "Level".spec_bytes(),
                            ) {
                                Err(e) => Err(e),
                                Ok(level_class) => match spec_static_field_u64(
                                    m,
                                    celeste_class,
                                    "Instance".spec_bytes(),
                                ) {
                                    Err(e) => Err(e),
                                    Ok(celeste_instance) => match spec_locate_splitter_info(
                                        m,
                                        celeste_instance,
                                    ) {
                                        Err(e) => Err(e),
                                        Ok(info) => Ok(
                                            Celeste {
                                                instance: celeste_instance,
                                                save_data_class,
                                                engine_class,
                                                level_class,
                                                info,
                                                prev_save: 0,
                                                mode_stats: 0,
                                            },
                                        ),
                                    },
                                },
                            },
                        },
                    },
                }
            },
        },
    }
}

/// What discovery returns: the domain list at the fixed address is read, the
/// first domain's assembly name must be `Celeste.exe` (else the attached
/// process is the wrong one), the game domain is the second if present, and
/// the adapter is built from it.
pub open spec fn spec_discover(m: Map<int, u8>) -> Result<Celeste, Error> {
    match spec_read_u64(m, DOMAIN_LIST_ADDR) {
        Err(e) => Err(e),
        Ok(dl) => match spec_read_u64(m, dl) {
            Err(e) => Err(e),
            Ok(first) => match spec_read_u64(m, wrap_add(dl, 8)) {
                Err(e) => Err(e),
                Ok(second) => if first == 0 {
                    Err(Error::WrongProcess)
                } else {
                    match spec_read_u64(m, wrap_add(first, OFF_DOMAIN_NAME)) {
                        Err(e) => Err(e),
                        Ok(strloc) => match spec_cstr(m, strloc) {
                            Err(e) => Err(e),
                            Ok(nm) => if nm != "Celeste.exe".spec_bytes() {
                                Err(Error::WrongProcess)
                            } else {
                                spec_discover_domain(
                                    m,
                                    if second != 0 {
                                        second
                                    } else {
                                        first
                                    },
                                )
                            },
                        },
                    }
                },
            },
        },
    }
}

/// What resolving the per-mode stats cursor returns this tick: cleared in
/// menus, kept when already resolved, and otherwise looked up through the
/// save file's `Areas` list (which must hold the game's eleven chapters).
pub open spec fn spec_resolve_mode_stats(
    m: Map<int, u8>,
    c: Celeste,
    asi: AutoSplitterInfo,
    save: u64,
) -> Result<u64, Error> {
    if save == 0 {
        Ok(c.mode_stats)
    } else if asi.chapter == -1 {
        Ok(0u64)
    } else if c.mode_stats != 0 {
        Ok(c.mode_stats)
    } else {
        match spec_instance_field_u64(m, save, "Areas".spec_bytes()) {
            Err(e) => Err(e),
            Ok(areas) => match spec_instance_field_u32(m, areas, "_size".spec_bytes()) {
                Err(e) => Err(e),
                Ok(size) => if size != 11 {
                    Ok(0u64)
                } else {
                    match spec_instance_field_u64(m, areas, "_items".spec_bytes()) {
                        Err(e) => Err(e),
                        Ok(items) => if items == 0 {
                            Ok(0u64)
                        } else {
                            match spec_read_u64(
                                m,
                                wrap_add(
                                    wrap_add(items, 0x20),
                                    wrap_mul(asi.chapter as u64, 8),
                                ),
                            ) {
                                Err(e) => Err(e),
                                Ok(area_stats) => match spec_instance_field_u64(
                                    m,
                                    area_stats,
                                    "Modes".spec_bytes(),
                                ) {
                                    Err(e) => Err(e),
                                    Ok(modes) => spec_read_u64(
                                        m,
                                        wrap_add(
                                            wrap_add(modes, 0x20),
                                            wrap_mul(asi.mode as u64, 8),
                                        ),
                                    ),
                                },
                            }
                        },
                    }
                },
            },
        }
    }
}

/// What reading the checkpoint count through the stats cursor returns.
pub open spec fn spec_checkpoint(m: Map<int, u8>, ms: u64) -> Result<u32, Error> {
    if ms == 0 {
        Ok(0u32)
    } else {
        match spec_instance_field_u64(m, ms, "Checkpoints".spec_bytes()) {
            Err(e) => Err(e),
            Ok(cobj) => spec_instance_field_u32(m, cobj, "_count".spec_bytes()),
        }
    }
}

/// What deriving the cutscene flag returns: false in menus, true before a
/// chapter starts or after it completes, and otherwise the `InCutscene`
/// byte of the engine's scene when that scene is a `Level`.
pub open spec fn spec_in_cutscene(m: Map<int, u8>, c: Celeste, asi: AutoSplitterInfo) -> Result<
    bool,
    Error,
> {
    if asi.chapter == -1 {
        Ok(false)
    } else if !asi.chapter_started || asi.chapter_complete {
        Ok(true)
    } else {
        match spec_class_field_offset(m, c.engine_class, "scene".spec_bytes()) {
            Err(e) => Err(e),
            Ok(soff) => match spec_read_u64(m, wrap_add(c.instance, soff as u64)) {
                Err(e) => Err(e),
                Ok(scene) => match spec_instance_class(m, scene) {
                    Err(e) => Err(e),
                    Ok(icls) => if icls != c.level_class {
                        Ok(false)
                    } else {
                        match spec_class_field_offset(m, c.level_class, "InCutscene".spec_bytes()) {
                            Err(e) => Err(e),
                            Ok(coff) => match spec_read_u8(m, wrap_add(scene, coff as u64)) {
                                Err(e) => Err(e),
                                Ok(b) => Ok(b != 0),
                            },
                        }
                    },
                },
            },
        }
    }
}

/// The outcome of one snapshot attempt: the result handed to the splitter
/// and the two scratch cursors as they stand afterwards.
pub struct SnapshotV {
    /// `Ok(Some(..))` is a snapshot, `Ok(None)` is "no snapshot this tick"
    /// (the save file just changed), `Err` is a failed read.
    pub result: Result<Option<InfoV>, Error>,
    /// The save cursor after the attempt.
    pub prev_save: u64,
    /// The stats cursor after the attempt.
    pub mode_stats: u64,
}

/// What one snapshot attempt returns and how it moves the cursors, step by
/// step: read the packed info, read the room name, read the save pointer;
/// on a save change return no snapshot and reset the cursors; otherwise
/// derive deaths, checkpoint and the cutscene flag. Any failed read aborts
/// the snapshot; cursor updates made before the failure persist.
pub open spec fn spec_snapshot(m: Map<int, u8>, c: Celeste) -> SnapshotV {
    match spec_read_asi(m, c.info) {
        Err(e) => SnapshotV { result: Err(e), prev_save: c.prev_save, mode_stats: c.mode_stats },
        Ok(asi) => {
            let room_r = if asi.level != 0 {
                match spec_boxed_units(m, asi.level) {
                    Ok(u) => Ok(spec_utf16_chars(u)),
                    Err(e) => Err(e),
                }
            } else {
                Ok(Seq::<char>::empty())
            };
            match room_r {
                Err(e) => SnapshotV {
                    result: Err(e),
                    prev_save: c.prev_save,
                    mode_stats: c.mode_stats,
                },
                Ok(room) => match spec_static_field_u64(
                    m,
                    c.save_data_class,
                    "Instance".spec_bytes(),
                ) {
                    Err(e) => SnapshotV {
                        result: Err(e),
                        prev_save: c.prev_save,
                        mode_stats: c.mode_stats,
                    },
                    Ok(save) => if save != 0 && save != c.prev_save {
                        SnapshotV { result: Ok(None), prev_save: save, mode_stats: 0 }
                    } else {
                        let death_r = if save != 0 {
                            spec_instance_field_u32(m, save, "TotalDeaths".spec_bytes())
                        } else {
                            Ok(0u32)
                        };
                        match death_r {
                            Err(e) => SnapshotV {
                                result: Err(e),
                                prev_save: c.prev_save,
                                mode_stats: c.mode_stats,
                            },
                            Ok(death_count) => match spec_resolve_mode_stats(m, c, asi, save) {
                                Err(e) => SnapshotV {
                                    result: Err(e),
                                    prev_save: c.prev_save,
                                    mode_stats: c.mode_stats,
                                },
                                Ok(ms) => {
                                    let cp_r = if save != 0 {
                                        spec_checkpoint(m, ms)
                                    } else {
                                        Ok(0u32)
                                    };
                                    match cp_r {
                                        Err(e) => SnapshotV {
                                            result: Err(e),
                                            prev_save: c.prev_save,
                                            mode_stats: ms,
                                        },
                                        Ok(checkpoint) => match spec_in_cutscene(m, c, asi) {
                                            Err(e) => SnapshotV {
                                                result: Err(e),
                                                prev_save: c.prev_save,
                                                mode_stats: ms,
                                            },
                                            Ok(in_cutscene) => SnapshotV {
                                                result: Ok(
                                                    Some(
                                                        InfoV {
                                                            asi,
                                                            death_count,
                                                            checkpoint,
                                                            in_cutscene,
                                                            room,
                                                        },
                                                    ),
                                                ),
                                                prev_save: c.prev_save,
                                                mode_stats: ms,
                                            },
                                        },
                                    }
                                },
                            },
                        }
                    },
                },
            }
        },
    }
}

/// An executable snapshot result matches its mathematical image.
pub open spec fn snapshot_result_matches(
    r: Result<Option<Info>, Error>,
    s: Result<Option<InfoV>, Error>,
) -> bool {
    match (r, s) {
        (Ok(Some(info)), Ok(Some(v))) => info@ == v,
        (Ok(None), Ok(None)) => true,
        (Err(e1), Err(e2)) => e1 == e2,
        _ => false,
    }
}

impl Celeste {
    /// Discover the adapter from the observed memory of a freshly attached
    /// process.
    pub fn discover(proc: &Process) -> (r: Result<Celeste, Error>)
        requires
            proc.wf(),
        ensures
            r == spec_discover(proc@),
    {
        let dl = match proc.read_u64(DOMAIN_LIST_ADDR) {
            Ok(v) => v,
            Err(e) => return Err(e),
        };
        let first = match proc.read_u64(dl) {
            Ok(v) => v,
            Err(e) => return Err(e),
        };
        let second = match proc.read_u64(dl.wrapping_add(8)) {
            Ok(v) => v,
            Err(e) => return Err(e),
        };
        if first == 0 {
            return Err(Error::WrongProcess);
        }
        let strloc = match proc.read_u64(first.wrapping_add(OFF_DOMAIN_NAME)) {
            Ok(v) => v,
            Err(e) => return Err(e),
        };
        let nm = match proc.read_cstr(strloc) {
            Ok(v) => v,
            Err(e) => return Err(e),
        };
        if !bytes_eq(nm.as_slice(), "Celeste.exe".as_bytes()) {
            return Err(Error::WrongProcess);
        }
        let domain = if second != 0 {
            second
        } else {
            first
        };
        let assembly = match proc.read_u64(domain.wrapping_add(OFF_DOMAIN_ASSEMBLY)) {
            Ok(v) => v,
            Err(e) => return Err(e),
        };
        let image = match proc.read_u64(assembly.wrapping_add(OFF_ASSEMBLY_IMAGE)) {
            Ok(v) => v,
            Err(e) => return Err(e),
        };
        let cache = image.wrapping_add(OFF_IMAGE_CLASS_CACHE);
        let celeste_class = match proc.lookup_class(cache, "Celeste") {
            Ok(v) => v,
            Err(e) => return Err(e),
        };
        let save_data_class = match proc.lookup_class(cache, "SaveData") {
            Ok(v) => v,
            Err(e) => return Err(e),
        };
        let engine_class = match proc.lookup_class(cache, "Engine") {
            Ok(v) => v,
            Err(e) => return Err(e),
        };
        let level_class = match proc.lookup_class(cache, "Level") {
            Ok(v) => v,
            Err(e) => return Err(e),
        };
        let celeste_instance = match proc.static_field_u64(celeste_class, "Instance") {
            Ok(v) => v,
            Err(e) => return Err(e),
        };
        let info = match proc.locate_splitter_info(celeste_instance) {
            Ok(v) => v,
            Err(e) => return Err(e),
        };
        Ok(
            Celeste {
                instance: celeste_instance,
                save_data_class,
                engine_class,
                level_class,
                info,
                prev_save: 0,
                mode_stats: 0,
            },
        )
    }

    /// Take one snapshot: `Ok(Some(..))` is this tick's `Info`, `Ok(None)`
    /// means the save file just changed and the tick is skipped, and `Err`
    /// is the first failed read. Only the two scratch cursors move.
    pub fn snapshot(&mut self, proc: &Process) -> (r: Result<Option<Info>, Error>)
        requires
            proc.wf(),
        ensures
            snapshot_result_matches(r, spec_snapshot(proc@, *old(self)).result),
            final(self).prev_save == spec_snapshot(proc@, *old(self)).prev_save,
            final(self).mode_stats == spec_snapshot(proc@, *old(self)).mode_stats,
            final(self).instance == old(self).instance,
            final(self).save_data_class == old(self).save_data_class,
            final(self).engine_class == old(self).engine_class,
            final(self).level_class == old(self).level_class,
            final(self).info == old(self).info,
    {
        let asi = match proc.read_bytes(self.info, crate::info::ASI_SIZE) {
            Ok(b) => decode_asi(&b),
            Err(e) => return Err(e),
        };
        let room = if asi.level != 0 {
            match proc.read_boxed_string(asi.level) {
                Ok(s) => s,
                Err(e) => return Err(e),
            }
        } else {
            String::new()
        };
        let save = match proc.static_field_u64(self.save_data_class, "Instance") {
            Ok(v) => v,
            Err(e) => return Err(e),
        };
        if save != 0 && save != self.prev_save {
            self.prev_save = save;
            self.mode_stats = 0;
            return Ok(None);
        }
        let death_count = if save != 0 {
            match proc.instance_field_u32(save, "TotalDeaths") {
                Ok(v) => v,
                Err(e) => return Err(e),
            }
        } else {
            0
        };
        let ms = match self.resolve_mode_stats(proc, &asi, save) {
            Ok(v) => v,
            Err(e) => return Err(e),
        };
        self.mode_stats = ms;
        let checkpoint = if save != 0 {
            match Self::checkpoint_of(proc, ms) {
                Ok(v) => v,
                Err(e) => return Err(e),
            }
        } else {
            0
        };
        let in_cutscene = match self.in_cutscene_of(proc, &asi) {
            Ok(v) => v,
            Err(e) => return Err(e),
        };
        Ok(Some(Info { asi, death_count, checkpoint, in_cutscene, room }))
    }

    /// Resolve the per-mode stats cursor for this tick; the cursors of
    /// `self` are not moved here.
    fn resolve_mode_stats(&self, proc: &Process, asi: &AutoSplitterInfo, save: u64) -> (r: Result<
        u64,
        Error,
    >)
        requires
            proc.wf(),
        ensures
            r == spec_resolve_mode_stats(proc@, *self, *asi, save),
    {
        if save == 0 {
            return Ok(self.mode_stats);
        }
        if asi.chapter == -1 {
            return Ok(0);
        }
        if self.mode_stats != 0 {
            return Ok(self.mode_stats);
        }
        let areas = match proc.instance_field_u64(save, "Areas") {
            Ok(v) => v,
            Err(e) => return Err(e),
        };
        let size = match proc.instance_field_u32(areas, "_size") {
            Ok(v) => v,
            Err(e) => return Err(e),
        };
        if size != 11 {
            return Ok(0);
        }
        let items = match proc.instance_field_u64(areas, "_items") {
            Ok(v) => v,
            Err(e) => return Err(e),
        };
        if items == 0 {
            return Ok(0);
        }
        let area_stats = match proc.read_u64(
            items.wrapping_add(0x20).wrapping_add((asi.chapter as u64).wrapping_mul(8)),
        ) {
            Ok(v) => v,
            Err(e) => return Err(e),
        };
        let modes = match proc.instance_field_u64(area_stats, "Modes") {
            Ok(v) => v,
            Err(e) => return Err(e),
        };
        proc.read_u64(modes.wrapping_add(0x20).wrapping_add((asi.mode as u64).wrapping_mul(8)))
    }

    /// Read the checkpoint count through the stats cursor.
    fn checkpoint_of(proc: &Process, ms: u64) -> (r: Result<u32, Error>)
        requires
            proc.wf(),
        ensures
            r == spec_checkpoint(proc@, ms),
    {
        if ms == 0 {
            return Ok(0);
        }
        let cobj = match proc.instance_field_u64(ms, "Checkpoints") {
            Ok(v) => v,
            Err(e) => return Err(e),
        };
        proc.instance_field_u32(cobj, "_count")
    }

    /// Derive the cutscene flag.
    fn in_cutscene_of(&self, proc: &Process, asi: &AutoSplitterInfo) -> (r: Result<bool, Error>)
        requires
            proc.wf(),
        ensures
            r == spec_in_cutscene(proc@, *self, *asi),
    {
        if asi.chapter == -1 {
            return Ok(false);
        }
        if !asi.chapter_started || asi.chapter_complete {
            return Ok(true);
        }
        let soff = match proc.class_field_offset(self.engine_class, "scene") {
            Ok(v) => v,
            Err(e) => return Err(e),
        };
        let scene = match proc.read_u64(self.instance.wrapping_add(soff as u64)) {
            Ok(v) => v,
            Err(e) => return Err(e),
        };
        let icls = match proc.instance_class(scene) {
            Ok(v) => v,
            Err(e) => return Err(e),
        };
        if icls != self.level_class {
            return Ok(false);
        }
        let coff = match proc.class_field_offset(self.level_class, "InCutscene") {
            Ok(v) => v,
            Err(e) => return Err(e),
        };
        match proc.read_u8(scene.wrapping_add(coff as u64)) {
            Ok(b) => Ok(b != 0),
            Err(e) => Err(e),
        }
    }

    /// Take one snapshot, collapsing the save-change skip and any failed
    /// read into "no snapshot this tick".
    pub fn update(&mut self, proc: &Process) -> (r: Option<Info>)
        requires
            proc.wf(),
        ensures
            match spec_snapshot(proc@, *old(self)).result {
                Ok(Some(v)) => r is Some && r->0@ == v,
                _ => r is None,
            },
            final(self).prev_save == spec_snapshot(proc@, *old(self)).prev_save,
            final(self).mode_stats == spec_snapshot(proc@, *old(self)).mode_stats,
            final(self).instance == old(self).instance,
            final(self).save_data_class == old(self).save_data_class,
            final(self).engine_class == old(self).engine_class,
            final(self).level_class == old(self).level_class,
            final(self).info == old(self).info,
    {
        match self.snapshot(proc) {
            Ok(Some(info)) => Some(info),
            Ok(None) => None,
            Err(_) => None,
        }
    }
}

} // verus!
