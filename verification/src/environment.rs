//! Per-runtime environment: the guest-visible state behind the host-call
//! surface. Owns the process name, the append-only pointer-path registry
//! with its old/current value rotation, the tick rate, and the optional
//! hooked target process.
use crate::memory::{image_read, Bitness, MemoryImage};
use crate::pointer::{
    kind_of_code, kind_of_value, size_of_kind, spec_decode, zero_of_kind, PointerKind,
    PointerValue,
};
use crate::process::{
    eval_path_address, module_lookup, read_leaf, spec_walk, MemoryReader, Process, ProcessError,
};
use vstd::arithmetic::div_mod::{lemma_fundamental_div_mod, lemma_mod_bound};
use vstd::prelude::*;

verus! {

/// Host-call argument errors, surfaced to the guest as traps.
#[derive(Clone, Copy, PartialEq, Eq, Structural, Debug)]
pub enum TrapError {
    /// The process-name string was unreadable.
    InvalidProcessName,
    /// The module-name string was unreadable.
    InvalidModuleName,
    /// No pointer path carries the given id.
    InvalidPointerPathId,
    /// The pointer-kind wire code is unknown.
    InvalidPointerType,
    /// A typed read asked for a width or signedness other than the one
    /// declared at path creation.
    TypeMismatch,
    /// A string argument was not valid UTF-8.
    Utf8DecodeError,
}

/// A guest-declared pointer path: a module-relative chain of offsets with
/// a typed leaf, and the leaf's two value slots. Path identity is the
/// insertion index in the registry; paths are append-only.
pub struct PointerPath {
    /// Module the base address comes from; empty means absolute (base 0).
    pub module_name: String,
    /// The offsets walked, pointer dereferences between them.
    pub offsets: Vec<i64>,
    /// Value read this tick.
    pub current: PointerValue,
    /// Value read the previous tick.
    pub old_value: PointerValue,
}

impl PointerPath {
    /// Both slots always hold values of the kind declared at creation.
    pub open spec fn wf(self) -> bool {
        kind_of_value(self.current) == kind_of_value(self.old_value)
    }

    /// The kind declared at creation.
    pub open spec fn kind(self) -> PointerKind {
        kind_of_value(self.current)
    }
}

/// Nanoseconds per tick at the default rate of sixty ticks per second.
pub const DEFAULT_TICK_RATE_NANOS: u64 = 16_666_667;

/// The environment of one runtime instance.
pub struct Environment {
    /// Name of the target process, set by the guest during configuration.
    pub process_name: String,
    /// The append-only pointer-path registry.
    pub pointer_paths: Vec<PointerPath>,
    /// Nanoseconds between ticks.
    pub tick_rate_nanos: u64,
    /// The hooked target, present exactly while hooked.
    pub process: Option<Process>,
}

/// The value slot a getter reads: `current` or `old_value` of path `id`.
pub open spec fn value_at(env: Environment, id: int, current: bool) -> PointerValue {
    if current {
        env.pointer_paths@[id].current
    } else {
        env.pointer_paths@[id].old_value
    }
}

impl Environment {
    /// Every path keeps its declared kind in both slots.
    pub open spec fn wf(self) -> bool {
        forall|p: int|
            0 <= p < self.pointer_paths@.len() ==> (#[trigger] self.pointer_paths@[p]).wf()
    }

    /// A fresh environment: no name, no paths, the default tick rate,
    /// nothing hooked.
    pub fn new() -> (env: Environment)
        ensures
            env.process_name@.len() == 0,
            env.pointer_paths@.len() == 0,
            env.tick_rate_nanos == DEFAULT_TICK_RATE_NANOS,
            env.process is None,
            env.wf(),
    {
        Environment {
            process_name: String::new(),
            pointer_paths: Vec::new(),
            tick_rate_nanos: DEFAULT_TICK_RATE_NANOS,
            process: None,
        }
    }

    /// Stores the target process's name. The caller has already copied
    /// the string out of guest memory and validated it.
    pub fn set_process_name(&mut self, name: String)
        ensures
            final(self).process_name == name,
            final(self).pointer_paths@ == old(self).pointer_paths@,
            final(self).tick_rate_nanos == old(self).tick_rate_nanos,
            final(self).process == old(self).process,
    {
        self.process_name = name;
    }

    /// Creates a new pointer path with no offsets and zero-initialised
    /// slots of the kind the wire code names, and returns its id: the
    /// number of paths registered before it, so ids are assigned in
    /// insertion order and earlier ids stay valid. Unknown wire codes
    /// trap with `InvalidPointerType` and change nothing.
    pub fn push_pointer_path(&mut self, module_name: String, pointer_type: u8) -> (r: Result<
        i32,
        TrapError,
    >)
        requires
            old(self).pointer_paths@.len() < 0x7FFF_FFFF,
        ensures
            match r {
                Ok(id) => {
                    &&& id == old(self).pointer_paths@.len()
                    &&& final(self).pointer_paths@.len() == old(self).pointer_paths@.len() + 1
                    &&& forall|p: int|
                        0 <= p < old(self).pointer_paths@.len()
                            ==> #[trigger] final(self).pointer_paths@[p] == old(self).pointer_paths@[p]
                    &&& (kind_of_code(pointer_type) matches Some(k) && {
                        let path = final(self).pointer_paths@.last();
                        &&& path.module_name == module_name
                        &&& path.offsets@ == Seq::<i64>::empty()
                        &&& path.current == zero_of_kind(k)
                        &&& path.old_value == zero_of_kind(k)
                    })
                },
                Err(e) => {
                    &&& e == TrapError::InvalidPointerType
                    &&& kind_of_code(pointer_type) is None
                    &&& final(self).pointer_paths@ == old(self).pointer_paths@
                },
            },
            final(self).process_name == old(self).process_name,
            final(self).tick_rate_nanos == old(self).tick_rate_nanos,
            final(self).process == old(self).process,
            old(self).wf() ==> final(self).wf(),
    {
        let kind = match PointerKind::from_code(pointer_type) {
            Some(kind) => kind,
            None => {
                return Err(TrapError::InvalidPointerType);
            },
        };
        let id = self.pointer_paths.len();
        let zero = PointerValue::zero_of(kind);
        self.pointer_paths.push(
            PointerPath {
                module_name,
                offsets: Vec::new(),
                current: zero,
                old_value: zero,
            },
        );
        Ok(id as i32)
    }

    /// Appends an offset to the path with the given id; every other path
    /// is untouched. Unknown ids trap with `InvalidPointerPathId`.
    pub fn push_offset(&mut self, id: u32, offset: i64) -> (r: Result<(), TrapError>)
        ensures
            match r {
                Ok(_) => {
                    &&& id < old(self).pointer_paths@.len()
                    &&& final(self).pointer_paths@.len() == old(self).pointer_paths@.len()
                    &&& final(self).pointer_paths@[id as int].offsets@ == old(self).pointer_paths@[id as int].offsets@.push(offset)
                    &&& final(self).pointer_paths@[id as int].module_name == old(self).pointer_paths@[id as int].module_name
                    &&& final(self).pointer_paths@[id as int].current == old(self).pointer_paths@[id as int].current
                    &&& final(self).pointer_paths@[id as int].old_value == old(self).pointer_paths@[id as int].old_value
                    &&& forall|p: int|
                        0 <= p < old(self).pointer_paths@.len() && p != id
                            ==> #[trigger] final(self).pointer_paths@[p] == old(self).pointer_paths@[p]
                },
                Err(e) => {
                    &&& e == TrapError::InvalidPointerPathId
                    &&& id >= old(self).pointer_paths@.len()
                    &&& final(self).pointer_paths@ == old(self).pointer_paths@
                },
            },
            final(self).process_name == old(self).process_name,
            final(self).tick_rate_nanos == old(self).tick_rate_nanos,
            final(self).process == old(self).process,
            old(self).wf() ==> final(self).wf(),
    {
        let idx = id as usize;
        if idx >= self.pointer_paths.len() {
            return Err(TrapError::InvalidPointerPathId);
        }
        let path = &mut self.pointer_paths[idx];
        path.offsets.push(offset);
        Ok(())
    }

    /// The value in one slot of path `id`: `current` when the flag is
    /// set, the previous tick's value otherwise. Unknown ids trap with
    /// `InvalidPointerPathId`.
    pub fn get_value(&self, id: u32, current: bool) -> (r: Result<PointerValue, TrapError>)
        ensures
            match r {
                Ok(v) => id < self.pointer_paths@.len() && v == value_at(*self, id as int, current),
                Err(e) => e == TrapError::InvalidPointerPathId && id
                    >= self.pointer_paths@.len(),
            },
    {
        let idx = id as usize;
        if idx >= self.pointer_paths.len() {
            return Err(TrapError::InvalidPointerPathId);
        }
        let path = &self.pointer_paths[idx];
        if current {
            Ok(path.current)
        } else {
            Ok(path.old_value)
        }
    }

    /// Reads the `u8` slot of path `id`, zero-extended to the 32-bit wire
    /// width. Traps with `InvalidPointerPathId` on an unknown id and with
    /// `TypeMismatch` when the path's declared kind differs.
    pub fn get_u8(&self, id: u32, current: bool) -> (r: Result<u32, TrapError>)
        ensures
            id >= self.pointer_paths@.len() ==> r == Err::<u32, TrapError>(
                TrapError::InvalidPointerPathId,
            ),
            id < self.pointer_paths@.len() ==> match value_at(*self, id as int, current) {
                PointerValue::U8(x) => r == Ok::<u32, TrapError>(x as u32),
                _ => r == Err::<u32, TrapError>(TrapError::TypeMismatch),
            },
    {
        match self.get_value(id, current) {
            Ok(PointerValue::U8(x)) => Ok(x as u32),
            Ok(_) => Err(TrapError::TypeMismatch),
            Err(e) => Err(e),
        }
    }

    /// Reads the `u16` slot of path `id`, zero-extended to the 32-bit
    /// wire width; same traps as `get_u8`.
    pub fn get_u16(&self, id: u32, current: bool) -> (r: Result<u32, TrapError>)
        ensures
            id >= self.pointer_paths@.len() ==> r == Err::<u32, TrapError>(
                TrapError::InvalidPointerPathId,
            ),
            id < self.pointer_paths@.len() ==> match value_at(*self, id as int, current) {
                PointerValue::U16(x) => r == Ok::<u32, TrapError>(x as u32),
                _ => r == Err::<u32, TrapError>(TrapError::TypeMismatch),
            },
    {
        match self.get_value(id, current) {
            Ok(PointerValue::U16(x)) => Ok(x as u32),
            Ok(_) => Err(TrapError::TypeMismatch),
            Err(e) => Err(e),
        }
    }

    /// Reads the `u32` slot of path `id`; same traps as `get_u8`.
    pub fn get_u32(&self, id: u32, current: bool) -> (r: Result<u32, TrapError>)
        ensures
            id >= self.pointer_paths@.len() ==> r == Err::<u32, TrapError>(
                TrapError::InvalidPointerPathId,
            ),
            id < self.pointer_paths@.len() ==> match value_at(*self, id as int, current) {
                PointerValue::U32(x) => r == Ok::<u32, TrapError>(x),
                _ => r == Err::<u32, TrapError>(TrapError::TypeMismatch),
            },
    {
        match self.get_value(id, current) {
            Ok(PointerValue::U32(x)) => Ok(x),
            Ok(_) => Err(TrapError::TypeMismatch),
            Err(e) => Err(e),
        }
    }

    /// Reads the `u64` slot of path `id`; same traps as `get_u8`.
    pub fn get_u64(&self, id: u32, current: bool) -> (r: Result<u64, TrapError>)
        ensures
            id >= self.pointer_paths@.len() ==> r == Err::<u64, TrapError>(
                TrapError::InvalidPointerPathId,
            ),
            id < self.pointer_paths@.len() ==> match value_at(*self, id as int, current) {
                PointerValue::U64(x) => r == Ok::<u64, TrapError>(x),
                _ => r == Err::<u64, TrapError>(TrapError::TypeMismatch),
            },
    {
        match self.get_value(id, current) {
            Ok(PointerValue::U64(x)) => Ok(x),
            Ok(_) => Err(TrapError::TypeMismatch),
            Err(e) => Err(e),
        }
    }

    /// Reads the `i8` slot of path `id`, sign-extended to the 32-bit wire
    /// width; same traps as `get_u8`.
    pub fn get_i8(&self, id: u32, current: bool) -> (r: Result<i32, TrapError>)
        ensures
            id >= self.pointer_paths@.len() ==> r == Err::<i32, TrapError>(
                TrapError::InvalidPointerPathId,
            ),
            id < self.pointer_paths@.len() ==> match value_at(*self, id as int, current) {
                PointerValue::I8(x) => r == Ok::<i32, TrapError>(x as i32),
                _ => r == Err::<i32, TrapError>(TrapError::TypeMismatch),
            },
    {
        match self.get_value(id, current) {
            Ok(PointerValue::I8(x)) => Ok(x as i32),
            Ok(_) => Err(TrapError::TypeMismatch),
            Err(e) => Err(e),
        }
    }

    /// Reads the `i16` slot of path `id`, sign-extended to the 32-bit
    /// wire width; same traps as `get_u8`.
    pub fn get_i16(&self, id: u32, current: bool) -> (r: Result<i32, TrapError>)
        ensures
            id >= self.pointer_paths@.len() ==> r == Err::<i32, TrapError>(
                TrapError::InvalidPointerPathId,
            ),
            id < self.pointer_paths@.len() ==> match value_at(*self, id as int, current) {
                PointerValue::I16(x) => r == Ok::<i32, TrapError>(x as i32),
                _ => r == Err::<i32, TrapError>(TrapError::TypeMismatch),
            },
    {
        match self.get_value(id, current) {
            Ok(PointerValue::I16(x)) => Ok(x as i32),
            Ok(_) => Err(TrapError::TypeMismatch),
            Err(e) => Err(e),
        }
    }

    /// Reads the `i32` slot of path `id`; same traps as `get_u8`.
    pub fn get_i32(&self, id: u32, current: bool) -> (r: Result<i32, TrapError>)
        ensures
            id >= self.pointer_paths@.len() ==> r == Err::<i32, TrapError>(
                TrapError::InvalidPointerPathId,
            ),
            id < self.pointer_paths@.len() ==> match value_at(*self, id as int, current) {
                PointerValue::I32(x) => r == Ok::<i32, TrapError>(x),
                _ => r == Err::<i32, TrapError>(TrapError::TypeMismatch),
            },
    {
        match self.get_value(id, current) {
            Ok(PointerValue::I32(x)) => Ok(x),
            Ok(_) => Err(TrapError::TypeMismatch),
            Err(e) => Err(e),
        }
    }

    /// Reads the `i64` slot of path `id`; same traps as `get_u8`.
    pub fn get_i64(&self, id: u32, current: bool) -> (r: Result<i64, TrapError>)
        ensures
            id >= self.pointer_paths@.len() ==> r == Err::<i64, TrapError>(
                TrapError::InvalidPointerPathId,
            ),
            id < self.pointer_paths@.len() ==> match value_at(*self, id as int, current) {
                PointerValue::I64(x) => r == Ok::<i64, TrapError>(x),
                _ => r == Err::<i64, TrapError>(TrapError::TypeMismatch),
            },
    {
        match self.get_value(id, current) {
            Ok(PointerValue::I64(x)) => Ok(x),
            Ok(_) => Err(TrapError::TypeMismatch),
            Err(e) => Err(e),
        }
    }

    /// Reads the `f32` slot of path `id` as its raw little-endian bit
    /// pattern; same traps as `get_u8`. The caller reinterprets the bits
    /// as a float.
    pub fn get_f32(&self, id: u32, current: bool) -> (r: Result<u32, TrapError>)
        ensures
            id >= self.pointer_paths@.len() ==> r == Err::<u32, TrapError>(
                TrapError::InvalidPointerPathId,
            ),
            id < self.pointer_paths@.len() ==> match value_at(*self, id as int, current) {
                PointerValue::F32(x) => r == Ok::<u32, TrapError>(x),
                _ => r == Err::<u32, TrapError>(TrapError::TypeMismatch),
            },
    {
        match self.get_value(id, current) {
            Ok(PointerValue::F32(x)) => Ok(x),
            Ok(_) => Err(TrapError::TypeMismatch),
            Err(e) => Err(e),
        }
    }

    /// Reads the `f64` slot of path `id` as its raw little-endian bit
    /// pattern; same traps as `get_u8`. The caller reinterprets the bits
    /// as a float.
    pub fn get_f64(&self, id: u32, current: bool) -> (r: Result<u64, TrapError>)
        ensures
            id >= self.pointer_paths@.len() ==> r == Err::<u64, TrapError>(
                TrapError::InvalidPointerPathId,
            ),
            id < self.pointer_paths@.len() ==> match value_at(*self, id as int, current) {
                PointerValue::F64(x) => r == Ok::<u64, TrapError>(x),
                _ => r == Err::<u64, TrapError>(TrapError::TypeMismatch),
            },
    {
        match self.get_value(id, current) {
            Ok(PointerValue::F64(x)) => Ok(x),
            Ok(_) => Err(TrapError::TypeMismatch),
            Err(e) => Err(e),
        }
    }

    /// Sets the duration between ticks, in nanoseconds.
    pub fn set_tick_rate_nanos(&mut self, nanos: u64)
        ensures
            final(self).tick_rate_nanos == nanos,
            final(self).process_name == old(self).process_name,
            final(self).pointer_paths@ == old(self).pointer_paths@,
            final(self).process == old(self).process,
    {
        self.tick_rate_nanos = nanos;
    }

    /// Reserved: publish a named observation to the embedder. Currently
    /// a no-op that changes nothing.
    pub fn set_variable(&mut self, _key: &str, _value: &str)
        ensures
            *final(self) == *old(self),
    {
    }

    /// Runs the signature matcher over the hooked process's readable
    /// memory. Returns the address of the first match, and `0` when
    /// nothing matches, when nothing is hooked, or when the target could
    /// not be scanned: probing never traps.
    pub fn scan_signature(&self, signature: &str) -> (r: u64)
        ensures
            self.process is None ==> r == 0,
    {
        match &self.process {
            Some(p) => match p.scan_signature(signature) {
                Ok(Some(address)) => address,
                Ok(None) => 0,
                Err(_) => 0,
            },
            None => 0,
        }
    }

    /// Reads `buf.len()` bytes of target memory at `address` into `buf`.
    /// Returns whether the read succeeded; when nothing is hooked or the
    /// read fails it reports failure rather than trapping, and the caller
    /// leaves its destination untouched.
    pub fn read_into_buf(&self, address: u64, buf: &mut Vec<u8>) -> (ok: bool)
        ensures
            final(buf)@.len() == old(buf)@.len(),
            self.process is None ==> !ok && final(buf)@ == old(buf)@,
    {
        match &self.process {
            Some(p) => match p.read_buf(address, buf) {
                Ok(_) => true,
                Err(_) => false,
            },
            None => false,
        }
    }
}

/// The base address a path starts from: zero for an absolute path (empty
/// module name), else the module's base in the map, `None` when the
/// module is not loaded.
pub open spec fn spec_base(mods: Seq<(String, u64)>, module_name: Seq<char>) -> Option<u64> {
    if module_name.len() == 0 {
        Some(0u64)
    } else {
        module_lookup(mods, module_name)
    }
}

/// The value one tick's evaluation of a path yields against a modelled
/// target: resolve the base, walk the offsets, read the typed leaf and
/// decode it little-endian. `None` where any step fails: an absent
/// module, an unreadable dereference or leaf, or the reserved string
/// kind.
pub open spec fn spec_path_read(
    img: MemoryImage,
    mods: Seq<(String, u64)>,
    w: Bitness,
    path: PointerPath,
) -> Option<PointerValue> {
    match spec_base(mods, path.module_name@) {
        Option::None => Option::None,
        Option::Some(base) => match spec_walk(img, base, path.offsets@, w) {
            Option::None => Option::None,
            Option::Some(addr) => if path.kind() == PointerKind::Str {
                Option::None
            } else {
                match image_read(img, addr as int, size_of_kind(path.kind()) as int) {
                    Option::Some(s) => Option::Some(spec_decode(path.kind(), s)),
                    Option::None => Option::None,
                }
            },
        },
    }
}

/// One tick's evaluation of every registered path, with the old/current
/// rotation. On the first tick after (re)connecting both slots take the
/// fresh reading; on a steady tick the previous `current` moves to
/// `old_value` and the fresh reading becomes `current`. A failure on any
/// path fails the whole update; paths after the failing one keep their
/// values. Against a modelled image target the outcome and every fresh
/// value are pinned down exactly.
pub fn update_paths(
    paths: &mut Vec<PointerPath>,
    reader: &MemoryReader,
    just_connected: bool,
) -> (r: Result<(), ProcessError>)
    ensures
        final(paths)@.len() == old(paths)@.len(),
        forall|p: int|
            0 <= p < old(paths)@.len() ==> {
                &&& (#[trigger] final(paths)@[p]).module_name == old(paths)@[p].module_name
                &&& final(paths)@[p].offsets@ == old(paths)@[p].offsets@
                &&& kind_of_value(final(paths)@[p].current) == old(paths)@[p].kind()
                &&& (old(paths)@[p].wf() ==> final(paths)@[p].wf())
            },
        r is Ok ==> forall|p: int|
            0 <= p < old(paths)@.len() ==> {
                &&& (#[trigger] final(paths)@[p]).wf()
                &&& (just_connected ==> final(paths)@[p].current == final(paths)@[p].old_value)
                &&& (!just_connected ==> final(paths)@[p].old_value == old(paths)@[p].current)
            },
        reader.is_image() && r is Ok ==> forall|p: int|
            0 <= p < old(paths)@.len() ==> spec_path_read(
                reader.image(),
                reader.modules_spec(),
                reader.bitness_spec(),
                #[trigger] old(paths)@[p],
            ) == Some(final(paths)@[p].current),
        reader.is_image() && (forall|p: int|
            0 <= p < old(paths)@.len() ==> spec_path_read(
                reader.image(),
                reader.modules_spec(),
                reader.bitness_spec(),
                #[trigger] old(paths)@[p],
            ) is Some) ==> r is Ok,
{
    let count = paths.len();
    let mut p: usize = 0;
    while p < count
        invariant
            count == paths@.len(),
            count == old(paths)@.len(),
            p <= count,
            forall|q: int| p <= q < count ==> #[trigger] paths@[q] == old(paths)@[q],
            forall|q: int|
                0 <= q < p ==> {
                    &&& (#[trigger] paths@[q]).module_name == old(paths)@[q].module_name
                    &&& paths@[q].offsets@ == old(paths)@[q].offsets@
                    &&& paths@[q].wf()
                    &&& kind_of_value(paths@[q].current) == old(paths)@[q].kind()
                    &&& (just_connected ==> paths@[q].current == paths@[q].old_value)
                    &&& (!just_connected ==> paths@[q].old_value == old(paths)@[q].current)
                },
            reader.is_image() ==> forall|q: int|
                0 <= q < p ==> spec_path_read(
                    reader.image(),
                    reader.modules_spec(),
                    reader.bitness_spec(),
                    #[trigger] old(paths)@[q],
                ) == Some(paths@[q].current),
        decreases count - p,
    {
        let base = if paths[p].module_name.as_str().is_empty() {
            0u64
        } else {
            match reader.module_base(paths[p].module_name.as_str()) {
                Ok(base) => base,
                Err(e) => {
                    proof {
                        if reader.is_image() {
                            assert(spec_path_read(
                                reader.image(),
                                reader.modules_spec(),
                                reader.bitness_spec(),
                                old(paths)@[p as int],
                            ) is None);
                        }
                    }
                    return Err(e);
                },
            }
        };
        let addr = match eval_path_address(reader, base, &paths[p].offsets) {
            Ok(addr) => addr,
            Err(e) => {
                proof {
                    if reader.is_image() {
                        assert(spec_path_read(
                            reader.image(),
                            reader.modules_spec(),
                            reader.bitness_spec(),
                            old(paths)@[p as int],
                        ) is None);
                    }
                }
                return Err(e);
            },
        };
        let kind = paths[p].current.kind();
        let value = match read_leaf(reader, addr, kind) {
            Ok(value) => value,
            Err(e) => {
                proof {
                    if reader.is_image() {
                        assert(spec_path_read(
                            reader.image(),
                            reader.modules_spec(),
                            reader.bitness_spec(),
                            old(paths)@[p as int],
                        ) is None);
                    }
                }
                return Err(e);
            },
        };
        proof {
            if reader.is_image() {
                assert(spec_path_read(
                    reader.image(),
                    reader.modules_spec(),
                    reader.bitness_spec(),
                    old(paths)@[p as int],
                ) == Some(value));
            }
        }
        let path = &mut paths[p];
        if just_connected {
            path.old_value = value;
            path.current = value;
        } else {
            path.old_value = path.current;
            path.current = value;
        }
        p = p + 1;
    }
    Ok(())
}

impl Environment {
    /// One tick's evaluation of every registered path against the hooked
    /// process, with the old/current rotation. Fails with
    /// `ProcessDoesntExist` when nothing is hooked; any path failure
    /// fails the whole update, and the driver treats that as a
    /// disconnect.
    pub fn update_values(&mut self, just_connected: bool) -> (r: Result<(), ProcessError>)
        ensures
            final(self).process_name == old(self).process_name,
            final(self).tick_rate_nanos == old(self).tick_rate_nanos,
            final(self).process == old(self).process,
            final(self).pointer_paths@.len() == old(self).pointer_paths@.len(),
            old(self).process is None ==> r == Err::<(), ProcessError>(
                ProcessError::ProcessDoesntExist,
            ) && final(self).pointer_paths@ == old(self).pointer_paths@,
            forall|p: int|
                0 <= p < old(self).pointer_paths@.len() ==> {
                    &&& (#[trigger] final(self).pointer_paths@[p]).module_name == old(self).pointer_paths@[p].module_name
                    &&& final(self).pointer_paths@[p].offsets@ == old(self).pointer_paths@[p].offsets@
                    &&& kind_of_value(final(self).pointer_paths@[p].current) == old(self).pointer_paths@[p].kind()
                    &&& (old(self).pointer_paths@[p].wf() ==> final(self).pointer_paths@[p].wf())
                },
            r is Ok ==> forall|p: int|
                0 <= p < old(self).pointer_paths@.len() ==> {
                    &&& (#[trigger] final(self).pointer_paths@[p]).wf()
                    &&& (just_connected ==> final(self).pointer_paths@[p].current == final(self).pointer_paths@[p].old_value)
                    &&& (!just_connected ==> final(self).pointer_paths@[p].old_value == old(self).pointer_paths@[p].current)
                },
    {
        match &self.process {
            Some(process) => {
                let reader = MemoryReader::Live(process);
                update_paths(&mut self.pointer_paths, &reader, just_connected)
            },
            None => Err(ProcessError::ProcessDoesntExist),
        }
    }
}

/// Nanoseconds per tick for a whole number of ticks per second: one
/// thousand million divided by the rate, rounded to the nearest
/// nanosecond, halves rounding up. The two `ensures` clauses pin the
/// result `r` as the nearest integer to that quotient:
/// `1e9 - t/2 <= r * t <= 1e9 + t/2`, stated without division.
pub fn tick_duration_nanos(ticks_per_sec: u64) -> (r: u64)
    requires
        1 <= ticks_per_sec,
    ensures
        2 * r * ticks_per_sec <= 2_000_000_000 + ticks_per_sec,
        2_000_000_000 - ticks_per_sec < 2 * r * ticks_per_sec,
{
    if ticks_per_sec > 2_000_000_000 {
        proof {
            assert(2 * 0 * ticks_per_sec == 0) by (nonlinear_arith);
        }
        return 0;
    }
    let denom = 2 * ticks_per_sec;
    let numer = 2_000_000_000 + ticks_per_sec;
    let r = numer / denom;
    proof {
        let n = numer as int;
        let d = denom as int;
        lemma_fundamental_div_mod(n, d);
        lemma_mod_bound(n, d);
        assert(d * (n / d) <= n < d * (n / d) + d);
        assert(d * (n / d) == 2 * (n / d) * ticks_per_sec) by (nonlinear_arith)
            requires
                d == 2 * ticks_per_sec,
        ;
    }
    r
}

} // verus!
