//! Target-process access layer: resolving a running process by name,
//! enumerating its loaded modules and readable memory regions, reading
//! byte ranges out of its address space, and scanning its memory for a
//! signature. All operating-system access goes through small trusted
//! wrappers; everything around them is verified.
use crate::memory::{
    image_read, pointer_from_bytes, pointer_from_le, pointer_size, pointer_size_exec,
    step_address, truncate_to_width, Bitness, MemoryImage,
};
use crate::pointer::{kind_of_value, size_of_kind, spec_decode, decode_value, PointerKind, PointerValue};
use crate::signature::{pair_bytes, sig_nibbles, Signature};
use read_process_memory::CopyAddress;
use vstd::prelude::*;
use vstd::string::StringSliceAdditionalSpecFns;

verus! {

/// Failures of the target-process access layer.
#[derive(Clone, Copy, PartialEq, Eq, Structural, Debug)]
pub enum ProcessError {
    /// The running processes could not be listed.
    ListProcesses,
    /// No running process carries the requested name or pid.
    ProcessDoesntExist,
    /// The process's memory map could not be read.
    ListModules,
    /// No read handle could be acquired.
    OpenProcess,
    /// The requested module is not loaded in the target.
    ModuleDoesntExist,
    /// A memory read failed.
    ReadMemory,
    /// The reserved string kind cannot be read yet.
    Unimplemented,
}

/// One running process, as the operating system reports it.
pub struct ProcEntry {
    /// Process id.
    pub pid: u32,
    /// Executable name.
    pub name: String,
    /// Start time, seconds since the epoch; later means started later.
    pub start_time: u64,
}

/// One mapped memory region of a process.
pub struct RegionEntry {
    /// The mapped file's path, when the region maps a file.
    pub filename: Option<String>,
    /// Address of the region's first byte.
    pub base: u64,
    /// Region length in bytes.
    pub size: u64,
    /// Whether the region is mapped readable.
    pub readable: bool,
}

#[verifier::external_type_specification]
#[verifier::external_body]
pub struct ExProcessHandle(read_process_memory::ProcessHandle);

/// Relies on sysinfo's `System::new`, `System::refresh_processes` and
/// `System::processes` to enumerate the running processes, and on
/// `Process::pid`, `Process::name` and `Process::start_time` for each
/// entry's fields. What is running depends on the machine, so nothing is
/// promised of the result.
#[verifier::external_body]
fn os_list_processes() -> (r: Vec<ProcEntry>) {
    let mut sys = sysinfo::System::new();
    sys.refresh_processes(sysinfo::ProcessesToUpdate::All, true);
    let mut out: Vec<ProcEntry> = Vec::new();
    for (pid, p) in sys.processes() {
        out.push(
            ProcEntry {
                pid: pid.as_u32(),
                name: p.name().to_string_lossy().into_owned(),
                start_time: p.start_time(),
            },
        );
    }
    out
}

/// Relies on proc_maps's `get_process_maps` for the process's memory map,
/// and on `MapRange::filename`, `MapRange::start`, `MapRange::size` and
/// `MapRange::is_read` for each region's fields. The map depends on the
/// running process, so nothing is promised of the result.
#[verifier::external_body]
fn os_process_maps(pid: u32) -> (r: Result<Vec<RegionEntry>, ()>) {
    let maps = proc_maps::get_process_maps(pid as proc_maps::Pid).map_err(|_| ())?;
    let mut out: Vec<RegionEntry> = Vec::new();
    for m in maps {
        out.push(
            RegionEntry {
                filename: m.filename().map(|p| p.to_string_lossy().into_owned()),
                base: m.start() as u64,
                size: m.size() as u64,
                readable: m.is_read(),
            },
        );
    }
    Ok(out)
}

/// Relies on sysinfo's `System::refresh_processes`, `System::process` and
/// `Process::exe` to report the executable path of one process, when the
/// operating system still knows it.
#[verifier::external_body]
fn os_process_exe(pid: u32) -> (r: Option<String>) {
    let mut sys = sysinfo::System::new();
    let pids = [sysinfo::Pid::from_u32(pid)];
    sys.refresh_processes(sysinfo::ProcessesToUpdate::Some(&pids), false);
    let p = sys.process(sysinfo::Pid::from_u32(pid))?;
    Some(p.exe()?.to_string_lossy().into_owned())
}

/// Relies on read_process_memory's `ProcessHandle::try_from` to acquire a
/// read-capable cross-process handle for the pid.
#[verifier::external_body]
fn os_open_handle(pid: u32) -> (r: Result<read_process_memory::ProcessHandle, ()>) {
    read_process_memory::ProcessHandle::try_from(pid as read_process_memory::Pid).map_err(|_| ())
}

/// Relies on read_process_memory's `CopyAddress::copy_address` to copy
/// `buf.len()` bytes starting at `addr` out of the target's address space.
/// A slice cannot change length, and on failure the target's bytes are
/// unknown anyway, so only the length is promised; the bytes themselves
/// depend on the running process.
#[verifier::external_body]
fn os_copy_memory(
    handle: &read_process_memory::ProcessHandle,
    addr: u64,
    buf: &mut Vec<u8>,
) -> (r: Result<(), ()>)
    ensures
        final(buf)@.len() == old(buf)@.len(),
{
    handle.copy_address(addr as usize, buf.as_mut_slice()).map_err(|_| ())
}

/// The base address of the first module in the list whose name equals
/// `name`; `None` when no module carries the name.
pub open spec fn module_lookup(mods: Seq<(String, u64)>, name: Seq<char>) -> Option<u64>
    decreases mods.len(),
{
    if mods.len() == 0 {
        None
    } else if mods[0].0@ == name {
        Some(mods[0].1)
    } else {
        module_lookup(mods.drop_first(), name)
    }
}

/// Whether some module in the list carries the name.
pub open spec fn has_module(mods: Seq<(String, u64)>, name: Seq<char>) -> bool {
    module_lookup(mods, name) is Some
}

/// The module map built from a memory map: every region that maps a file
/// contributes its path and base address, the first region seen under a
/// name wins.
pub open spec fn modules_of(regs: Seq<RegionEntry>, acc: Seq<(String, u64)>) -> Seq<(String, u64)>
    decreases regs.len(),
{
    if regs.len() == 0 {
        acc
    } else {
        let acc2 = match regs[0].filename {
            Some(n) => if has_module(acc, n@) {
                acc
            } else {
                acc.push((n, regs[0].base))
            },
            None => acc,
        };
        modules_of(regs.drop_first(), acc2)
    }
}

/// True exactly when some module in the list carries the name.
fn has_module_exec(mods: &Vec<(String, u64)>, name: &String) -> (b: bool)
    ensures
        b == has_module(mods@, name@),
{
    let count = mods.len();
    let mut i: usize = 0;
    proof {
        assert(mods@.skip(0) =~= mods@);
    }
    while i < count
        invariant
            count == mods@.len(),
            i <= count,
            module_lookup(mods@, name@) == module_lookup(mods@.skip(i as int), name@),
        decreases count - i,
    {
        proof {
            assert(mods@.skip(i as int).drop_first() =~= mods@.skip(i + 1));
            assert(mods@.skip(i as int)[0] == mods@[i as int]);
        }
        if mods[i].0 == *name {
            return true;
        }
        i = i + 1;
    }
    proof {
        assert(mods@.skip(count as int) =~= Seq::<(String, u64)>::empty());
    }
    false
}

/// Folds a memory map into the module map, first-seen name wins.
fn build_modules(regions: Vec<RegionEntry>) -> (mods: Vec<(String, u64)>)
    ensures
        mods@ == modules_of(regions@, Seq::<(String, u64)>::empty()),
{
    let ghost all = regions@;
    let mut mods: Vec<(String, u64)> = Vec::new();
    let mut rest = regions;
    let count = rest.len();
    let mut i: usize = 0;
    proof {
        assert(all.skip(0) =~= all);
    }
    while i < count
        invariant
            count == all.len(),
            rest@ == all,
            i <= count,
            modules_of(all, Seq::<(String, u64)>::empty()) == modules_of(
                all.skip(i as int),
                mods@,
            ),
        decreases count - i,
    {
        proof {
            assert(all.skip(i as int).drop_first() =~= all.skip(i + 1));
            assert(all.skip(i as int)[0] == all[i as int]);
        }
        let entry = &rest[i];
        match &entry.filename {
            Some(n) => {
                if !has_module_exec(&mods, n) {
                    let owned = n.clone();
                    proof {
                        assert(owned@ == all[i as int].filename->Some_0@);
                    }
                    mods.push((owned, entry.base));
                    proof {
                        let prev = mods@.drop_last();
                        assert(prev.push((owned, entry.base)) =~= mods@);
                        assert(mods@ =~= prev.push(
                            (all[i as int].filename->Some_0, all[i as int].base),
                        ));
                    }
                }
            },
            None => {},
        }
        i = i + 1;
    }
    proof {
        assert(all.skip(count as int) =~= Seq::<RegionEntry>::empty());
    }
    mods
}

/// A hooked target process: its pid, a read handle, the module map built
/// when the process was opened, and the pointer width used for path walks.
pub struct Process {
    /// Process id.
    pub pid: u32,
    /// Read-capable cross-process handle, opaque to the core.
    pub handle: read_process_memory::ProcessHandle,
    /// Module name to base address, first-seen name wins.
    pub modules: Vec<(String, u64)>,
    /// Pointer width used during path walks.
    pub bitness: Bitness,
}

/// Picks the process a name resolves to from a process list: the entry
/// whose name matches and whose start time is the greatest, the earliest
/// listed winning among entries started at the same time. `None` when no
/// entry carries the name.
pub fn select_newest(procs: &Vec<ProcEntry>, name: &str) -> (r: Option<usize>)
    ensures
        match r {
            Some(i) => {
                &&& i < procs@.len()
                &&& procs@[i as int].name@ == name@
                &&& forall|j: int|
                    0 <= j < procs@.len() && (#[trigger] procs@[j]).name@ == name@
                        ==> procs@[j].start_time <= procs@[i as int].start_time
                &&& forall|j: int|
                    0 <= j < i && (#[trigger] procs@[j]).name@ == name@ ==> procs@[j].start_time
                        < procs@[i as int].start_time
            },
            None => forall|j: int| 0 <= j < procs@.len() ==> (#[trigger] procs@[j]).name@ != name@,
        },
{
    let owned = name.to_owned();
    let count = procs.len();
    let mut best: Option<usize> = None;
    let mut i: usize = 0;
    while i < count
        invariant
            count == procs@.len(),
            i <= count,
            owned@ == name@,
            match best {
                Some(b) => {
                    &&& b < i
                    &&& procs@[b as int].name@ == name@
                    &&& forall|j: int|
                        0 <= j < i && (#[trigger] procs@[j]).name@ == name@ ==> procs@[j].start_time
                            <= procs@[b as int].start_time
                    &&& forall|j: int|
                        0 <= j < b && (#[trigger] procs@[j]).name@ == name@ ==> procs@[j].start_time
                            < procs@[b as int].start_time
                },
                None => forall|j: int| 0 <= j < i ==> (#[trigger] procs@[j]).name@ != name@,
            },
        decreases count - i,
    {
        if procs[i].name == owned {
            match best {
                Some(b) => {
                    if procs[i].start_time > procs[b].start_time {
                        best = Some(i);
                    }
                },
                None => {
                    best = Some(i);
                },
            }
        }
        i = i + 1;
    }
    best
}

impl Process {
    /// Resolves the running process with the given executable name. Among
    /// all processes carrying the name, the one started latest wins; the
    /// earliest-listed wins among those started in the same second.
    pub fn with_name(name: &str) -> (r: Result<Process, ProcessError>)
        ensures
            r matches Ok(p) ==> p.bitness == Bitness::Bits64,
            r matches Err(e) ==> e == ProcessError::ProcessDoesntExist,
    {
        let procs = os_list_processes();
        match select_newest(&procs, name) {
            Some(best) => Process::with_pid(procs[best].pid),
            None => Err(ProcessError::ProcessDoesntExist),
        }
    }

    /// Opens the process with the given pid: acquires a read handle and
    /// builds the module map from the process's memory map, first-seen
    /// name wins. Path walks assume a 64-bit target until told otherwise.
    pub fn with_pid(pid: u32) -> (r: Result<Process, ProcessError>)
        ensures
            r matches Ok(p) ==> p.bitness == Bitness::Bits64 && p.pid == pid,
            r matches Err(e) ==> e == ProcessError::ProcessDoesntExist,
    {
        let regions = match os_process_maps(pid) {
            Ok(regions) => regions,
            Err(_) => {
                return Err(ProcessError::ProcessDoesntExist);
            },
        };
        let handle = match os_open_handle(pid) {
            Ok(handle) => handle,
            Err(_) => {
                return Err(ProcessError::ProcessDoesntExist);
            },
        };
        let modules = build_modules(regions);
        Ok(Process { pid, handle, modules, bitness: Bitness::Bits64 })
    }

    /// Sets the pointer width used during path walks, for targets whose
    /// width differs from the default.
    pub fn set_bitness(&mut self, bitness: Bitness)
        ensures
            final(self).bitness == bitness,
            final(self).pid == old(self).pid,
            final(self).modules@ == old(self).modules@,
    {
        self.bitness = bitness;
    }

    /// The executable path of the process, when the operating system still
    /// knows it.
    pub fn path(&self) -> (r: Option<String>) {
        os_process_exe(self.pid)
    }

    /// The base address of the named module: the first region of that name
    /// in the module map, or `ModuleDoesntExist`.
    pub fn module_address(&self, module: &str) -> (r: Result<u64, ProcessError>)
        ensures
            match module_lookup(self.modules@, module@) {
                Some(base) => r == Ok::<u64, ProcessError>(base),
                None => r == Err::<u64, ProcessError>(ProcessError::ModuleDoesntExist),
            },
    {
        lookup_module(&self.modules, module)
    }

    /// Copies `buf.len()` bytes starting at `address` out of the target.
    /// The buffer keeps its length; on any failure the error is
    /// `ReadMemory`.
    pub fn read_buf(&self, address: u64, buf: &mut Vec<u8>) -> (r: Result<(), ProcessError>)
        ensures
            final(buf)@.len() == old(buf)@.len(),
            r matches Err(e) ==> e == ProcessError::ReadMemory,
    {
        match os_copy_memory(&self.handle, address, buf) {
            Ok(_) => Ok(()),
            Err(_) => Err(ProcessError::ReadMemory),
        }
    }

    /// Reads exactly `n` bytes starting at `address` out of the target.
    pub fn read_bytes(&self, address: u64, n: usize) -> (r: Result<Vec<u8>, ProcessError>)
        ensures
            r matches Ok(v) ==> v@.len() == n,
            r matches Err(e) ==> e == ProcessError::ReadMemory,
    {
        let mut buf: Vec<u8> = Vec::new();
        let mut i: usize = 0;
        while i < n
            invariant
                buf@.len() == i,
                i <= n,
            decreases n - i,
        {
            buf.push(0);
            i = i + 1;
        }
        match self.read_buf(address, &mut buf) {
            Ok(_) => Ok(buf),
            Err(e) => Err(e),
        }
    }

    /// Reads a typed leaf value at `address` and decodes it little-endian.
    /// The reserved string kind is not implemented.
    pub fn read(&self, address: u64, kind: PointerKind) -> (r: Result<PointerValue, ProcessError>)
        ensures
            r matches Ok(v) ==> kind_of_value(v) == kind,
            kind == PointerKind::Str ==> r == Err::<PointerValue, ProcessError>(
                ProcessError::Unimplemented,
            ),
            r matches Err(e) ==> (e == ProcessError::ReadMemory || e
                == ProcessError::Unimplemented),
    {
        read_leaf(&MemoryReader::Live(self), address, kind)
    }

    /// Scans the target's readable memory regions for the first match of
    /// the signature; regions that cannot be read are skipped rather than
    /// aborting the scan. `Ok(None)` when nothing matches; in particular
    /// an empty pattern never matches.
    pub fn scan_signature(&self, signature: &str) -> (r: Result<Option<u64>, ProcessError>)
        ensures
            r matches Ok(a) && a is Some ==> pair_bytes(
                sig_nibbles(signature.spec_bytes()),
            ).len() >= 1,
            r matches Err(e) ==> e == ProcessError::ProcessDoesntExist,
    {
        let sig = Signature::new(signature);
        let regions = match os_process_maps(self.pid) {
            Ok(regions) => regions,
            Err(_) => {
                return Err(ProcessError::ProcessDoesntExist);
            },
        };
        let count = regions.len();
        let mut i: usize = 0;
        while i < count
            invariant
                sig.wf(),
                sig.bytes@ == pair_bytes(sig_nibbles(signature.spec_bytes())),
                count == regions@.len(),
                i <= count,
            decreases count - i,
        {
            let region = &regions[i];
            if region.readable && region.size > 0 && region.size <= usize::MAX as u64 {
                let len = region.size as usize;
                match self.read_bytes(region.base, len) {
                    Ok(buf) => {
                        match sig.scan(buf.as_slice()) {
                            Some(idx) => {
                                if idx as u64 <= u64::MAX - region.base {
                                    return Ok(Some(region.base + idx as u64));
                                }
                            },
                            None => {},
                        }
                    },
                    Err(_) => {},
                }
            }
            i = i + 1;
        }
        Ok(None)
    }
}

/// The base address of the first module in the map whose name equals
/// `module`, or `ModuleDoesntExist`.
pub fn lookup_module(mods: &Vec<(String, u64)>, module: &str) -> (r: Result<u64, ProcessError>)
    ensures
        match module_lookup(mods@, module@) {
            Some(base) => r == Ok::<u64, ProcessError>(base),
            None => r == Err::<u64, ProcessError>(ProcessError::ModuleDoesntExist),
        },
{
    let owned = module.to_owned();
    let count = mods.len();
    let mut i: usize = 0;
    proof {
        assert(mods@.skip(0) =~= mods@);
    }
    while i < count
        invariant
            count == mods@.len(),
            i <= count,
            module_lookup(mods@, module@) == module_lookup(mods@.skip(i as int), module@),
            owned@ == module@,
        decreases count - i,
    {
        proof {
            assert(mods@.skip(i as int).drop_first() =~= mods@.skip(i + 1));
            assert(mods@.skip(i as int)[0] == mods@[i as int]);
        }
        if mods[i].0 == owned {
            return Ok(mods[i].1);
        }
        i = i + 1;
    }
    proof {
        assert(mods@.skip(count as int) =~= Seq::<(String, u64)>::empty());
    }
    Err(ProcessError::ModuleDoesntExist)
}

/// A modelled stand-in for a hooked target: a memory image, a module map
/// and a pointer width. Path walks against it are pinned down exactly by
/// the contracts.
pub struct ImageTarget {
    /// The readable memory.
    pub image: MemoryImage,
    /// Module name to base address, first name wins.
    pub modules: Vec<(String, u64)>,
    /// Pointer width used during path walks.
    pub bitness: Bitness,
}

/// Where a path walk reads its bytes from: a modelled image target, whose
/// reads the contracts pin down exactly, or the hooked live process.
pub enum MemoryReader<'a> {
    /// A modelled image target.
    Image(&'a ImageTarget),
    /// A hooked live process, walked at its own pointer width.
    Live(&'a Process),
}

impl<'a> MemoryReader<'a> {
    /// The pointer width this reader walks with.
    pub open spec fn bitness_spec(self) -> Bitness {
        match self {
            MemoryReader::Image(t) => t.bitness,
            MemoryReader::Live(p) => p.bitness,
        }
    }

    /// Whether this reader reads from a modelled image.
    pub open spec fn is_image(self) -> bool {
        self is Image
    }

    /// The modelled image, when there is one.
    pub open spec fn image(self) -> MemoryImage {
        self->Image_0.image
    }

    /// The module map consulted for module-relative path bases.
    pub open spec fn modules_spec(self) -> Seq<(String, u64)> {
        match self {
            MemoryReader::Image(t) => t.modules@,
            MemoryReader::Live(p) => p.modules@,
        }
    }

    /// The pointer width this reader walks with.
    pub fn bitness(&self) -> (w: Bitness)
        ensures
            w == self.bitness_spec(),
    {
        match self {
            MemoryReader::Image(t) => t.bitness,
            MemoryReader::Live(p) => p.bitness,
        }
    }

    /// The base address of the named module in this reader's module map.
    pub fn module_base(&self, module: &str) -> (r: Result<u64, ProcessError>)
        ensures
            match module_lookup(self.modules_spec(), module@) {
                Some(base) => r == Ok::<u64, ProcessError>(base),
                None => r == Err::<u64, ProcessError>(ProcessError::ModuleDoesntExist),
            },
    {
        match self {
            MemoryReader::Image(t) => lookup_module(&t.modules, module),
            MemoryReader::Live(p) => p.module_address(module),
        }
    }

    /// Reads exactly `n` bytes at `addr`. Against an image the result is
    /// exactly what `image_read` yields; against a live process the bytes
    /// depend on the running target.
    pub fn read_bytes(&self, addr: u64, n: usize) -> (r: Result<Vec<u8>, ProcessError>)
        ensures
            r matches Ok(v) ==> v@.len() == n,
            r matches Err(e) ==> e == ProcessError::ReadMemory,
            self.is_image() ==> match image_read(self.image(), addr as int, n as int) {
                Some(s) => r matches Ok(v) && v@ == s,
                None => r is Err,
            },
    {
        match self {
            MemoryReader::Image(t) => match t.image.read_bytes(addr, n) {
                Some(v) => Ok(v),
                None => Err(ProcessError::ReadMemory),
            },
            MemoryReader::Live(p) => p.read_bytes(addr, n),
        }
    }
}

/// The value address a pointer-path walk resolves to against a modelled
/// image: each offset but the last is added at the pointer width and the
/// result dereferenced little-endian; the last is only added. With no
/// offsets the resolved address is the base itself. `None` when a
/// dereference falls outside the image.
pub open spec fn spec_walk_from(
    img: MemoryImage,
    addr: u64,
    offs: Seq<i64>,
    i: int,
    w: Bitness,
) -> Option<u64>
    decreases offs.len() - i,
{
    if i < 0 || i >= offs.len() {
        Some(addr)
    } else {
        let stepped = truncate_to_width(addr + offs[i], w);
        if i == offs.len() - 1 {
            Some(stepped)
        } else {
            match image_read(img, stepped as int, pointer_size(w) as int) {
                Some(bytes) => spec_walk_from(img, pointer_from_le(bytes, w), offs, i + 1, w),
                None => None,
            }
        }
    }
}

/// The value address a pointer-path walk resolves to against a modelled
/// image, starting from the path's base address.
pub open spec fn spec_walk(img: MemoryImage, base: u64, offs: Seq<i64>, w: Bitness) -> Option<
    u64,
> {
    spec_walk_from(img, base, offs, 0, w)
}

/// Walks a pointer path from `base` through `offsets`: every offset but
/// the last is added, wrapping at the pointer width, and the result
/// dereferenced as a little-endian pointer; the last offset is only
/// added. Against an image the outcome equals `spec_walk` exactly.
pub fn eval_path_address(reader: &MemoryReader, base: u64, offsets: &Vec<i64>) -> (r: Result<
    u64,
    ProcessError,
>)
    ensures
        r matches Err(e) ==> e == ProcessError::ReadMemory,
        reader.is_image() ==> match spec_walk(
            reader.image(),
            base,
            offsets@,
            reader.bitness_spec(),
        ) {
            Some(a) => r == Ok::<u64, ProcessError>(a),
            None => r is Err,
        },
{
    let w = reader.bitness();
    let count = offsets.len();
    if count == 0 {
        return Ok(base);
    }
    let mut addr = base;
    let mut i: usize = 0;
    while i < count - 1
        invariant
            count == offsets@.len(),
            count >= 1,
            i <= count - 1,
            w == reader.bitness_spec(),
            reader.is_image() ==> spec_walk(reader.image(), base, offsets@, w) == spec_walk_from(
                reader.image(),
                addr,
                offsets@,
                i as int,
                w,
            ),
        decreases count - i,
    {
        let stepped = step_address(addr, offsets[i], w);
        let bytes = match reader.read_bytes(stepped, pointer_size_exec(w)) {
            Ok(bytes) => bytes,
            Err(e) => {
                return Err(e);
            },
        };
        addr = pointer_from_bytes(bytes.as_slice(), w);
        i = i + 1;
    }
    let last = step_address(addr, offsets[count - 1], w);
    Ok(last)
}

/// Reads and decodes the typed leaf at a resolved value address. Against
/// an image the value is exactly the little-endian decoding of the
/// `size_of_kind` bytes there. The reserved string kind is not
/// implemented.
pub fn read_leaf(reader: &MemoryReader, addr: u64, kind: PointerKind) -> (r: Result<
    PointerValue,
    ProcessError,
>)
    ensures
        r matches Ok(v) ==> kind_of_value(v) == kind,
        kind == PointerKind::Str ==> r == Err::<PointerValue, ProcessError>(
            ProcessError::Unimplemented,
        ),
        r matches Err(e) ==> (e == ProcessError::ReadMemory || e == ProcessError::Unimplemented),
        reader.is_image() && kind != PointerKind::Str ==> match image_read(
            reader.image(),
            addr as int,
            size_of_kind(kind) as int,
        ) {
            Some(s) => r == Ok::<PointerValue, ProcessError>(spec_decode(kind, s)),
            None => r == Err::<PointerValue, ProcessError>(ProcessError::ReadMemory),
        },
{
    if kind == PointerKind::Str {
        return Err(ProcessError::Unimplemented);
    }
    let n = kind.byte_size();
    let bytes = match reader.read_bytes(addr, n) {
        Ok(bytes) => bytes,
        Err(e) => {
            return Err(e);
        },
    };
    Ok(decode_value(kind, bytes.as_slice()))
}

} // verus!
