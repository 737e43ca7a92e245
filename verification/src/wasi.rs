//! Decision logic of the minimal guest-environment shim: the file
//! descriptor table behind the read-only file handles a guest may open,
//! the routing of the standard descriptors, the preopened directory, and
//! seek-argument decoding. The shim exists only so a conventionally
//! compiled guest can start; actual file and log input/output stays with
//! the embedder, which stores its open files in this table.
use vstd::bytes::{
    lemma_auto_spec_u16_to_from_le_bytes, lemma_auto_spec_u32_to_from_le_bytes,
    lemma_auto_spec_u64_to_from_le_bytes, spec_u16_to_le_bytes, spec_u32_from_le_bytes,
    spec_u32_to_le_bytes, spec_u64_to_le_bytes, u16_to_le_bytes, u32_from_le_bytes,
    u32_to_le_bytes, u64_to_le_bytes,
};
use vstd::prelude::*;
use vstd::slice::slice_subrange;

verus! {

/// Success.
pub const ERRNO_SUCCESS: u16 = 0;

/// Bad file descriptor.
pub const ERRNO_BADF: u16 = 8;

/// Invalid argument.
pub const ERRNO_INVAL: u16 = 28;

/// Input/output error.
pub const ERRNO_IO: u16 = 29;

/// Capability insufficient.
pub const ERRNO_NOTCAPABLE: u16 = 76;

/// Descriptor of the single preopened directory handle, named `/`.
pub const PREOPEN_DIR_FD: u32 = 3;

/// First descriptor handed out for files the guest opens; lower ones are
/// the standard descriptors and the preopened directory.
pub const FIRST_FILE_FD: u32 = 4;

/// Where a write to a standard descriptor goes.
#[derive(Clone, Copy, PartialEq, Eq, Structural, Debug)]
pub enum LogChannel {
    /// Descriptor 1: the information log.
    Info,
    /// Descriptor 2: the error log.
    Error,
}

/// Routes a write: descriptor 1 to the information log, 2 to the error
/// log, every other descriptor is refused with `ERRNO_BADF`.
pub fn write_route(fd: u32) -> (r: Result<LogChannel, u16>)
    ensures
        fd == 1 ==> r == Ok::<LogChannel, u16>(LogChannel::Info),
        fd == 2 ==> r == Ok::<LogChannel, u16>(LogChannel::Error),
        fd != 1 && fd != 2 ==> r == Err::<LogChannel, u16>(ERRNO_BADF),
{
    if fd == 1 {
        Ok(LogChannel::Info)
    } else if fd == 2 {
        Ok(LogChannel::Error)
    } else {
        Err(ERRNO_BADF)
    }
}

/// Length of the preopened directory's name, for the preopen metadata
/// call: the single directory is named `/`. Every other descriptor is
/// refused with `ERRNO_BADF`.
pub fn prestat_dir_name_len(fd: u32) -> (r: Result<u32, u16>)
    ensures
        fd == PREOPEN_DIR_FD ==> r == Ok::<u32, u16>(1),
        fd != PREOPEN_DIR_FD ==> r == Err::<u32, u16>(ERRNO_BADF),
{
    if fd == PREOPEN_DIR_FD {
        Ok(1)
    } else {
        Err(ERRNO_BADF)
    }
}

/// Where a seek is relative to, with its distance, decoded from the raw
/// whence byte: `0` the current position, `1` the end, `2` the start
/// (the start distance reinterprets the signed offset's bits). Other
/// whence values are invalid.
#[derive(Clone, Copy, PartialEq, Eq, Structural, Debug)]
pub enum SeekTarget {
    Current(i64),
    End(i64),
    Start(u64),
}

/// The unsigned 64-bit value with the same bit pattern as `x`.
pub open spec fn u64_of_i64_bits(x: i64) -> u64 {
    if x >= 0 {
        x as u64
    } else {
        (x + 0x1_0000_0000_0000_0000) as u64
    }
}

/// Decodes the whence byte and offset of a seek request.
pub fn decode_seek(whence: u8, offset: i64) -> (r: Result<SeekTarget, u16>)
    ensures
        whence == 0 ==> r == Ok::<SeekTarget, u16>(SeekTarget::Current(offset)),
        whence == 1 ==> r == Ok::<SeekTarget, u16>(SeekTarget::End(offset)),
        whence == 2 ==> r == Ok::<SeekTarget, u16>(SeekTarget::Start(u64_of_i64_bits(offset))),
        whence > 2 ==> r == Err::<SeekTarget, u16>(ERRNO_INVAL),
{
    if whence == 0 {
        Ok(SeekTarget::Current(offset))
    } else if whence == 1 {
        Ok(SeekTarget::End(offset))
    } else if whence == 2 {
        let bits = if offset >= 0 {
            offset as u64
        } else {
            ((offset as i128) + 0x1_0000_0000_0000_0000) as u64
        };
        Ok(SeekTarget::Start(bits))
    } else {
        Err(ERRNO_INVAL)
    }
}

/// Index of the first free slot in the table, or the table's length when
/// every slot is occupied.
pub open spec fn first_free<T>(files: Seq<Option<T>>, i: int) -> int
    decreases files.len() - i,
{
    if i < 0 || i >= files.len() {
        files.len() as int
    } else if files[i] is None {
        i
    } else {
        first_free(files, i + 1)
    }
}

/// The descriptor table of the shim's read-only file handles: slot `i`
/// backs descriptor `i + 4`. Opening fills the first free slot or
/// appends one; closing frees the slot; the standard descriptors and the
/// preopened directory never live here.
pub struct FileSystem<T> {
    /// The slots, `None` where the descriptor is closed.
    pub files: Vec<Option<T>>,
}

/// Index of the first free slot, the table's length when all are full.
fn find_free<T>(files: &Vec<Option<T>>) -> (r: usize)
    ensures
        r == first_free(files@, 0),
        r <= files@.len(),
{
    let count = files.len();
    let mut i: usize = 0;
    while i < count
        invariant
            count == files@.len(),
            i <= count,
            first_free(files@, 0) == first_free(files@, i as int),
        decreases count - i,
    {
        if files[i].is_none() {
            return i;
        }
        i = i + 1;
    }
    count
}

impl<T> FileSystem<T> {
    /// An empty table.
    pub fn new() -> (fs: FileSystem<T>)
        ensures
            fs.files@.len() == 0,
    {
        FileSystem { files: Vec::new() }
    }

    /// Stores a newly opened file in the first free slot, appending one
    /// when the table is full, and returns its descriptor: always at
    /// least `4`, and every other slot is untouched.
    pub fn path_open(&mut self, file: T) -> (fd: u32)
        requires
            old(self).files@.len() < 0xFFFF_0000,
        ensures
            fd >= FIRST_FILE_FD,
            fd - FIRST_FILE_FD == first_free(old(self).files@, 0),
            first_free(old(self).files@, 0) == old(self).files@.len() ==> final(self).files@
                == old(self).files@.push(Some(file)),
            first_free(old(self).files@, 0) < old(self).files@.len() ==> final(self).files@
                == old(self).files@.update(first_free(old(self).files@, 0), Some(file)),
    {
        let idx = find_free(&self.files);
        if idx < self.files.len() {
            self.files.set(idx, Some(file));
            (idx as u32) + FIRST_FILE_FD
        } else {
            self.files.push(Some(file));
            (idx as u32) + FIRST_FILE_FD
        }
    }

    /// Closes a descriptor: its slot is freed and every other slot is
    /// untouched. Descriptors outside the table are refused with
    /// `ERRNO_BADF`.
    pub fn fd_close(&mut self, fd: u32) -> (errno: u16)
        ensures
            fd >= FIRST_FILE_FD && fd - FIRST_FILE_FD < old(self).files@.len() ==> errno
                == ERRNO_SUCCESS && final(self).files@ == old(self).files@.update(
                fd - FIRST_FILE_FD,
                None,
            ),
            fd < FIRST_FILE_FD || fd - FIRST_FILE_FD >= old(self).files@.len() ==> errno
                == ERRNO_BADF && final(self).files@ == old(self).files@,
    {
        if fd < FIRST_FILE_FD {
            return ERRNO_BADF;
        }
        let idx = (fd - FIRST_FILE_FD) as usize;
        if idx >= self.files.len() {
            return ERRNO_BADF;
        }
        self.files.set(idx, None);
        ERRNO_SUCCESS
    }

    /// The open file behind a descriptor, `None` for a descriptor that
    /// is out of range or closed.
    pub fn lookup(&self, fd: u32) -> (r: Option<&T>)
        ensures
            match r {
                Some(file) => fd >= FIRST_FILE_FD && fd - FIRST_FILE_FD < self.files@.len()
                    && self.files@[fd - FIRST_FILE_FD] == Some(*file),
                None => fd < FIRST_FILE_FD || fd - FIRST_FILE_FD >= self.files@.len()
                    || self.files@[fd - FIRST_FILE_FD] is None,
            },
    {
        if fd < FIRST_FILE_FD {
            return None;
        }
        let idx = (fd - FIRST_FILE_FD) as usize;
        if idx >= self.files.len() {
            return None;
        }
        match &self.files[idx] {
            Some(file) => Some(file),
            None => None,
        }
    }
}

/// One guest i/o vector: a buffer pointer and a buffer length, eight
/// bytes in guest memory, both little-endian. `None` when the entry
/// does not lie within the memory.
pub fn parse_iovec(data: &[u8], at: usize) -> (r: Option<(u32, u32)>)
    ensures
        match r {
            Some(entry) => at + 8 <= data@.len() && entry.0 == spec_u32_from_le_bytes(
                data@.subrange(at as int, at + 4),
            ) && entry.1 == spec_u32_from_le_bytes(data@.subrange(at + 4, at + 8)),
            None => at + 8 > data@.len(),
        },
{
    let n = data.len();
    if n < 8 || at > n - 8 {
        return None;
    }
    let ptr = u32_from_le_bytes(slice_subrange(data, at, at + 4));
    let len = u32_from_le_bytes(slice_subrange(data, at + 4, at + 8));
    Some((ptr, len))
}

/// Metadata of an open descriptor, as the guest-environment call
/// reports it: plain integers, written into guest memory by the
/// embedder.
pub struct FdStat {
    /// File type code.
    pub fs_filetype: u8,
    /// Descriptor flags.
    pub fs_flags: u16,
    /// Rights of the descriptor.
    pub fs_rights_base: u64,
    /// Rights inherited by derived descriptors.
    pub fs_rights_inheriting: u64,
}

/// File type code of a directory.
pub const FILETYPE_DIRECTORY: u8 = 3;

/// Descriptor metadata: only the preopened directory is answered here,
/// as a directory with all rights; every other descriptor is refused
/// with `ERRNO_BADF`.
pub fn fdstat_for(fd: u32) -> (r: Result<FdStat, u16>)
    ensures
        fd == PREOPEN_DIR_FD ==> (r matches Ok(stat) && stat.fs_filetype == FILETYPE_DIRECTORY
            && stat.fs_flags == 0 && stat.fs_rights_base == 0x1FFFFFFF
            && stat.fs_rights_inheriting == 0x1FFFFFFF),
        fd != PREOPEN_DIR_FD ==> r == Err::<FdStat, u16>(ERRNO_BADF),
{
    if fd == PREOPEN_DIR_FD {
        Ok(
            FdStat {
                fs_filetype: FILETYPE_DIRECTORY,
                fs_flags: 0,
                fs_rights_base: 0x1FFFFFFF,
                fs_rights_inheriting: 0x1FFFFFFF,
            },
        )
    } else {
        Err(ERRNO_BADF)
    }
}

/// Encodes descriptor metadata into its twenty-four-byte wire layout:
/// the file type at offset zero, the flags little-endian at two, the
/// two rights fields little-endian at eight and sixteen, zero padding
/// elsewhere.
pub fn encode_fdstat(stat: &FdStat) -> (v: Vec<u8>)
    ensures
        v@.len() == 24,
        v@[0] == stat.fs_filetype,
        v@.subrange(2, 4) == spec_u16_to_le_bytes(stat.fs_flags),
        v@.subrange(8, 16) == spec_u64_to_le_bytes(stat.fs_rights_base),
        v@.subrange(16, 24) == spec_u64_to_le_bytes(stat.fs_rights_inheriting),
{
    proof {
        lemma_auto_spec_u16_to_from_le_bytes();
        lemma_auto_spec_u64_to_from_le_bytes();
    }
    let mut v: Vec<u8> = Vec::new();
    v.push(stat.fs_filetype);
    v.push(0);
    let mut flags = u16_to_le_bytes(stat.fs_flags);
    v.append(&mut flags);
    v.push(0);
    v.push(0);
    v.push(0);
    v.push(0);
    let mut base = u64_to_le_bytes(stat.fs_rights_base);
    v.append(&mut base);
    let mut inheriting = u64_to_le_bytes(stat.fs_rights_inheriting);
    v.append(&mut inheriting);
    proof {
        assert(v@.subrange(2, 4) =~= spec_u16_to_le_bytes(stat.fs_flags));
        assert(v@.subrange(8, 16) =~= spec_u64_to_le_bytes(stat.fs_rights_base));
        assert(v@.subrange(16, 24) =~= spec_u64_to_le_bytes(stat.fs_rights_inheriting));
    }
    v
}

/// Encodes the preopen metadata of the preopened directory into its
/// eight-byte wire layout: the directory tag at offset zero and the
/// name length little-endian at four.
pub fn encode_prestat_dir(name_len: u32) -> (v: Vec<u8>)
    ensures
        v@.len() == 8,
        v@[0] == 0,
        v@.subrange(4, 8) == spec_u32_to_le_bytes(name_len),
{
    proof {
        lemma_auto_spec_u32_to_from_le_bytes();
    }
    let mut v: Vec<u8> = Vec::new();
    v.push(0);
    v.push(0);
    v.push(0);
    v.push(0);
    let mut len = u32_to_le_bytes(name_len);
    v.append(&mut len);
    proof {
        assert(v@.subrange(4, 8) =~= spec_u32_to_le_bytes(name_len));
    }
    v
}

/// Metadata of an open file, as the guest-environment call reports it:
/// plain integers the embedder fills from the operating system.
pub struct FileStat {
    /// Device id.
    pub dev: u64,
    /// Inode number.
    pub ino: u64,
    /// File type code.
    pub filetype: u8,
    /// Number of hard links.
    pub nlink: u32,
    /// Size in bytes.
    pub size: u64,
    /// Access time, nanoseconds since the epoch.
    pub atim: u64,
    /// Modification time, nanoseconds since the epoch.
    pub mtim: u64,
    /// Creation time, nanoseconds since the epoch.
    pub ctim: u64,
}

/// Encodes file metadata into its fifty-six-byte wire layout: device
/// and inode at zero and eight, the file type at sixteen, the link
/// count at twenty, then size and the three timestamps, all
/// little-endian, zero padding elsewhere.
pub fn encode_filestat(stat: &FileStat) -> (v: Vec<u8>)
    ensures
        v@.len() == 56,
        v@.subrange(0, 8) == spec_u64_to_le_bytes(stat.dev),
        v@.subrange(8, 16) == spec_u64_to_le_bytes(stat.ino),
        v@[16] == stat.filetype,
        v@.subrange(20, 24) == spec_u32_to_le_bytes(stat.nlink),
        v@.subrange(24, 32) == spec_u64_to_le_bytes(stat.size),
        v@.subrange(32, 40) == spec_u64_to_le_bytes(stat.atim),
        v@.subrange(40, 48) == spec_u64_to_le_bytes(stat.mtim),
        v@.subrange(48, 56) == spec_u64_to_le_bytes(stat.ctim),
{
    proof {
        lemma_auto_spec_u32_to_from_le_bytes();
        lemma_auto_spec_u64_to_from_le_bytes();
    }
    let mut v: Vec<u8> = Vec::new();
    let mut dev = u64_to_le_bytes(stat.dev);
    v.append(&mut dev);
    let mut ino = u64_to_le_bytes(stat.ino);
    v.append(&mut ino);
    v.push(stat.filetype);
    v.push(0);
    v.push(0);
    v.push(0);
    let mut nlink = u32_to_le_bytes(stat.nlink);
    v.append(&mut nlink);
    let mut size = u64_to_le_bytes(stat.size);
    v.append(&mut size);
    let mut atim = u64_to_le_bytes(stat.atim);
    v.append(&mut atim);
    let mut mtim = u64_to_le_bytes(stat.mtim);
    v.append(&mut mtim);
    let mut ctim = u64_to_le_bytes(stat.ctim);
    v.append(&mut ctim);
    proof {
        assert(v@.subrange(0, 8) =~= spec_u64_to_le_bytes(stat.dev));
        assert(v@.subrange(8, 16) =~= spec_u64_to_le_bytes(stat.ino));
        assert(v@.subrange(20, 24) =~= spec_u32_to_le_bytes(stat.nlink));
        assert(v@.subrange(24, 32) =~= spec_u64_to_le_bytes(stat.size));
        assert(v@.subrange(32, 40) =~= spec_u64_to_le_bytes(stat.atim));
        assert(v@.subrange(40, 48) =~= spec_u64_to_le_bytes(stat.mtim));
        assert(v@.subrange(48, 56) =~= spec_u64_to_le_bytes(stat.ctim));
    }
    v
}

} // verus!
