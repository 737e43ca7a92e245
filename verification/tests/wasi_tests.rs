use livesplit_auto_splitting::wasi::{
    decode_seek, encode_fdstat, encode_filestat, encode_prestat_dir, fdstat_for, parse_iovec,
    prestat_dir_name_len, write_route, FileStat, FileSystem, LogChannel, SeekTarget, ERRNO_BADF,
    ERRNO_INVAL, ERRNO_SUCCESS, FILETYPE_DIRECTORY,
};

#[test]
fn descriptors_start_at_four_and_reuse_free_slots() {
    let mut fs: FileSystem<u32> = FileSystem::new();
    assert_eq!(fs.path_open(10), 4);
    assert_eq!(fs.path_open(20), 5);
    assert_eq!(fs.path_open(30), 6);
    assert_eq!(fs.fd_close(5), ERRNO_SUCCESS);
    assert_eq!(fs.path_open(40), 5);
    assert_eq!(fs.path_open(50), 7);
}

#[test]
fn closing_an_unknown_descriptor_is_refused() {
    let mut fs: FileSystem<u32> = FileSystem::new();
    assert_eq!(fs.fd_close(0), ERRNO_BADF);
    assert_eq!(fs.fd_close(3), ERRNO_BADF);
    assert_eq!(fs.fd_close(4), ERRNO_BADF);
    fs.path_open(10);
    assert_eq!(fs.fd_close(4), ERRNO_SUCCESS);
    assert_eq!(fs.fd_close(5), ERRNO_BADF);
}

#[test]
fn lookups_see_open_files_only() {
    let mut fs: FileSystem<u32> = FileSystem::new();
    let fd = fs.path_open(77);
    assert_eq!(fs.lookup(fd), Some(&77));
    assert_eq!(fs.lookup(3), None);
    assert_eq!(fs.lookup(fd + 1), None);
    fs.fd_close(fd);
    assert_eq!(fs.lookup(fd), None);
}

#[test]
fn standard_descriptors_route_to_the_logs() {
    assert_eq!(write_route(1), Ok(LogChannel::Info));
    assert_eq!(write_route(2), Ok(LogChannel::Error));
    assert_eq!(write_route(0), Err(ERRNO_BADF));
    assert_eq!(write_route(3), Err(ERRNO_BADF));
}

#[test]
fn only_the_preopened_directory_answers_metadata() {
    let stat = fdstat_for(3).unwrap();
    assert_eq!(stat.fs_filetype, FILETYPE_DIRECTORY);
    assert_eq!(stat.fs_flags, 0);
    assert_eq!(stat.fs_rights_base, 0x1FFFFFFF);
    assert_eq!(stat.fs_rights_inheriting, 0x1FFFFFFF);
    assert_eq!(fdstat_for(4).err(), Some(ERRNO_BADF));
    assert_eq!(prestat_dir_name_len(3), Ok(1));
    assert_eq!(prestat_dir_name_len(2), Err(ERRNO_BADF));
}

#[test]
fn io_vectors_parse_little_endian_pairs() {
    let mut data = vec![0u8; 16];
    data[8..12].copy_from_slice(&0x1000u32.to_le_bytes());
    data[12..16].copy_from_slice(&32u32.to_le_bytes());
    assert_eq!(parse_iovec(&data, 8), Some((0x1000, 32)));
    assert_eq!(parse_iovec(&data, 0), Some((0, 0)));
    assert_eq!(parse_iovec(&data, 9), None);
    assert_eq!(parse_iovec(&[], 0), None);
}

#[test]
fn descriptor_metadata_encodes_to_its_wire_layout() {
    let stat = fdstat_for(3).unwrap();
    let bytes = encode_fdstat(&stat);
    assert_eq!(bytes.len(), 24);
    assert_eq!(bytes[0], FILETYPE_DIRECTORY);
    assert_eq!(&bytes[2..4], &0u16.to_le_bytes());
    assert_eq!(&bytes[8..16], &0x1FFFFFFFu64.to_le_bytes());
    assert_eq!(&bytes[16..24], &0x1FFFFFFFu64.to_le_bytes());
}

#[test]
fn preopen_metadata_encodes_the_name_length() {
    let bytes = encode_prestat_dir(1);
    assert_eq!(bytes.len(), 8);
    assert_eq!(bytes[0], 0);
    assert_eq!(&bytes[4..8], &1u32.to_le_bytes());
}

#[test]
fn file_metadata_encodes_to_its_wire_layout() {
    let stat = FileStat {
        dev: 1,
        ino: 2,
        filetype: 4,
        nlink: 1,
        size: 0x1234,
        atim: 10,
        mtim: 20,
        ctim: 30,
    };
    let bytes = encode_filestat(&stat);
    assert_eq!(bytes.len(), 56);
    assert_eq!(&bytes[0..8], &1u64.to_le_bytes());
    assert_eq!(&bytes[8..16], &2u64.to_le_bytes());
    assert_eq!(bytes[16], 4);
    assert_eq!(&bytes[20..24], &1u32.to_le_bytes());
    assert_eq!(&bytes[24..32], &0x1234u64.to_le_bytes());
    assert_eq!(&bytes[32..40], &10u64.to_le_bytes());
    assert_eq!(&bytes[40..48], &20u64.to_le_bytes());
    assert_eq!(&bytes[48..56], &30u64.to_le_bytes());
}

#[test]
fn seek_requests_decode_by_whence() {
    assert_eq!(decode_seek(0, -8), Ok(SeekTarget::Current(-8)));
    assert_eq!(decode_seek(1, 16), Ok(SeekTarget::End(16)));
    assert_eq!(decode_seek(2, 32), Ok(SeekTarget::Start(32)));
    assert_eq!(decode_seek(2, -1), Ok(SeekTarget::Start(u64::MAX)));
    assert_eq!(decode_seek(3, 0), Err(ERRNO_INVAL));
}
