use cdrive_manager::mft::{
    apply_update_sequence_array, check_volume_data, estimated_record_count, file_record_from_reply,
    file_record_request_error, filename_namespace_score, filetime_to_unix_secs, is_drive_root_path, parse_mft_record,
    read_u16, read_u32, read_u64, validate_mft_target, windows_error_hint, MftNodes, MftPrivilegeStatus,
    MftRecordInfo,
};

fn put16(d: &mut [u8], o: usize, v: u16) {
    d[o..o + 2].copy_from_slice(&v.to_le_bytes());
}
fn put32(d: &mut [u8], o: usize, v: u32) {
    d[o..o + 4].copy_from_slice(&v.to_le_bytes());
}
fn put64(d: &mut [u8], o: usize, v: u64) {
    d[o..o + 8].copy_from_slice(&v.to_le_bytes());
}

/// A 1024-byte file record with a standard-information, a file-name and a data attribute,
/// protected by an update sequence array of three entries (sectors of 512 bytes).
fn sample_record(name: &str, parent: u64, flags: u16, size: u64, namespace: u8) -> Vec<u8> {
    let mut d = vec![0u8; 1024];
    put32(&mut d, 0, 0x454C_4946);
    put16(&mut d, 4, 48); // update sequence array offset
    put16(&mut d, 6, 3); // its entry count
    put16(&mut d, 20, 56); // first attribute
    put16(&mut d, 22, flags);
    put32(&mut d, 24, 1024); // bytes in use
    let mut off = 56;
    // standard information: resident, value of 48 bytes at value offset 24
    put32(&mut d, off, 0x10);
    put32(&mut d, off + 4, 72);
    put32(&mut d, off + 16, 48);
    put16(&mut d, off + 20, 24);
    put64(&mut d, off + 24 + 8, 132_000_000_000_000_000); // modification FILETIME
    put32(&mut d, off + 24 + 32, 0x20);
    off += 72;
    // file name: resident, value of 66 + 2n bytes at value offset 24
    let units: Vec<u16> = name.encode_utf16().collect();
    let value_len = 66 + 2 * units.len();
    let attr_len = (24 + value_len + 7) / 8 * 8;
    put32(&mut d, off, 0x30);
    put32(&mut d, off + 4, attr_len as u32);
    put32(&mut d, off + 16, value_len as u32);
    put16(&mut d, off + 20, 24);
    let v = off + 24;
    put64(&mut d, v, parent | (3u64 << 48));
    put64(&mut d, v + 48, size);
    d[v + 64] = units.len() as u8;
    d[v + 65] = namespace;
    for (i, u) in units.iter().enumerate() {
        put16(&mut d, v + 66 + 2 * i, *u);
    }
    off += attr_len;
    // data: non-resident, data size at offset 48
    put32(&mut d, off, 0x80);
    put32(&mut d, off + 4, 72);
    d[off + 8] = 1;
    put64(&mut d, off + 48, size);
    off += 72;
    put32(&mut d, off, 0xFFFF_FFFF);
    // update sequence: the last two bytes of each sector hold the check value, the real
    // bytes are saved in the array
    put16(&mut d, 48, 0x0101);
    let tail0 = [d[510], d[511]];
    let tail1 = [d[1022], d[1023]];
    d[50] = tail0[0];
    d[51] = tail0[1];
    d[52] = tail1[0];
    d[53] = tail1[1];
    put16(&mut d, 510, 0x0101);
    put16(&mut d, 1022, 0x0101);
    d
}

#[test]
fn little_endian_reads() {
    let d = [0x34u8, 0x12, 0x78, 0x56, 1, 0, 0, 0, 0, 0];
    assert_eq!(read_u16(&d, 0), Some(0x1234));
    assert_eq!(read_u32(&d, 0), Some(0x5678_1234));
    assert_eq!(read_u64(&d, 2), Some(0x0000_0001_5678));
    assert_eq!(read_u16(&d, 9), None);
    assert_eq!(read_u64(&d, 3), None);
}

#[test]
fn parses_a_file_record() {
    let record = sample_record("report.txt", 5, 0x0001, 4321, 1);
    let info: MftRecordInfo = parse_mft_record(42, &record, 512).unwrap();
    assert_eq!(info.record_number, 42);
    assert_eq!(info.file_name, "report.txt");
    assert_eq!(info.parent_record, 5);
    assert_eq!(info.file_size, 4321);
    assert!(!info.is_directory);
    assert_eq!(info.file_namespace_score, 4);
    assert_eq!(info.modification_time, Some(132_000_000_000_000_000));
}

#[test]
fn parses_a_directory_record_and_refuses_bad_ones() {
    let dir = sample_record("目录", 5, 0x0003, 0, 3);
    let info = parse_mft_record(7, &dir, 512).unwrap();
    assert!(info.is_directory);
    assert_eq!(info.file_name, "目录");
    assert_eq!(info.file_size, 0);

    let unused = sample_record("a", 5, 0x0000, 1, 1);
    assert!(parse_mft_record(8, &unused, 512).is_none());
    let mut bad = sample_record("a", 5, 0x0001, 1, 1);
    bad[0] = b'B';
    assert!(parse_mft_record(9, &bad, 512).is_none());
    assert!(parse_mft_record(9, &bad[..40], 512).is_none());
    let mut extension = sample_record("a", 5, 0x0001, 1, 1);
    put64(&mut extension, 32, 77);
    assert!(parse_mft_record(10, &extension, 512).is_none());
}

#[test]
fn update_sequence_restores_sector_tails() {
    let mut d = vec![0u8; 16];
    d[0] = 9;
    d[1] = 9;
    d[2] = 0xAA;
    d[3] = 0xBB;
    d[4] = 0xCC;
    d[5] = 0xDD;
    apply_update_sequence_array(&mut d, 0, 3, 8);
    assert_eq!(&d[6..8], &[0xAA, 0xBB]);
    assert_eq!(&d[14..16], &[0xCC, 0xDD]);
    let mut same = vec![1u8; 16];
    apply_update_sequence_array(&mut same, 2, 1, 8);
    assert_eq!(same, vec![1u8; 16]);
}

#[test]
fn namespace_scores_prefer_win32_names() {
    assert_eq!(filename_namespace_score(1), 4);
    assert_eq!(filename_namespace_score(3), 4);
    assert_eq!(filename_namespace_score(0), 3);
    assert_eq!(filename_namespace_score(2), 1);
    assert_eq!(filename_namespace_score(9), 2);
}

#[test]
fn filetimes_convert_to_unix_seconds() {
    assert_eq!(filetime_to_unix_secs(0), None);
    assert_eq!(filetime_to_unix_secs(116_444_736_000_000_000), Some(0));
    assert_eq!(filetime_to_unix_secs(116_444_736_010_000_000), Some(1));
    assert_eq!(filetime_to_unix_secs(100), None);
}

#[test]
fn drive_roots_are_recognised() {
    assert!(is_drive_root_path("C:\\", 'c'));
    assert!(is_drive_root_path(" c:/ ", 'C'));
    assert!(is_drive_root_path("D:", 'd'));
    assert!(!is_drive_root_path("C:\\Users", 'C'));
    assert!(!is_drive_root_path("D:\\", 'C'));
    assert!(validate_mft_target("C:\\", 'C').is_ok());
    assert_eq!(
        validate_mft_target("C:\\Users", 'c').unwrap_err(),
        "MFT 扫描只支持驱动器根目录（例如 C:\\），当前路径为 C:\\Users。请切换到驱动器根目录，或使用普通多线程扫描。"
    );
}

#[test]
fn messages_and_volume_checks() {
    assert_eq!(windows_error_hint(5), "访问被拒绝：请以管理员身份运行程序，再重试 MFT 高速扫描。");
    assert_eq!(windows_error_hint(3), "找不到指定卷：请确认扫描路径是存在的驱动器根目录，例如 C:\\。");
    assert_eq!(MftPrivilegeStatus::Elevated.label(), "管理员权限");
    assert_eq!(file_record_request_error(12, 5), "文件记录 12（错误码 5）");
    assert!(check_volume_data(1024, 512).is_ok());
    assert_eq!(check_volume_data(0, 512).unwrap_err(), "NTFS 卷信息无效：文件记录大小或扇区大小为 0");
    assert_eq!(estimated_record_count(1024 * 10 + 5, 1024), 10);
    assert_eq!(estimated_record_count(-5, 1024), 0);
}

#[test]
fn file_record_replies_are_cut_and_checked() {
    let mut output = vec![0u8; 12 + 1024 + 16];
    put64(&mut output, 0, 42 | (7u64 << 48));
    put32(&mut output, 8, 1024);
    output[12] = b'F';
    let (number, bytes) = file_record_from_reply(42, &output, 12 + 600, 1024).unwrap();
    assert_eq!(number, 42);
    assert_eq!(bytes.len(), 600);
    assert_eq!(bytes[0], b'F');
    assert_eq!(file_record_from_reply(42, &output, 12, 1024).unwrap_err(), "文件记录 42 返回数据过短");
    assert_eq!(file_record_from_reply(42, &output, 14, 1024).unwrap_err(), "文件记录 42 内容过短");
    put32(&mut output, 8, 0);
    assert_eq!(file_record_from_reply(42, &output, 600, 1024).unwrap_err(), "文件记录 42 长度为 0");
}

#[test]
fn full_paths_follow_parent_links() {
    let mut nodes = MftNodes::new();
    let root = parse_mft_record(5, &sample_record(".", 5, 0x0003, 0, 3), 512).unwrap();
    let users = parse_mft_record(40, &sample_record("Users", 5, 0x0003, 0, 1), 512).unwrap();
    let file = parse_mft_record(41, &sample_record("a.TXT", 40, 0x0001, 10, 1), 512).unwrap();
    let orphan = parse_mft_record(50, &sample_record("lost.bin", 99, 0x0001, 3, 1), 512).unwrap();
    nodes.insert(root);
    nodes.insert(users);
    nodes.insert(file);
    nodes.insert(orphan);
    assert_eq!(nodes.build_full_path(41, "C:\\").unwrap(), "C:\\Users\\a.TXT");
    assert_eq!(nodes.build_full_path(5, "C:\\").unwrap(), "C:\\");
    assert!(nodes.build_full_path(50, "C:\\").is_none());
    assert_eq!(nodes.kind_counts(), (2, 2));
    let (dirs, files) = nodes.listing("C:\\");
    assert_eq!(dirs, vec!["C:\\".to_owned(), "C:\\Users".to_owned()]);
    assert_eq!(files.len(), 1);
    assert_eq!(files[0].path, "C:\\Users\\a.TXT");
    assert_eq!(files[0].extension, ".txt");
    assert_eq!(files[0].size, 10);
    assert_eq!(files[0].modified, Some(132_000_000_000_000_000 / 10_000_000 - 11_644_473_600));
}
