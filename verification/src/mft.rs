//! Reading the NTFS master file table: the layout of a file record (its header, update
//! sequence fix-ups and the standard-information, file-name and data attributes), the
//! reply of the file-record request, and the assembly of full paths from parent links.
//! Opening the volume and issuing the requests is the caller's part.
use vstd::prelude::*;
use vstd::hash_map::HashMapWithView;
use crate::model::{file_by_path, file_extension_label, path_less, sort_files_by_path, spec_extension_label, FileRecord};
use crate::order::{key_lt, lemma_key_order};
use crate::organizer::{join_chars, join_path};
use crate::sorted::{is_sorted, merge_sort};
use crate::text::{chars_of, decimal, decimal_chars, push_all, push_lit, str_eq, string_from_chars, trim_chars};
use crate::winpath::path_order_text;

verus! {

/// `FILE`, read as a little-endian number: the signature of a file record.
pub const MFT_RECORD_SIGNATURE: u32 = 0x454C_4946;
/// Seconds from 1601-01-01 (the FILETIME epoch) to 1970-01-01.
pub const FILETIME_UNIX_DIFFERENCE: u64 = 11_644_473_600;
pub const FILE_ATTRIBUTE_DIRECTORY_FLAG: u32 = 0x10;
pub const MFT_RECORD_IN_USE: u16 = 0x0001;
pub const MFT_RECORD_IS_DIRECTORY: u16 = 0x0002;
/// The record number part of a file reference: its low 48 bits.
pub const FILE_REFERENCE_MASK: u64 = 0x0000_FFFF_FFFF_FFFF;
/// The record number of the volume's root directory.
pub const ROOT_FILE_REFERENCE: u64 = 5;
/// A progress report is considered every this many records.
pub const PROGRESS_RECORD_INTERVAL: u64 = 4096;
/// Bytes before the record in the reply to a file-record request.
pub const FILE_RECORD_REPLY_HEADER: usize = 12;
/// How many parent links a path follows at most.
pub const MAX_PATH_DEPTH: usize = 1024;

// ---------------------------------------------------------------------------------------
// Little-endian fields

/// The little-endian 16-bit number at `o`.
pub open spec fn le16(d: Seq<u8>, o: int) -> u16 {
    (d[o] as int + 256 * (d[o + 1] as int)) as u16
}

/// The little-endian 32-bit number at `o`.
pub open spec fn le32(d: Seq<u8>, o: int) -> u32 {
    (le16(d, o) as int + 65536 * (le16(d, o + 2) as int)) as u32
}

/// The little-endian 64-bit number at `o`.
pub open spec fn le64(d: Seq<u8>, o: int) -> u64 {
    (le32(d, o) as int + 4294967296 * (le32(d, o + 4) as int)) as u64
}

/// The 16-bit number at `offset`, when two bytes are there.
pub fn read_u16(data: &[u8], offset: usize) -> (r: Option<u16>)
    ensures
        r is Some == (offset + 2 <= data@.len()),
        r matches Some(v) ==> v == le16(data@, offset as int),
{
    if offset > data.len() || data.len() - offset < 2 {
        return None;
    }
    let lo = data[offset] as u16;
    let hi = data[offset + 1] as u16;
    Some(lo + hi * 256)
}

/// The 32-bit number at `offset`, when four bytes are there.
pub fn read_u32(data: &[u8], offset: usize) -> (r: Option<u32>)
    ensures
        r is Some == (offset + 4 <= data@.len()),
        r matches Some(v) ==> v == le32(data@, offset as int),
{
    if offset > data.len() || data.len() - offset < 4 {
        return None;
    }
    let lo = read_u16(data, offset).unwrap() as u32;
    let hi = read_u16(data, offset + 2).unwrap() as u32;
    Some(lo + hi * 65536)
}

/// The 64-bit number at `offset`, when eight bytes are there.
pub fn read_u64(data: &[u8], offset: usize) -> (r: Option<u64>)
    ensures
        r is Some == (offset + 8 <= data@.len()),
        r matches Some(v) ==> v == le64(data@, offset as int),
{
    if offset > data.len() || data.len() - offset < 8 {
        return None;
    }
    let lo = read_u32(data, offset).unwrap() as u64;
    let hi = read_u32(data, offset + 4).unwrap() as u64;
    Some(lo + hi * 4294967296)
}

/// The record number of a file reference.
pub open spec fn record_of(reference: u64) -> u64 {
    reference & FILE_REFERENCE_MASK
}

// ---------------------------------------------------------------------------------------
// Times, privileges and errors

/// A FILETIME (100 ns ticks since 1601) as whole seconds since 1970; none for zero or
/// for times before 1970.
pub open spec fn spec_filetime_secs(filetime: u64) -> Option<u64> {
    let seconds = filetime / 10_000_000;
    if filetime == 0 || seconds < FILETIME_UNIX_DIFFERENCE {
        None
    } else {
        Some((seconds - FILETIME_UNIX_DIFFERENCE) as u64)
    }
}

/// A FILETIME as whole seconds since 1970.
pub fn filetime_to_unix_secs(filetime: u64) -> (r: Option<u64>)
    ensures
        r == spec_filetime_secs(filetime),
{
    if filetime == 0 {
        return None;
    }
    let seconds = filetime / 10_000_000;
    if seconds < FILETIME_UNIX_DIFFERENCE {
        return None;
    }
    Some(seconds - FILETIME_UNIX_DIFFERENCE)
}

/// Whether the process runs with administrator rights.
#[derive(Debug, Clone, Copy, PartialEq, Eq, Structural)]
pub enum MftPrivilegeStatus {
    Elevated,
    NotElevated,
}

impl MftPrivilegeStatus {
    /// The status as shown to the user.
    pub fn label(self) -> (r: &'static str)
        ensures
            r@ == (match self {
                MftPrivilegeStatus::Elevated => "管理员权限"@,
                MftPrivilegeStatus::NotElevated => "非管理员权限"@,
            }),
    {
        match self {
            MftPrivilegeStatus::Elevated => "管理员权限",
            MftPrivilegeStatus::NotElevated => "非管理员权限",
        }
    }
}

/// What to try after a Windows error code.
pub fn windows_error_hint(error: u32) -> (r: &'static str)
    ensures
        r@ == (if error == 5 {
            "访问被拒绝：请以管理员身份运行程序，再重试 MFT 高速扫描。"@
        } else if error == 2 || error == 3 {
            "找不到指定卷：请确认扫描路径是存在的驱动器根目录，例如 C:\\。"@
        } else if error == 21 {
            "设备未就绪：请确认目标驱动器已挂载且可访问。"@
        } else if error == 32 {
            "卷正被其他进程独占使用：请关闭磁盘工具或安全软件后重试。"@
        } else if error == 87 {
            "参数不正确：请确认目标是 NTFS 驱动器根目录。"@
        } else if error == 50 {
            "系统不支持该请求：目标可能不是 NTFS 卷。"@
        } else {
            "可先尝试以管理员身份运行；如果仍失败，请确认目标是本机 NTFS 驱动器根目录。"@
        }),
{
    match error {
        5 => "访问被拒绝：请以管理员身份运行程序，再重试 MFT 高速扫描。",
        2 | 3 => "找不到指定卷：请确认扫描路径是存在的驱动器根目录，例如 C:\\。",
        21 => "设备未就绪：请确认目标驱动器已挂载且可访问。",
        32 => "卷正被其他进程独占使用：请关闭磁盘工具或安全软件后重试。",
        87 => "参数不正确：请确认目标是 NTFS 驱动器根目录。",
        50 => "系统不支持该请求：目标可能不是 NTFS 卷。",
        _ => "可先尝试以管理员身份运行；如果仍失败，请确认目标是本机 NTFS 驱动器根目录。",
    }
}

/// ASCII upper case of a character.
pub open spec fn upper_char(c: char) -> char {
    if 'a' <= c <= 'z' {
        ((c as u32) - 32) as char
    } else {
        c
    }
}

fn to_upper_char(c: char) -> (r: char)
    ensures
        r == upper_char(c),
{
    if 'a' <= c && c <= 'z' {
        let v: u32 = (c as u32) - 32;
        crate::text::ascii_char(v)
    } else {
        c
    }
}

/// The text without its trailing `\`s.
pub open spec fn trim_trailing_backslashes(s: Seq<char>) -> Seq<char>
    decreases s.len(),
{
    if s.len() > 0 && s.last() == '\\' {
        trim_trailing_backslashes(s.drop_last())
    } else {
        s
    }
}

/// The root is `X:`, `X:\` (or with `/`, surrounding blanks, repeated separators) for the
/// drive letter `X`, in either case.
pub open spec fn spec_is_drive_root_path(root: Seq<char>, drive_letter: char) -> bool {
    let n = trim_trailing_backslashes(crate::text::trim(root).map_values(|c: char| if c == '/' { '\\' } else { c }));
    n.len() == 2 && n[1] == ':' && upper_char(n[0]) == upper_char(drive_letter)
}

/// Whether `root` is the root directory of drive `drive_letter`.
pub fn is_drive_root_path(root: &str, drive_letter: char) -> (r: bool)
    ensures
        r == spec_is_drive_root_path(root@, drive_letter),
{
    let v = chars_of(root);
    let t = trim_chars(v.as_slice());
    let mut n: Vec<char> = Vec::new();
    let mut i: usize = 0;
    while i < t.len()
        invariant
            i <= t@.len(),
            n@ == t@.take(i as int).map_values(|c: char| if c == '/' { '\\' } else { c }),
        decreases t.len() - i,
    {
        let c = t[i];
        n.push(if c == '/' { '\\' } else { c });
        assert(t@.take(i as int + 1) =~= t@.take(i as int).push(c));
        assert(n@ =~= t@.take(i as int + 1).map_values(|c: char| if c == '/' { '\\' } else { c }));
        i = i + 1;
    }
    assert(t@.take(i as int) =~= t@);
    let ghost full = n@;
    while n.len() > 0 && n[n.len() - 1] == '\\'
        invariant
            trim_trailing_backslashes(n@) == trim_trailing_backslashes(full),
        decreases n.len(),
    {
        let ghost before = n@;
        n.pop();
        assert(n@ =~= before.drop_last());
    }
    n.len() == 2 && n[1] == ':' && to_upper_char(n[0]) == to_upper_char(drive_letter)
}

/// The refusal of a root that is not a drive root.
pub open spec fn spec_mft_target_error(root: Seq<char>, drive_letter: char) -> Seq<char> {
    "MFT 扫描只支持驱动器根目录（例如 "@ + seq![upper_char(drive_letter)] + ":\\），当前路径为 "@ + root
        + "。请切换到驱动器根目录，或使用普通多线程扫描。"@
}

/// Checks that the scan root is the root directory of the drive scanned.
pub fn validate_mft_target(root: &str, drive_letter: char) -> (r: Result<(), String>)
    ensures
        r is Ok == spec_is_drive_root_path(root@, drive_letter),
        r matches Err(e) ==> e@ == spec_mft_target_error(root@, drive_letter),
{
    if is_drive_root_path(root, drive_letter) {
        return Ok(());
    }
    let mut m: Vec<char> = Vec::new();
    crate::text::push_lit(&mut m, "MFT 扫描只支持驱动器根目录（例如 ");
    m.push(to_upper_char(drive_letter));
    crate::text::push_lit(&mut m, ":\\），当前路径为 ");
    let rv = chars_of(root);
    crate::text::push_all(&mut m, rv.as_slice());
    crate::text::push_lit(&mut m, "。请切换到驱动器根目录，或使用普通多线程扫描。");
    assert(m@ =~= spec_mft_target_error(root@, drive_letter));
    Err(string_from_chars(m.as_slice()))
}

// ---------------------------------------------------------------------------------------
// File records

/// What a file record says of its file.
#[derive(Debug, Clone)]
pub struct MftRecordInfo {
    pub record_number: u64,
    pub is_directory: bool,
    pub file_name: String,
    /// How good the chosen name is (see `filename_namespace_score`).
    pub file_namespace_score: u8,
    pub file_size: u64,
    pub parent_record: u64,
    /// The last modification, as a FILETIME.
    pub modification_time: Option<u64>,
}

/// A file record's information with its name as text.
pub struct MftRecordModel {
    pub record_number: u64,
    pub is_directory: bool,
    pub file_name: Seq<char>,
    pub file_namespace_score: u8,
    pub file_size: u64,
    pub parent_record: u64,
    pub modification_time: Option<u64>,
}

impl View for MftRecordInfo {
    type V = MftRecordModel;

    open spec fn view(&self) -> MftRecordModel {
        MftRecordModel {
            record_number: self.record_number,
            is_directory: self.is_directory,
            file_name: self.file_name@,
            file_namespace_score: self.file_namespace_score,
            file_size: self.file_size,
            parent_record: self.parent_record,
            modification_time: self.modification_time,
        }
    }
}

/// The value of a resident attribute at `ao`: its absolute offset and length, when the
/// header can be read and the value lies inside the record.
pub open spec fn spec_resident_value_range(d: Seq<u8>, ao: int) -> Option<(int, int)> {
    if ao + 22 > d.len() {
        None
    } else {
        let value_length = le32(d, ao + 16) as int;
        let value_offset = le16(d, ao + 20) as int;
        if ao + value_offset + value_length <= d.len() {
            Some((ao + value_offset, value_length))
        } else {
            None
        }
    }
}

/// Where the value of the resident attribute at `attribute_offset` lies.
pub fn resident_value_range(data: &[u8], attribute_offset: usize) -> (r: Option<(usize, usize)>)
    ensures
        r matches Some(p) ==> spec_resident_value_range(data@, attribute_offset as int) == Some((p.0 as int, p.1 as int)),
        r is None ==> spec_resident_value_range(data@, attribute_offset as int) is None,
{
    if attribute_offset > data.len() || data.len() - attribute_offset < 22 {
        return None;
    }
    let value_length = read_u32(data, attribute_offset + 16).unwrap() as usize;
    let value_offset = read_u16(data, attribute_offset + 20).unwrap() as usize;
    let room = data.len() - attribute_offset;
    if value_offset <= room && value_length <= room - value_offset {
        Some((attribute_offset + value_offset, value_length))
    } else {
        None
    }
}

/// How good a name of the given namespace is: Win32 names first, then POSIX, then other
/// namespaces, and DOS 8.3 names last.
pub open spec fn spec_namespace_score(namespace: u8) -> u8 {
    if namespace == 1 || namespace == 3 {
        4
    } else if namespace == 0 {
        3
    } else if namespace == 2 {
        1
    } else {
        2
    }
}

/// How good a name of the given namespace is.
pub fn filename_namespace_score(namespace: u8) -> (r: u8)
    ensures
        r == spec_namespace_score(namespace),
{
    match namespace {
        1 | 3 => 4,
        0 => 3,
        2 => 1,
        _ => 2,
    }
}

/// The fix-ups from sector `k` on: the last two bytes of each sector are replaced by the
/// saved pair `k` of the update sequence array, stopping at the first sector that ends
/// outside the record.
pub open spec fn usa_from(d: Seq<u8>, offset: int, count: int, bps: int, k: int) -> Seq<u8>
    decreases count - k,
{
    if k >= count || k < 1 {
        d
    } else {
        let end = k * bps;
        if end < 2 || end > d.len() {
            d
        } else {
            let d1 = d.update(end - 2, d[offset + 2 * k]);
            let d2 = d1.update(end - 1, d1[offset + 2 * k + 1]);
            usa_from(d2, offset, count, bps, k + 1)
        }
    }
}

/// A record with its update sequence array applied; unchanged when there is nothing to fix
/// or the array does not fit.
pub open spec fn spec_apply_usa(d: Seq<u8>, offset: int, count: int, bps: int) -> Seq<u8> {
    if count <= 1 || bps == 0 || offset + 2 * count > d.len() {
        d
    } else {
        usa_from(d, offset, count, bps, 1)
    }
}

/// Applies the update sequence array at `fixup_offset` to the record.
pub fn apply_update_sequence_array(data: &mut Vec<u8>, fixup_offset: usize, fixup_count: usize, bytes_per_sector: usize)
    requires
        fixup_count <= 65535,
    ensures
        final(data)@ == spec_apply_usa(old(data)@, fixup_offset as int, fixup_count as int, bytes_per_sector as int),
        final(data)@.len() == old(data)@.len(),
{
    if fixup_count <= 1 || bytes_per_sector == 0 {
        return;
    }
    let fixup_bytes = fixup_count * 2;
    if fixup_offset > data.len() || data.len() - fixup_offset < fixup_bytes {
        return;
    }
    let ghost d0 = data@;
    let mut sector_index: usize = 1;
    while sector_index < fixup_count
        invariant
            1 <= sector_index <= fixup_count,
            fixup_count <= 65535,
            bytes_per_sector > 0,
            fixup_offset + 2 * fixup_count <= data@.len(),
            data@.len() == d0.len(),
            d0 == old(data)@,
            usa_from(d0, fixup_offset as int, fixup_count as int, bytes_per_sector as int, 1)
                == usa_from(data@, fixup_offset as int, fixup_count as int, bytes_per_sector as int, sector_index as int),
        decreases fixup_count - sector_index,
    {
        let end = match sector_index.checked_mul(bytes_per_sector) {
            Some(e) => e,
            None => {
                let len = data.len();
                assert(usa_from(data@, fixup_offset as int, fixup_count as int, bytes_per_sector as int, sector_index as int) == data@);
                return;
            },
        };
        if end < 2 || end > data.len() {
            assert(usa_from(data@, fixup_offset as int, fixup_count as int, bytes_per_sector as int, sector_index as int) == data@);
            return;
        }
        let replacement_offset = fixup_offset + sector_index * 2;
        let b0 = data[replacement_offset];
        data.set(end - 2, b0);
        let b1 = data[replacement_offset + 1];
        data.set(end - 1, b1);
        sector_index = sector_index + 1;
    }
}

// ---------------------------------------------------------------------------------------
// Attributes

/// A record's information after its standard-information attribute at `ao`: the
/// modification time, and the directory flag of the file attributes.
pub open spec fn spec_standard_information(d: Seq<u8>, ao: int, non_resident: bool, info: MftRecordModel) -> MftRecordModel {
    if non_resident {
        info
    } else {
        match spec_resident_value_range(d, ao) {
            None => info,
            Some((vo, vl)) => if vl < 36 || vo + 36 > d.len() {
                info
            } else {
                MftRecordModel {
                    modification_time: Some(le64(d, vo + 8)),
                    is_directory: info.is_directory || le32(d, vo + 32) & FILE_ATTRIBUTE_DIRECTORY_FLAG != 0,
                    ..info
                }
            },
        }
    }
}

/// Reads the standard-information attribute at `attribute_offset`.
pub fn parse_standard_information(data: &[u8], attribute_offset: usize, non_resident: bool, info: &mut MftRecordInfo)
    ensures
        final(info)@ == spec_standard_information(data@, attribute_offset as int, non_resident, old(info)@),
{
    if non_resident {
        return;
    }
    let (value_offset, value_length) = match resident_value_range(data, attribute_offset) {
        Some(p) => p,
        None => {
            return;
        },
    };
    if value_length < 36 || value_offset > data.len() || data.len() - value_offset < 36 {
        return;
    }
    info.modification_time = Some(read_u64(data, value_offset + 8).unwrap());
    let file_attributes = read_u32(data, value_offset + 32).unwrap();
    if file_attributes & FILE_ATTRIBUTE_DIRECTORY_FLAG != 0 {
        info.is_directory = true;
    }
}

/// UTF-16 decoding: `None` when a surrogate is unpaired.
pub open spec fn utf16_decode(u: Seq<u16>) -> Option<Seq<char>>
    decreases u.len(),
{
    if u.len() == 0 {
        Some(Seq::empty())
    } else if u[0] < 0xD800 || u[0] > 0xDFFF {
        match utf16_decode(u.drop_first()) {
            Some(rest) => Some(seq![u[0] as char] + rest),
            None => None,
        }
    } else if u[0] <= 0xDBFF && u.len() >= 2 && 0xDC00 <= u[1] <= 0xDFFF {
        match utf16_decode(u.skip(2)) {
            Some(rest) => Some(seq![(0x10000 + (u[0] - 0xD800) * 0x400 + (u[1] - 0xDC00)) as char] + rest),
            None => None,
        }
    } else {
        None
    }
}

/// `String::from_utf16`: the text the UTF-16 units encode, or `None` when they hold an
/// unpaired surrogate.
#[verifier::external_body]
fn string_from_utf16(units: &[u16]) -> (r: Option<String>)
    ensures
        r is Some == utf16_decode(units@) is Some,
        r matches Some(s) ==> Some(s@) == utf16_decode(units@),
{
    String::from_utf16(units).ok()
}

/// The `n` UTF-16 units stored little-endian from byte `o`.
pub open spec fn utf16_units(d: Seq<u8>, o: int, n: int) -> Seq<u16> {
    Seq::new(n as nat, |i: int| le16(d, o + 2 * i))
}

/// A record's information after its file-name attribute at `ao`. A better (or equally good)
/// name than the one held replaces it, with its parent and, when none is held yet, its
/// time; the directory flag is taken over, and a file keeps the larger size.
pub open spec fn spec_file_name_attribute(d: Seq<u8>, ao: int, non_resident: bool, info: MftRecordModel) -> MftRecordModel {
    if non_resident {
        info
    } else {
        match spec_resident_value_range(d, ao) {
            None => info,
            Some((vo, vl)) => if vl < 66 || vo + 66 > d.len() {
                info
            } else {
                let parent_reference = record_of(le64(d, vo));
                let real_size = le64(d, vo + 48);
                let flags = le32(d, vo + 56);
                let name_length = d[vo + 64] as int;
                let score = spec_namespace_score(d[vo + 65]);
                if name_length == 0 || vo + 66 + 2 * name_length > d.len() {
                    info
                } else {
                    match utf16_decode(utf16_units(d, vo + 66, name_length)) {
                        None => info,
                        Some(name) => {
                            let named = if score >= info.file_namespace_score {
                                MftRecordModel {
                                    file_name: name,
                                    file_namespace_score: score,
                                    parent_record: parent_reference,
                                    modification_time: if info.modification_time is Some {
                                        info.modification_time
                                    } else {
                                        Some(le64(d, vo + 16))
                                    },
                                    ..info
                                }
                            } else {
                                info
                            };
                            let flagged = MftRecordModel {
                                is_directory: named.is_directory || flags & FILE_ATTRIBUTE_DIRECTORY_FLAG != 0,
                                ..named
                            };
                            if !flagged.is_directory && real_size > flagged.file_size {
                                MftRecordModel { file_size: real_size, ..flagged }
                            } else {
                                flagged
                            }
                        },
                    }
                }
            },
        }
    }
}

/// Reads the file-name attribute at `attribute_offset`.
pub fn parse_file_name_attribute(data: &[u8], attribute_offset: usize, non_resident: bool, info: &mut MftRecordInfo)
    ensures
        final(info)@ == spec_file_name_attribute(data@, attribute_offset as int, non_resident, old(info)@),
{
    if non_resident {
        return;
    }
    let (value_offset, value_length) = match resident_value_range(data, attribute_offset) {
        Some(p) => p,
        None => {
            return;
        },
    };
    if value_length < 66 || value_offset > data.len() || data.len() - value_offset < 66 {
        return;
    }
    let parent_reference = read_u64(data, value_offset).unwrap() & FILE_REFERENCE_MASK;
    let filename_modified = read_u64(data, value_offset + 16).unwrap();
    let real_size = read_u64(data, value_offset + 48).unwrap();
    let flags = read_u32(data, value_offset + 56).unwrap();
    let name_length = data[value_offset + 64] as usize;
    let namespace = data[value_offset + 65];
    let name_offset = value_offset + 66;
    let name_bytes = name_length * 2;
    if name_length == 0 || data.len() - name_offset < name_bytes {
        return;
    }
    let mut units: Vec<u16> = Vec::new();
    let mut i: usize = 0;
    while i < name_length
        invariant
            i <= name_length,
            name_length <= 255,
            name_offset <= data@.len(),
            data@.len() <= usize::MAX,
            name_offset + 2 * name_length <= data@.len(),
            units@ == utf16_units(data@, name_offset as int, i as int),
        decreases name_length - i,
    {
        let u = read_u16(data, name_offset + 2 * i).unwrap();
        units.push(u);
        assert(units@ =~= utf16_units(data@, name_offset as int, i as int + 1));
        i = i + 1;
    }
    let name = match string_from_utf16(units.as_slice()) {
        Some(n) => n,
        None => {
            return;
        },
    };
    let score = filename_namespace_score(namespace);
    if score >= info.file_namespace_score {
        info.file_name = name;
        info.file_namespace_score = score;
        info.parent_record = parent_reference;
        if info.modification_time.is_none() {
            info.modification_time = Some(filename_modified);
        }
    }
    if flags & FILE_ATTRIBUTE_DIRECTORY_FLAG != 0 {
        info.is_directory = true;
    }
    if !info.is_directory && real_size > info.file_size {
        info.file_size = real_size;
    }
}

/// A record's information after its data attribute at `ao`: the size of the unnamed data
/// stream of a file (its recorded data size when non-resident, else its value length);
/// directories and named streams change nothing.
pub open spec fn spec_data_attribute(d: Seq<u8>, ao: int, non_resident: bool, info: MftRecordModel) -> MftRecordModel {
    let name_length = if 0 <= ao + 9 < d.len() { d[ao + 9] } else { 0 };
    if info.is_directory || name_length != 0 {
        info
    } else if non_resident {
        if ao + 56 <= d.len() {
            MftRecordModel { file_size: le64(d, ao + 48), ..info }
        } else {
            info
        }
    } else {
        match spec_resident_value_range(d, ao) {
            Some((_, vl)) => MftRecordModel { file_size: vl as u64, ..info },
            None => info,
        }
    }
}

/// A named data stream (an attribute whose name length, at byte 9 of its header, is not
/// zero), such as an alternate stream, leaves the record as it was: only the unnamed
/// stream gives a file its size, the data size stored at byte 48 of a non-resident
/// header or the value length of a resident one; a directory keeps its size, and nothing
/// but the size ever changes.
pub proof fn lemma_named_stream_ignored(d: Seq<u8>, ao: int, non_resident: bool, info: MftRecordModel)
    ensures
        0 <= ao && ao + 9 < d.len() && d[ao + 9] != 0 ==> spec_data_attribute(d, ao, non_resident, info) == info,
        spec_data_attribute(d, ao, non_resident, info).file_size != info.file_size ==> !(0 <= ao && ao + 9 < d.len()
            && d[ao + 9] != 0),
        spec_data_attribute(d, ao, non_resident, info) == (MftRecordModel {
            file_size: spec_data_attribute(d, ao, non_resident, info).file_size,
            ..info
        }),
        info.is_directory ==> spec_data_attribute(d, ao, non_resident, info) == info,
        0 <= ao && !info.is_directory && (ao + 9 >= d.len() || d[ao + 9] == 0) && non_resident && ao + 56 <= d.len()
            ==> spec_data_attribute(d, ao, non_resident, info).file_size == le64(d, ao + 48),
        0 <= ao && !info.is_directory && (ao + 9 >= d.len() || d[ao + 9] == 0) && !non_resident ==> match spec_resident_value_range(d, ao) {
            Some((_, vl)) => spec_data_attribute(d, ao, non_resident, info).file_size == vl,
            None => spec_data_attribute(d, ao, non_resident, info) == info,
        },
{
}

/// Reads the data attribute at `attribute_offset`.
pub fn parse_data_attribute(data: &[u8], attribute_offset: usize, non_resident: bool, info: &mut MftRecordInfo)
    ensures
        final(info)@ == spec_data_attribute(data@, attribute_offset as int, non_resident, old(info)@),
        attribute_offset + 9 < data@.len() && data@[attribute_offset + 9] != 0 ==> final(info)@ == old(info)@,
        final(info)@.file_size != old(info)@.file_size ==> attribute_offset + 9 >= data@.len()
            || data@[attribute_offset + 9] == 0,
{
    proof {
        lemma_named_stream_ignored(data@, attribute_offset as int, non_resident, old(info)@);
    }
    if info.is_directory {
        return;
    }
    let name_length = if attribute_offset < data.len() && data.len() - attribute_offset > 9 {
        data[attribute_offset + 9]
    } else {
        0
    };
    if name_length != 0 {
        return;
    }
    if non_resident {
        if attribute_offset <= data.len() && data.len() - attribute_offset >= 56 {
            info.file_size = read_u64(data, attribute_offset + 48).unwrap();
        }
    } else {
        match resident_value_range(data, attribute_offset) {
            Some((_, value_length)) => {
                info.file_size = value_length as u64;
            },
            None => {},
        }
    }
}

// ---------------------------------------------------------------------------------------
// Whole records

/// A record's information after the attributes from offset `off` up to `limit`: each
/// attribute header gives its type and length, and the walk stops at the end marker, at a
/// length below 16, or at an attribute that runs past the record.
pub open spec fn attributes_from(d: Seq<u8>, off: int, limit: int, info: MftRecordModel) -> MftRecordModel
    decreases d.len() - off,
{
    if off + 16 > limit {
        info
    } else {
        let t = le32(d, off);
        let alen = le32(d, off + 4) as int;
        if t == 0xFFFF_FFFF || alen < 16 || off + alen > d.len() {
            info
        } else {
            let non_resident = d[off + 8] != 0;
            let next = if t == 0x10 {
                spec_standard_information(d, off, non_resident, info)
            } else if t == 0x30 {
                spec_file_name_attribute(d, off, non_resident, info)
            } else if t == 0x80 {
                spec_data_attribute(d, off, non_resident, info)
            } else {
                info
            };
            attributes_from(d, off + alen, limit, next)
        }
    }
}

/// The information of a record before its attributes are read.
pub open spec fn blank_record(record_number: u64, is_directory: bool) -> MftRecordModel {
    MftRecordModel {
        record_number,
        is_directory,
        file_name: Seq::empty(),
        file_namespace_score: 0,
        file_size: 0,
        parent_record: ROOT_FILE_REFERENCE,
        modification_time: None,
    }
}

/// What a file record says: none unless it carries the `FILE` signature, is in use, is a
/// base record (not an extension of another) and names its file.
pub open spec fn spec_parse_mft_record(record_number: u64, raw: Seq<u8>, bytes_per_sector: int) -> Option<MftRecordModel> {
    if raw.len() < 48 || le32(raw, 0) != MFT_RECORD_SIGNATURE {
        None
    } else {
        let d = spec_apply_usa(raw, le16(raw, 4) as int, le16(raw, 6) as int, bytes_per_sector);
        let flags = le16(d, 22);
        if flags & MFT_RECORD_IN_USE == 0 || record_of(le64(d, 32)) != 0 {
            None
        } else {
            let size_in_use = le32(d, 24) as int;
            let limit = if size_in_use < d.len() { size_in_use } else { d.len() as int };
            let info = attributes_from(
                d,
                le16(d, 20) as int,
                limit,
                blank_record(record_number, flags & MFT_RECORD_IS_DIRECTORY != 0),
            );
            if info.file_name.len() == 0 {
                None
            } else {
                Some(info)
            }
        }
    }
}

/// A copy of the bytes.
pub fn copy_bytes(s: &[u8]) -> (r: Vec<u8>)
    ensures
        r@ == s@,
{
    let mut r: Vec<u8> = Vec::new();
    let mut i: usize = 0;
    while i < s.len()
        invariant
            i <= s@.len(),
            r@ == s@.take(i as int),
        decreases s.len() - i,
    {
        r.push(s[i]);
        assert(r@ =~= s@.take(i as int + 1));
        i = i + 1;
    }
    assert(s@.take(i as int) =~= s@);
    r
}

/// Reads one file record.
pub fn parse_mft_record(record_number: u64, record_data: &[u8], bytes_per_sector: usize) -> (r: Option<MftRecordInfo>)
    ensures
        r is Some == spec_parse_mft_record(record_number, record_data@, bytes_per_sector as int) is Some,
        r matches Some(info) ==> Some(info@) == spec_parse_mft_record(record_number, record_data@, bytes_per_sector as int),
{
    if record_data.len() < 48 || read_u32(record_data, 0).unwrap() != MFT_RECORD_SIGNATURE {
        return None;
    }
    let mut data = copy_bytes(record_data);
    let fixup_offset = read_u16(data.as_slice(), 4).unwrap() as usize;
    let fixup_count = read_u16(data.as_slice(), 6).unwrap() as usize;
    apply_update_sequence_array(&mut data, fixup_offset, fixup_count, bytes_per_sector);
    let d = data.as_slice();
    let offset_to_first_attribute = read_u16(d, 20).unwrap() as usize;
    let flags = read_u16(d, 22).unwrap();
    if flags & MFT_RECORD_IN_USE == 0 {
        return None;
    }
    let size_in_use = read_u32(d, 24).unwrap() as usize;
    let base_file_reference = read_u64(d, 32).unwrap() & FILE_REFERENCE_MASK;
    if base_file_reference != 0 {
        return None;
    }
    let mut info = MftRecordInfo {
        record_number,
        is_directory: flags & MFT_RECORD_IS_DIRECTORY != 0,
        file_name: String::new(),
        file_namespace_score: 0,
        file_size: 0,
        parent_record: ROOT_FILE_REFERENCE,
        modification_time: None,
    };
    let ghost info0 = info@;
    assert(info0.file_name =~= Seq::<char>::empty());
    let record_limit = if size_in_use < d.len() { size_in_use } else { d.len() };
    let mut offset = offset_to_first_attribute;
    while offset <= record_limit && record_limit - offset >= 16
        invariant
            record_limit <= d@.len(),
            d@.len() <= usize::MAX,
            attributes_from(d@, offset_to_first_attribute as int, record_limit as int, info0)
                == attributes_from(d@, offset as int, record_limit as int, info@),
        ensures
            attributes_from(d@, offset_to_first_attribute as int, record_limit as int, info0) == info@,
        decreases d@.len() - offset,
    {
        let attribute_type = read_u32(d, offset).unwrap();
        if attribute_type == 0xFFFF_FFFF {
            break;
        }
        let attribute_length = read_u32(d, offset + 4).unwrap() as usize;
        if attribute_length < 16 || attribute_length > d.len() - offset {
            break;
        }
        let non_resident = d[offset + 8] != 0;
        if attribute_type == 0x10 {
            parse_standard_information(d, offset, non_resident, &mut info);
        } else if attribute_type == 0x30 {
            parse_file_name_attribute(d, offset, non_resident, &mut info);
        } else if attribute_type == 0x80 {
            parse_data_attribute(d, offset, non_resident, &mut info);
        }
        offset = offset + attribute_length;
    }
    if info.file_name.as_str().is_empty() {
        None
    } else {
        Some(info)
    }
}

// ---------------------------------------------------------------------------------------
// Volume requests

/// `文件记录 {n}` followed by `tail`.
pub open spec fn record_message(n: u64, tail: Seq<char>) -> Seq<char> {
    "文件记录 "@ + decimal(n as nat) + tail
}

fn record_message_exec(n: u64, tail: &str) -> (r: String)
    ensures
        r@ == record_message(n, tail@),
{
    let mut m: Vec<char> = Vec::new();
    push_lit(&mut m, "文件记录 ");
    let digits = decimal_chars(n);
    push_all(&mut m, digits.as_slice());
    push_lit(&mut m, tail);
    proof {
        reveal_strlit("文件记录 ");
    }
    string_from_chars(m.as_slice())
}

/// The record in the reply to a file-record request: the reply starts with the record's
/// file reference and length, then the record. The record is cut to the length given, the
/// bytes returned and `record_size`; replies that are too short are refused.
pub open spec fn spec_file_record_from_reply(
    file_reference_number: u64,
    output: Seq<u8>,
    bytes_returned: int,
    record_size: int,
) -> Result<(u64, Seq<u8>), Seq<char>> {
    let header = FILE_RECORD_REPLY_HEADER as int;
    if bytes_returned <= header || output.len() < header {
        Err(record_message(file_reference_number, " 返回数据过短"@))
    } else {
        let returned_reference = le64(output, 0);
        let length = le32(output, 8) as int;
        let available = bytes_returned - header;
        let actual = if length <= available && length <= record_size {
            length
        } else if available <= record_size {
            available
        } else {
            record_size
        };
        if length == 0 {
            Err(record_message(file_reference_number, " 长度为 0"@))
        } else if actual < 4 {
            Err(record_message(file_reference_number, " 内容过短"@))
        } else {
            Ok((record_of(returned_reference), output.subrange(header, header + actual)))
        }
    }
}

/// The record in the reply to a file-record request for `file_reference_number`.
pub fn file_record_from_reply(
    file_reference_number: u64,
    output: &[u8],
    bytes_returned: usize,
    record_size: usize,
) -> (r: Result<(u64, Vec<u8>), String>)
    requires
        FILE_RECORD_REPLY_HEADER + record_size <= output@.len(),
    ensures
        match (r, spec_file_record_from_reply(file_reference_number, output@, bytes_returned as int, record_size as int)) {
            (Ok((n, bytes)), Ok((m, b))) => n == m && bytes@ == b,
            (Err(e), Err(f)) => e@ == f,
            _ => false,
        },
{
    if bytes_returned <= FILE_RECORD_REPLY_HEADER || output.len() < FILE_RECORD_REPLY_HEADER {
        return Err(record_message_exec(file_reference_number, " 返回数据过短"));
    }
    let returned_reference = read_u64(output, 0).unwrap();
    let file_record_length = read_u32(output, 8).unwrap() as usize;
    if file_record_length == 0 {
        return Err(record_message_exec(file_reference_number, " 长度为 0"));
    }
    let available = bytes_returned - FILE_RECORD_REPLY_HEADER;
    let mut actual_len = file_record_length;
    if available < actual_len {
        actual_len = available;
    }
    if record_size < actual_len {
        actual_len = record_size;
    }
    if actual_len < 4 {
        return Err(record_message_exec(file_reference_number, " 内容过短"));
    }
    let mut bytes: Vec<u8> = Vec::new();
    let mut i: usize = 0;
    while i < actual_len
        invariant
            i <= actual_len,
            FILE_RECORD_REPLY_HEADER + actual_len <= output@.len(),
            output@.len() <= usize::MAX,
            bytes@ == output@.subrange(FILE_RECORD_REPLY_HEADER as int, FILE_RECORD_REPLY_HEADER + i),
        decreases actual_len - i,
    {
        bytes.push(output[FILE_RECORD_REPLY_HEADER + i]);
        assert(bytes@ =~= output@.subrange(FILE_RECORD_REPLY_HEADER as int, FILE_RECORD_REPLY_HEADER + i + 1));
        i = i + 1;
    }
    Ok((returned_reference & FILE_REFERENCE_MASK, bytes))
}

/// The message of a failed file-record request.
pub fn file_record_request_error(file_reference_number: u64, error: u32) -> (r: String)
    ensures
        r@ == record_message(file_reference_number, "（错误码 "@ + decimal(error as nat) + "）"@),
{
    let mut m: Vec<char> = Vec::new();
    push_lit(&mut m, "文件记录 ");
    let n = decimal_chars(file_reference_number);
    push_all(&mut m, n.as_slice());
    push_lit(&mut m, "（错误码 ");
    let e = decimal_chars(error as u64);
    push_all(&mut m, e.as_slice());
    push_lit(&mut m, "）");
    proof {
        reveal_strlit("文件记录 ");
    }
    assert(m@ =~= record_message(file_reference_number, "（错误码 "@ + decimal(error as nat) + "）"@));
    string_from_chars(m.as_slice())
}

/// Checks the sizes a volume reports: a file record or sector size of zero is refused.
pub fn check_volume_data(bytes_per_file_record_segment: u32, bytes_per_sector: u32) -> (r: Result<(), String>)
    ensures
        r is Ok == (bytes_per_file_record_segment != 0 && bytes_per_sector != 0),
        r matches Err(e) ==> e@ == "NTFS 卷信息无效：文件记录大小或扇区大小为 0"@,
{
    if bytes_per_file_record_segment == 0 || bytes_per_sector == 0 {
        return Err(String::from_str("NTFS 卷信息无效：文件记录大小或扇区大小为 0"));
    }
    Ok(())
}

/// How many records the table holds: its valid length (none when negative) over the
/// record size.
pub fn estimated_record_count(mft_valid_data_length: i64, record_size: u32) -> (r: u64)
    requires
        record_size > 0,
    ensures
        r == (if mft_valid_data_length < 0 { 0 } else { mft_valid_data_length as int / record_size as int }),
{
    if mft_valid_data_length < 0 {
        0
    } else {
        (mft_valid_data_length as u64) / (record_size as u64)
    }
}

/// Whether a progress report is due after record `record_index`, given whether the report
/// interval has passed.
pub fn progress_due(record_index: u64, interval_passed: bool) -> (r: bool)
    ensures
        r == (record_index % PROGRESS_RECORD_INTERVAL == 0 && interval_passed),
{
    record_index % PROGRESS_RECORD_INTERVAL == 0 && interval_passed
}

// ---------------------------------------------------------------------------------------
// Paths

/// A file or directory found in the table.
#[derive(Debug, Clone)]
pub struct MftNode {
    pub parent_record: u64,
    pub name: String,
    pub is_directory: bool,
    pub size: u64,
    /// Modification time in seconds since the epoch.
    pub modified: Option<u64>,
}

/// The node a parsed record becomes: its time in seconds since the epoch.
pub open spec fn spec_node_of(info: MftRecordInfo) -> MftNode {
    MftNode {
        parent_record: info.parent_record,
        name: info.file_name,
        is_directory: info.is_directory,
        size: info.file_size,
        modified: match info.modification_time {
            Some(t) => spec_filetime_secs(t),
            None => None,
        },
    }
}

/// The node a parsed record becomes, with its record number.
pub fn node_of_record(info: MftRecordInfo) -> (r: (u64, MftNode))
    ensures
        r.0 == info.record_number,
        r.1 == spec_node_of(info),
{
    let modified = match info.modification_time {
        Some(t) => filetime_to_unix_secs(t),
        None => None,
    };
    (
        info.record_number,
        MftNode {
            parent_record: info.parent_record,
            name: info.file_name,
            is_directory: info.is_directory,
            size: info.file_size,
            modified,
        },
    )
}

/// The names from record `cur` up towards the root, at most `steps` of them: the walk
/// stops at the root record, at a record that is its own parent, or at a `.` name, and
/// fails at a record that is not in the table.
pub open spec fn climb(m: Map<u64, MftNode>, cur: u64, steps: nat) -> Option<Seq<Seq<char>>>
    decreases steps,
{
    if steps == 0 {
        Some(Seq::empty())
    } else if !m.contains_key(cur) {
        None
    } else {
        let n = m[cur];
        if cur == ROOT_FILE_REFERENCE || cur == n.parent_record || n.name@ == "."@ {
            Some(Seq::empty())
        } else {
            match climb(m, n.parent_record, (steps - 1) as nat) {
                Some(rest) => Some(seq![n.name@] + rest),
                None => None,
            }
        }
    }
}

/// `base` with the names appended, the last name first.
pub open spec fn push_names(base: Seq<char>, names: Seq<Seq<char>>) -> Seq<char>
    decreases names.len(),
{
    if names.len() == 0 {
        base
    } else {
        push_names(join_path(base, names.last()), names.drop_last())
    }
}

/// The full path of record `r` under `root`.
pub open spec fn spec_full_path(m: Map<u64, MftNode>, r: u64, root: Seq<char>) -> Option<Seq<char>> {
    match climb(m, r, MAX_PATH_DEPTH as nat) {
        Some(names) => Some(push_names(root, names)),
        None => None,
    }
}

/// `prefix` before the names of a walk, if it succeeded.
pub open spec fn after_prefix(prefix: Seq<Seq<char>>, rest: Option<Seq<Seq<char>>>) -> Option<Seq<Seq<char>>> {
    match rest {
        Some(r) => Some(prefix + r),
        None => None,
    }
}

/// The records of the table, found in the order they were recorded.
pub struct MftNodes {
    pub nodes: HashMapWithView<u64, MftNode>,
    pub records: Vec<u64>,
}

impl MftNodes {
    /// Every recorded number is in the table once, and nothing else is.
    pub open spec fn wf(&self) -> bool {
        &&& self.records@.no_duplicates()
        &&& forall|r: u64| self.nodes@.contains_key(r) <==> #[trigger] self.records@.contains(r)
    }

    /// An empty table.
    pub fn new() -> (r: Self)
        ensures
            r.wf(),
            r.nodes@ == Map::<u64, MftNode>::empty(),
            r.records@.len() == 0,
    {
        broadcast use vstd::std_specs::hash::group_hash_axioms;
        MftNodes { nodes: HashMapWithView::new(), records: Vec::new() }
    }

    /// Records a parsed record; a later record with the same number replaces the earlier.
    pub fn insert(&mut self, info: MftRecordInfo)
        requires
            old(self).wf(),
        ensures
            final(self).wf(),
            final(self).nodes@ == old(self).nodes@.insert(info.record_number, spec_node_of(info)),
            old(self).nodes@.contains_key(info.record_number) ==> final(self).records@ == old(self).records@,
            !old(self).nodes@.contains_key(info.record_number) ==> final(self).records@ == old(self).records@.push(info.record_number),
    {
        let (number, node) = node_of_record(info);
        let known = self.nodes.contains_key(&number);
        let ghost before = self.records@;
        let ghost old_nodes = self.nodes@;
        assert(known == old_nodes.contains_key(number));
        self.nodes.insert(number, node);
        if !known {
            self.records.push(number);
        }
        proof {
            if !known {
                assert(!before.contains(number));
                assert forall|i: int, j: int| 0 <= i < j < self.records@.len() implies self.records@[i] != self.records@[j] by {
                    if j == before.len() && self.records@[i] == number {
                        assert(before[i] == number);
                    }
                }
            }
            assert forall|r: u64| self.nodes@.contains_key(r) <==> #[trigger] self.records@.contains(r) by {
                assert(old_nodes.contains_key(r) <==> before.contains(r));
                if !known {
                    assert(self.records@ == before.push(number));
                    if r == number {
                        assert(self.records@[before.len() as int] == number);
                    } else if self.records@.contains(r) {
                        let j = choose|j: int| 0 <= j < self.records@.len() && self.records@[j] == r;
                        assert(before[j] == r);
                    } else if before.contains(r) {
                        let j = choose|j: int| 0 <= j < before.len() && before[j] == r;
                        assert(self.records@[j] == r);
                    }
                } else {
                    assert(before.contains(number));
                }
            }
        }
    }

    /// The full path of record `record_number` under `root`; none when a record on the way
    /// is missing.
    pub fn build_full_path(&self, record_number: u64, root: &str) -> (r: Option<String>)
        ensures
            r is Some == spec_full_path(self.nodes@, record_number, root@) is Some,
            r matches Some(p) ==> Some(p@) == spec_full_path(self.nodes@, record_number, root@),
    {
        let ghost m = self.nodes@;
        let mut names: Vec<Vec<char>> = Vec::new();
        let ghost mut gnames: Seq<Seq<char>> = Seq::empty();
        let mut current = record_number;
        let mut steps: usize = 0;
        while steps < MAX_PATH_DEPTH
            invariant
                steps <= MAX_PATH_DEPTH,
                m == self.nodes@,
                names@.len() == gnames.len(),
                forall|k: int| 0 <= k < gnames.len() ==> (#[trigger] names@[k])@ == gnames[k],
                climb(m, record_number, MAX_PATH_DEPTH as nat)
                    == after_prefix(gnames, climb(m, current, (MAX_PATH_DEPTH - steps) as nat)),
            ensures
                climb(m, record_number, MAX_PATH_DEPTH as nat) == after_prefix(gnames, Some(Seq::empty()))
                    || climb(m, record_number, MAX_PATH_DEPTH as nat) is None,
                climb(m, record_number, MAX_PATH_DEPTH as nat) is None ==> !m.contains_key(current),
                names@.len() == gnames.len(),
                forall|k: int| 0 <= k < gnames.len() ==> (#[trigger] names@[k])@ == gnames[k],
            decreases MAX_PATH_DEPTH - steps,
        {
            let node = match self.nodes.get(&current) {
                Some(n) => n,
                None => {
                    break;
                },
            };
            let nv = chars_of(node.name.as_str());
            if current == ROOT_FILE_REFERENCE || current == node.parent_record || str_eq(nv.as_slice(), ".") {
                break;
            }
            proof {
                gnames = gnames.push(node.name@);
                assert(after_prefix(gnames.drop_last(), climb(m, current, (MAX_PATH_DEPTH - steps) as nat))
                    == after_prefix(gnames, climb(m, node.parent_record, (MAX_PATH_DEPTH - steps - 1) as nat))) by {
                    match climb(m, node.parent_record, (MAX_PATH_DEPTH - steps - 1) as nat) {
                        Some(rest) => {
                            assert(gnames.drop_last() + (seq![node.name@] + rest) =~= gnames + rest);
                        },
                        None => {},
                    }
                }
            }
            names.push(nv);
            current = node.parent_record;
            steps = steps + 1;
        }
        if !self.nodes.contains_key(&current) && steps < MAX_PATH_DEPTH {
            return None;
        }
        assert(gnames + Seq::<Seq<char>>::empty() =~= gnames);
        let mut path = chars_of(root);
        let mut k: usize = names.len();
        assert(gnames.take(k as int) =~= gnames);
        while k > 0
            invariant
                k <= names@.len(),
                names@.len() == gnames.len(),
                forall|j: int| 0 <= j < gnames.len() ==> (#[trigger] names@[j])@ == gnames[j],
                push_names(root@, gnames) == push_names(path@, gnames.take(k as int)),
            decreases k,
        {
            assert(gnames.take(k as int).drop_last() =~= gnames.take(k as int - 1));
            path = join_chars(path.as_slice(), names[k - 1].as_slice());
            k = k - 1;
        }
        assert(gnames.take(0) =~= Seq::<Seq<char>>::empty());
        Some(string_from_chars(path.as_slice()))
    }
}

/// The records of `recs` that are directories (or files, for `dirs == false`) with a full
/// path under `root`, in order.
pub open spec fn picked(m: Map<u64, MftNode>, root: Seq<char>, recs: Seq<u64>, dirs: bool) -> Seq<u64> {
    recs.filter(|r: u64| m.contains_key(r) && m[r].is_directory == dirs && spec_full_path(m, r, root) is Some)
}

/// `u` holds the full paths of the records `rs`.
pub open spec fn dir_paths_of(m: Map<u64, MftNode>, root: Seq<char>, rs: Seq<u64>, u: Seq<String>) -> bool {
    &&& u.len() == rs.len()
    &&& forall|j: int| 0 <= j < rs.len() ==> Some((#[trigger] u[j])@) == spec_full_path(m, rs[j], root)
}

/// `u` holds the file records of the records `rs`: full path, size, time and extension label.
pub open spec fn file_records_of(m: Map<u64, MftNode>, root: Seq<char>, rs: Seq<u64>, u: Seq<FileRecord>) -> bool {
    &&& u.len() == rs.len()
    &&& forall|j: int| 0 <= j < rs.len() ==> {
        &&& Some((#[trigger] u[j]).path@) == spec_full_path(m, rs[j], root)
        &&& u[j].size == m[rs[j]].size
        &&& u[j].modified == m[rs[j]].modified
        &&& u[j].extension@ == spec_extension_label(u[j].path@)
    }
}

/// Paths in order, component by component.
pub open spec fn path_text_order() -> spec_fn(String, String) -> bool {
    |a: String, b: String| key_lt((0, 0, path_order_text(a@)), (0, 0, path_order_text(b@)))
}

/// Number of the records of `recs` that are directories (or files, for `dirs == false`).
pub open spec fn count_kind(m: Map<u64, MftNode>, recs: Seq<u64>, dirs: bool) -> nat {
    recs.filter(|r: u64| m[r].is_directory == dirs).len()
}

impl MftNodes {
    /// The numbers of files and of directories recorded so far.
    pub fn kind_counts(&self) -> (r: (u64, u64))
        requires
            self.wf(),
        ensures
            r.0 == count_kind(self.nodes@, self.records@, false),
            r.1 == count_kind(self.nodes@, self.records@, true),
    {
        let ghost m = self.nodes@;
        let mut files: u64 = 0;
        let mut dirs: u64 = 0;
        let mut i: usize = 0;
        while i < self.records.len()
            invariant
                i <= self.records@.len(),
                m == self.nodes@,
                files == count_kind(m, self.records@.take(i as int), false),
                dirs == count_kind(m, self.records@.take(i as int), true),
                files + dirs == i,
                self.wf(),
            decreases self.records.len() - i,
        {
            let r = self.records[i];
            proof {
                reveal(Seq::filter);
                assert(self.records@.take(i as int + 1).drop_last() =~= self.records@.take(i as int));
                assert(self.records@.contains(r));
            }
            let node = self.nodes.get(&r).unwrap();
            if node.is_directory {
                dirs = dirs + 1;
            } else {
                files = files + 1;
            }
            i = i + 1;
        }
        assert(self.records@.take(i as int) =~= self.records@);
        (files, dirs)
    }

    /// The directories and files recorded, with their full paths under `root`; records
    /// whose path cannot be built are left out. Directories come in text order, files by
    /// path (then larger first).
    pub fn listing(&self, root: &str) -> (r: (Vec<String>, Vec<FileRecord>))
        requires
            self.wf(),
        ensures
            exists|u: Seq<String>| dir_paths_of(self.nodes@, root@, picked(self.nodes@, root@, self.records@, true), u)
                && #[trigger] r.0@.to_multiset() == u.to_multiset(),
            exists|u: Seq<FileRecord>| file_records_of(self.nodes@, root@, picked(self.nodes@, root@, self.records@, false), u)
                && #[trigger] r.1@.to_multiset() == u.to_multiset(),
            is_sorted(r.0@, path_text_order()),
            is_sorted(r.1@, file_by_path()),
    {
        let ghost m = self.nodes@;
        let mut directories: Vec<String> = Vec::new();
        let mut files: Vec<FileRecord> = Vec::new();
        let mut i: usize = 0;
        while i < self.records.len()
            invariant
                i <= self.records@.len(),
                m == self.nodes@,
                self.wf(),
                dir_paths_of(m, root@, picked(m, root@, self.records@.take(i as int), true), directories@),
                file_records_of(m, root@, picked(m, root@, self.records@.take(i as int), false), files@),
            decreases self.records.len() - i,
        {
            let r = self.records[i];
            let ghost before = self.records@.take(i as int);
            proof {
                reveal(Seq::filter);
                assert(self.records@.take(i as int + 1).drop_last() =~= before);
                assert(self.records@.contains(r));
            }
            let node = self.nodes.get(&r).unwrap();
            match self.build_full_path(r, root) {
                Some(path) => {
                    if node.is_directory {
                        directories.push(path);
                    } else {
                        let extension = file_extension_label(path.as_str());
                        files.push(FileRecord { path, size: node.size, modified: node.modified, extension });
                    }
                },
                None => {},
            }
            i = i + 1;
        }
        assert(self.records@.take(i as int) =~= self.records@);
        let ghost du = directories@;
        let ghost fu = files@;
        let less = |a: &String, b: &String| -> (r: bool)
            ensures
                r == path_text_order()(*a, *b),
            {
                path_less(a, b)
            };
        proof {
            lemma_key_order(path_text_order(), |x: String| (0int, 0int, path_order_text(x@)));
        }
        let sorted_dirs = merge_sort(directories, &less, Ghost(path_text_order()));
        let sorted_files = sort_files_by_path(files);
        proof {
            assert(sorted_dirs@.to_multiset() == du.to_multiset());
            assert(sorted_files@.to_multiset() == fu.to_multiset());
        }
        (sorted_dirs, sorted_files)
    }
}

proof fn lemma_push_names_extends(base: Seq<char>, names: Seq<Seq<char>>)
    ensures
        base.len() <= push_names(base, names).len(),
        push_names(base, names).take(base.len() as int) == base,
    decreases names.len(),
{
    if names.len() > 0 {
        let next = join_path(base, names.last());
        lemma_push_names_extends(next, names.drop_last());
        assert(next.take(base.len() as int) =~= base);
        assert(push_names(base, names).take(base.len() as int) =~= next.take(base.len() as int));
    }
}

/// Law: every full path built from the table starts with the scan root's text.
pub proof fn lemma_full_path_under_root(m: Map<u64, MftNode>, r: u64, root: Seq<char>)
    ensures
        spec_full_path(m, r, root) matches Some(p) ==> p.len() >= root.len() && p.take(root.len() as int) == root,
{
    match climb(m, r, MAX_PATH_DEPTH as nat) {
        Some(names) => lemma_push_names_extends(root, names),
        None => {},
    }
}

} // verus!
