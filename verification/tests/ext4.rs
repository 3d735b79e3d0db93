use exposer::ext4::{
    c_str, fold32, fold64, inode_extents, parse_dir_block, DirEntry, Ext4Error, GroupDescriptor, Inode,
    Superblock, EXT4_MAGIC,
};
use exposer::types::{Ext4Inode, Ext4SuperBlock, SUPERBLOCK_SIZE};

fn put16(b: &mut [u8], off: usize, v: u16) {
    b[off..off + 2].copy_from_slice(&v.to_le_bytes());
}

fn put32(b: &mut [u8], off: usize, v: u32) {
    b[off..off + 4].copy_from_slice(&v.to_le_bytes());
}

fn sample_superblock_bytes() -> Vec<u8> {
    let mut b = vec![0u8; SUPERBLOCK_SIZE];
    put32(&mut b, 0, 16384); // inodes_count
    put32(&mut b, 4, 65536); // blocks_count_lo
    put32(&mut b, 12, 60000); // free_blocks_count_lo
    put32(&mut b, 16, 16000); // free_inodes_count
    put32(&mut b, 20, 0); // first_data_block
    put32(&mut b, 24, 2); // log_block_size
    put32(&mut b, 32, 32768); // blocks_per_group
    put32(&mut b, 40, 8192); // inodes_per_group
    put16(&mut b, 56, EXT4_MAGIC);
    put32(&mut b, 76, 1); // revision
    put16(&mut b, 88, 256); // inode_size
    put32(&mut b, 96, 0x0002 | 0x0040); // filetype, extents
    for i in 0..16 {
        b[104 + i] = 0x10 * (i as u8 % 16) + i as u8;
    }
    b[120..125].copy_from_slice(b"disk1");
    b
}

fn sample_superblock() -> Superblock {
    let raw = Ext4SuperBlock::from_bytes_at(&sample_superblock_bytes(), 0);
    Superblock::from_raw(raw).unwrap()
}

#[test]
fn superblock_fields_decode_little_endian() {
    let raw = Ext4SuperBlock::from_bytes_at(&sample_superblock_bytes(), 0);
    assert_eq!(raw.inodes_count, 16384);
    assert_eq!(raw.magic, 0xEF53);
    assert_eq!(raw.log_block_size, 2);
    assert_eq!(raw.inode_size, 256);
    assert_eq!(&raw.volume_name[..6], b"disk1\0");
    assert_eq!(raw.uuid[1], 0x11);
}

#[test]
fn superblock_summary_values() {
    let sb = sample_superblock();
    assert_eq!(sb.block_size, 4096);
    assert_eq!(sb.blocks_count, 65536);
    assert_eq!(sb.free_blocks_count, 60000);
    assert_eq!(sb.inode_size, 256);
    assert_eq!(sb.desc_size, 32);
    assert!(!sb.has_64bit);
    assert!(sb.has_extents);
    assert!(sb.has_filetype);
    assert_eq!(sb.volume_name(), "disk1");
    assert_eq!(sb.group_count(), 2);
}

#[test]
fn superblock_bad_magic_is_refused() {
    let mut b = sample_superblock_bytes();
    put16(&mut b, 56, 0x1234);
    let raw = Ext4SuperBlock::from_bytes_at(&b, 0);
    let err = Superblock::from_raw(raw).unwrap_err();
    assert_eq!(err, Ext4Error::BadMagic { found: 0x1234 });
    assert_eq!(err.message(), "not an ext4 volume: magic is 0x1234, expected 0xef53");
}

#[test]
fn superblock_revision_zero_and_64bit() {
    let mut b = sample_superblock_bytes();
    put32(&mut b, 76, 0);
    put32(&mut b, 96, 0x0080);
    put16(&mut b, 254, 64);
    put32(&mut b, 336, 1); // blocks_count_hi
    put32(&mut b, 24, 0);
    let sb = Superblock::from_raw(Ext4SuperBlock::from_bytes_at(&b, 0)).unwrap();
    assert_eq!(sb.inode_size, 128);
    assert_eq!(sb.desc_size, 64);
    assert!(sb.has_64bit);
    assert_eq!(sb.blocks_count, (1u64 << 32) + 65536);
    assert_eq!(sb.block_size, 1024);
}

#[test]
fn superblock_small_descriptor_size_is_raised() {
    let mut b = sample_superblock_bytes();
    put32(&mut b, 96, 0x0080);
    put16(&mut b, 254, 16);
    let sb = Superblock::from_raw(Ext4SuperBlock::from_bytes_at(&b, 0)).unwrap();
    assert_eq!(sb.desc_size, 32);
}

#[test]
fn block_size_shift_loses_bits() {
    let mut b = sample_superblock_bytes();
    put32(&mut b, 24, 53);
    let sb = Superblock::from_raw(Ext4SuperBlock::from_bytes_at(&b, 0)).unwrap();
    assert_eq!(sb.block_size, 1u64 << 63);
    put32(&mut b, 24, 54);
    let sb = Superblock::from_raw(Ext4SuperBlock::from_bytes_at(&b, 0)).unwrap();
    assert_eq!(sb.block_size, 0);
}

#[test]
fn uuid_is_formatted_8_4_4_4_12() {
    let sb = sample_superblock();
    assert_eq!(sb.uuid(), "00112233-4455-6677-8899-aabbccddeeff");
}

#[test]
fn superblock_describe_text() {
    let sb = sample_superblock();
    let expected = [
        "ext4 volume\n",
        "  volume name:       disk1\n",
        "  uuid:              00112233-4455-6677-8899-aabbccddeeff\n",
        "  block size:        4096 bytes\n",
        "  inode size:        256 bytes\n",
        "  descriptor size:   32 bytes\n",
        "  blocks:            65536 total, 60000 free\n",
        "  inodes:            16384 total, 16000 free\n",
        "  blocks per group:  32768\n",
        "  inodes per group:  8192\n",
        "  first data block:  0\n",
        "  features:          64bit=false extents=true filetype=true",
    ]
    .concat();
    assert_eq!(sb.describe(), expected);
}

#[test]
fn empty_volume_name_shows_none() {
    let mut b = sample_superblock_bytes();
    for i in 120..136 {
        b[i] = 0;
    }
    let sb = Superblock::from_raw(Ext4SuperBlock::from_bytes_at(&b, 0)).unwrap();
    assert_eq!(sb.volume_name(), "");
    assert!(sb.describe().contains("  volume name:       (none)\n"));
}

#[test]
fn c_str_stops_at_first_nul() {
    assert_eq!(c_str(b"ab\0cd"), "ab");
    assert_eq!(c_str(b"abcd"), "abcd");
    assert_eq!(c_str(b"\0abc"), "");
    assert_eq!(c_str(&[0x66, 0xff, 0x67, 0]), "f\u{fffd}g");
}

#[test]
fn fold_joins_halves_only_on_64bit() {
    assert_eq!(fold64(1, 2, true), 0x2_0000_0001);
    assert_eq!(fold64(1, 2, false), 1);
    assert_eq!(fold64(u32::MAX, u32::MAX, true), u64::MAX);
    assert_eq!(fold32(0x1234, 0xabcd, true), 0xabcd_1234);
    assert_eq!(fold32(0x1234, 0xabcd, false), 0x1234);
}

fn sample_group_bytes(len: usize) -> Vec<u8> {
    let mut b = vec![0u8; 64];
    put32(&mut b, 0, 100); // block_bitmap_lo
    put32(&mut b, 4, 101); // inode_bitmap_lo
    put32(&mut b, 8, 102); // inode_table_lo
    put16(&mut b, 12, 500); // free_blocks_count_lo
    put16(&mut b, 14, 600); // free_inodes_count_lo
    put16(&mut b, 16, 7); // used_dirs_count_lo
    put32(&mut b, 32, 1); // block_bitmap_hi
    put32(&mut b, 40, 2); // inode_table_hi
    put16(&mut b, 44, 3); // free_blocks_count_hi
    b.truncate(len);
    b
}

#[test]
fn group_descriptor_decode_32_and_64_bytes() {
    let g = GroupDescriptor::decode(3, &sample_group_bytes(32), false);
    assert_eq!(g.group, 3);
    assert_eq!(g.block_bitmap, 100);
    assert_eq!(g.inode_table, 102);
    assert_eq!(g.free_blocks_count, 500);
    let g = GroupDescriptor::decode(3, &sample_group_bytes(64), true);
    assert_eq!(g.block_bitmap, (1u64 << 32) + 100);
    assert_eq!(g.inode_table, (2u64 << 32) + 102);
    assert_eq!(g.free_blocks_count, (3 << 16) + 500);
    assert_eq!(g.used_dirs_count, 7);
    // a 32-byte read leaves the high halves zero even on a 64-bit volume
    let g = GroupDescriptor::decode(3, &sample_group_bytes(32), true);
    assert_eq!(g.block_bitmap, 100);
}

#[test]
fn group_descriptor_describe_text() {
    let g = GroupDescriptor::decode(3, &sample_group_bytes(32), false);
    assert_eq!(
        g.describe(),
        "group   3: inode table @ block 102, block bitmap @ 100, inode bitmap @ 101, 500 free blocks, 600 free inodes, 7 dirs"
    );
}

#[test]
fn offsets_and_overflow() {
    let sb = sample_superblock();
    assert_eq!(sb.group_desc_offset(0), Some(4096));
    assert_eq!(sb.group_desc_offset(1), Some(4096 + 32));
    assert_eq!(sb.block_offset(3), Some(3 * 4096));
    assert_eq!(sb.block_offset(u64::MAX), None);
    let g = GroupDescriptor::decode(0, &sample_group_bytes(32), false);
    assert_eq!(sb.inode_offset(&g, 2), Some(102 * 4096 + 2 * 256));
    assert_eq!(sb.locate_inode(0), Err(Ext4Error::InvalidInodeNumber));
    assert_eq!(sb.locate_inode(1), Ok((0, 0)));
    assert_eq!(sb.locate_inode(8193), Ok((1, 0)));
    assert_eq!(sb.locate_inode(8192), Ok((0, 8191)));
    assert_eq!(Ext4Error::InvalidInodeNumber.message(), "Select a valid inode");
}

fn dir_inode_bytes(extent_words: &[u32]) -> Vec<u8> {
    let mut b = vec![0u8; 256];
    put16(&mut b, 0, 0o040755); // mode
    put16(&mut b, 2, 1000); // uid_lo
    put32(&mut b, 4, 4096); // size_lo
    put32(&mut b, 8, 1700000000); // atime
    put32(&mut b, 12, 1700000001); // ctime
    put32(&mut b, 16, 1700000002); // mtime
    put16(&mut b, 24, 100); // gid_lo
    put16(&mut b, 26, 3); // links
    put32(&mut b, 28, 8); // blocks_lo
    put32(&mut b, 32, 0x80000); // flags
    for (i, w) in extent_words.iter().enumerate() {
        put32(&mut b, 40 + 4 * i, *w);
    }
    put16(&mut b, 120, 1); // uid_hi
    put32(&mut b, 144, 1600000000); // crtime
    b
}

fn one_extent_words(length: u16, start_lo: u32, start_hi: u16) -> Vec<u32> {
    vec![
        0xF30A | (1 << 16),
        4,
        0,
        0,
        length as u32 | ((start_hi as u32) << 16),
        start_lo,
    ]
}

#[test]
fn inode_decode_joins_fields() {
    let i = Inode::decode(2, &dir_inode_bytes(&one_extent_words(1, 1234, 0)));
    assert_eq!(i.number, 2);
    assert_eq!(i.uid, 65536 + 1000);
    assert_eq!(i.gid, 100);
    assert_eq!(i.size, 4096);
    assert_eq!(i.links_count, 3);
    assert_eq!(i.crtime, 1600000000);
    assert!(i.is_dir());
    assert_eq!(i.file_type(), "directory");
    assert_eq!(i.permissions(), 0o755);
    assert_eq!(i.mode_string(), "drwxr-xr-x");
}

#[test]
fn short_inode_record_is_zero_extended() {
    let full = dir_inode_bytes(&one_extent_words(1, 1234, 0));
    let i = Inode::decode(5, &full[..128]);
    assert_eq!(i.uid, 65536 + 1000);
    assert_eq!(i.crtime, 0);
}

#[test]
fn inode_from_raw_joins_size_halves() {
    let mut b = dir_inode_bytes(&[]);
    put32(&mut b, 108, 2); // size_hi
    put16(&mut b, 116, 1); // blocks_hi
    let raw = Ext4Inode::from_bytes_at(&b, 0);
    let i = Inode::from_raw(9, raw);
    assert_eq!(i.size, (2u64 << 32) + 4096);
    assert_eq!(i.blocks, (1u64 << 32) + 8);
}

#[test]
fn mode_strings_for_each_file_type() {
    let mk = |mode: u16| {
        let mut b = vec![0u8; 160];
        put16(&mut b, 0, mode);
        Inode::decode(1, &b)
    };
    assert_eq!(mk(0o100644).mode_string(), "-rw-r--r--");
    assert_eq!(mk(0o100644).file_type(), "regular file");
    assert_eq!(mk(0o120777).mode_string(), "lrwxrwxrwx");
    assert_eq!(mk(0o120777).file_type(), "symlink");
    assert_eq!(mk(0o010600).mode_string(), "prw-------");
    assert_eq!(mk(0o020600).file_type(), "character device");
    assert_eq!(mk(0o060600).mode_string(), "brw-------");
    assert_eq!(mk(0o140755).file_type(), "socket");
    assert_eq!(mk(0o004755).mode_string(), "?rwxr-xr-x");
    assert_eq!(mk(0o004755).file_type(), "unknown");
    assert_eq!(mk(0o104755).permissions(), 0o4755);
    assert!(!mk(0o100644).is_dir());
}

#[test]
fn inode_describe_text() {
    let i = Inode::decode(2, &dir_inode_bytes(&one_extent_words(1, 1234, 0)));
    let expected = [
        "inode 2\n",
        "  type:              directory\n",
        "  mode:              0755\n",
        "  owner:             uid 66536, gid 100\n",
        "  size:              4096 bytes\n",
        "  links:             3\n",
        "  blocks (512B):     8\n",
        "  flags:             0x80000\n",
        "  times (epoch):     a=1700000000 c=1700000001 m=1700000002 cr=1600000000",
    ]
    .concat();
    assert_eq!(i.describe(), expected);
}

#[test]
fn inode_row_and_listing() {
    let i = Inode::decode(2, &dir_inode_bytes(&one_extent_words(1, 1234, 0)));
    assert_eq!(i.describe_row(), "       2  drwxr-xr-x  uid 66536 gid 100         4096 bytes  3 links");
    assert_eq!(i.listing_line(), i.describe_row());
    assert!(i.is_listed(false));
    let free = Inode::decode(7, &[0u8; 160]);
    assert!(!free.is_listed(false));
    assert!(free.is_listed(true));
    assert_eq!(
        free.listing_line(),
        "       7  ?---------  uid 0     gid 0              0 bytes  0 links (free inode)"
    );
}

#[test]
fn extents_of_leaf_tree() {
    let i = Inode::decode(2, &dir_inode_bytes(&one_extent_words(3, 1234, 1)));
    let exts = inode_extents(&i).unwrap();
    assert_eq!(exts.len(), 1);
    assert_eq!(exts[0].len, 3);
    assert_eq!(exts[0].physical, (1u64 << 32) + 1234);
    assert_eq!(i.directory_blocks().unwrap(), vec![(1u64 << 32) + 1234, (1u64 << 32) + 1235, (1u64 << 32) + 1236]);
}

#[test]
fn unwritten_extent_lengths() {
    let i = Inode::decode(2, &dir_inode_bytes(&one_extent_words(32768, 10, 0)));
    assert_eq!(inode_extents(&i).unwrap()[0].len, 32768);
    let i = Inode::decode(2, &dir_inode_bytes(&one_extent_words(32769, 10, 0)));
    assert_eq!(inode_extents(&i).unwrap()[0].len, 1);
    let i = Inode::decode(2, &dir_inode_bytes(&one_extent_words(65535, 10, 0)));
    assert_eq!(inode_extents(&i).unwrap()[0].len, 32767);
}

#[test]
fn extent_errors() {
    let i = Inode::decode(12, &dir_inode_bytes(&[5, 6, 7]));
    assert_eq!(inode_extents(&i).unwrap_err(), Ext4Error::NotExtentMapped { inode: 12 });
    assert_eq!(i.extent_header().magic, 5);
    assert_eq!(
        Ext4Error::NotExtentMapped { inode: 12 }.message(),
        "inode 12 is not extent mapped. Not supported"
    );
    let i = Inode::decode(13, &dir_inode_bytes(&[0xF30A | (1 << 16), 4 | (2 << 16)]));
    assert_eq!(i.extent_header().depth, 2);
    assert_eq!(inode_extents(&i).unwrap_err(), Ext4Error::DeepExtentTree { inode: 13, depth: 2 });
    assert_eq!(
        Ext4Error::DeepExtentTree { inode: 13, depth: 2 }.message(),
        "inode 13 has a depth 2 extent tree"
    );
}

#[test]
fn directory_blocks_refuses_files() {
    let mut b = dir_inode_bytes(&one_extent_words(1, 1, 0));
    put16(&mut b, 0, 0o100644);
    let i = Inode::decode(14, &b);
    assert_eq!(i.directory_blocks().unwrap_err(), Ext4Error::NotADirectory { inode: 14 });
    assert_eq!(
        Ext4Error::NotADirectory { inode: 14 }.message(),
        "inode 14 is not a directory"
    );
}

#[test]
fn two_extents_give_blocks_in_order() {
    let words = vec![0xF30A | (2 << 16), 4, 0, 0, 2, 50, 2, 1, 90];
    let i = Inode::decode(2, &dir_inode_bytes(&words));
    assert_eq!(i.directory_blocks().unwrap(), vec![50, 51, 90]);
}

fn dir_record(b: &mut Vec<u8>, inode: u32, rec_len: u16, file_type: u8, name: &[u8]) {
    let start = b.len();
    b.extend_from_slice(&inode.to_le_bytes());
    b.extend_from_slice(&rec_len.to_le_bytes());
    b.push(name.len() as u8);
    b.push(file_type);
    b.extend_from_slice(name);
    b.resize(start + rec_len as usize, 0);
}

#[test]
fn directory_block_entries() {
    let mut block = Vec::new();
    dir_record(&mut block, 2, 12, 2, b".");
    dir_record(&mut block, 2, 12, 2, b"..");
    dir_record(&mut block, 0, 16, 1, b"gone");
    dir_record(&mut block, 11, 20, 2, b"lost+found");
    let rest = 128 - block.len() as u16;
    dir_record(&mut block, 12, rest, 1, b"hello.txt");
    let mut out = vec![DirEntry { inode: 99, file_type: 1, name: "kept".to_string() }];
    parse_dir_block(&block, &mut out);
    let names: Vec<&str> = out.iter().map(|e| e.name.as_str()).collect();
    assert_eq!(names, vec!["kept", ".", "..", "lost+found", "hello.txt"]);
    assert_eq!(out[3].inode, 11);
    assert_eq!(out[3].file_type, 2);
    assert_eq!(out[4].inode, 12);
}

#[test]
fn directory_block_stops_at_short_record() {
    let mut block = Vec::new();
    dir_record(&mut block, 2, 12, 2, b".");
    block.extend_from_slice(&[5, 0, 0, 0, 4, 0, 1, 1]);
    dir_record(&mut block, 7, 12, 1, b"x");
    let mut out = Vec::new();
    parse_dir_block(&block, &mut out);
    assert_eq!(out.len(), 1);
}

#[test]
fn directory_name_past_block_is_skipped() {
    let mut block = Vec::new();
    dir_record(&mut block, 2, 12, 2, b".");
    block.extend_from_slice(&[9, 0, 0, 0, 12, 0, 200, 1, b'a', b'b', b'c', b'd']);
    let mut out = Vec::new();
    parse_dir_block(&block, &mut out);
    assert_eq!(out.len(), 1);
    assert_eq!(out[0].name, ".");
}

#[test]
fn directory_entry_text() {
    let e = DirEntry { inode: 11, file_type: 2, name: "lost+found".to_string() };
    assert_eq!(e.file_type_str(), "directory");
    assert_eq!(e.describe(), "      11  directory         lost+found");
    let e = DirEntry { inode: 12, file_type: 9, name: "x".to_string() };
    assert_eq!(e.file_type_str(), "unknown");
    for (code, name) in [(1, "regular file"), (3, "character device"), (4, "block device"), (5, "fifo"), (6, "socket"), (7, "symlink"), (0, "unknown")] {
        let e = DirEntry { inode: 1, file_type: code, name: String::new() };
        assert_eq!(e.file_type_str(), name);
    }
}

#[test]
fn group_count_rounds_up() {
    let mut b = sample_superblock_bytes();
    put32(&mut b, 4, 65537);
    let sb = Superblock::from_raw(Ext4SuperBlock::from_bytes_at(&b, 0)).unwrap();
    assert_eq!(sb.group_count(), 3);
    put32(&mut b, 4, 0);
    let sb = Superblock::from_raw(Ext4SuperBlock::from_bytes_at(&b, 0)).unwrap();
    assert_eq!(sb.group_count(), 0);
}

#[test]
fn densest_directory_block() {
    let mut block = Vec::new();
    dir_record(&mut block, 1, 8, 1, b"");
    dir_record(&mut block, 2, 8, 1, b"");
    let mut out = Vec::new();
    parse_dir_block(&block, &mut out);
    assert_eq!(out.len(), block.len() / 8);
    assert_eq!(out[1].inode, 2);
    assert_eq!(out[1].name, "");
}

#[test]
fn ascii_and_invalid_directory_names() {
    let mut block = Vec::new();
    dir_record(&mut block, 3, 12, 1, b"abc");
    dir_record(&mut block, 4, 12, 1, &[b'a', 0xc3]);
    let mut out = Vec::new();
    parse_dir_block(&block, &mut out);
    assert_eq!(out[0].name, "abc");
    assert_eq!(out[1].name, "a\u{fffd}");
}

#[test]
fn utf8_label_is_decoded() {
    let mut b = sample_superblock_bytes();
    b[120..136].copy_from_slice(&[0; 16]);
    b[120..127].copy_from_slice("d\u{e9}sk\u{2713}".as_bytes()[..7].try_into().unwrap());
    let sb = Superblock::from_raw(Ext4SuperBlock::from_bytes_at(&b, 0)).unwrap();
    assert_eq!(sb.volume_name(), "d\u{e9}sk\u{fffd}");
    assert_eq!(c_str("d\u{e9}sk\0x".as_bytes()), "d\u{e9}sk");
    assert!(!c_str(&[0xc0, 0x80, 0]).contains('\0'));
}

#[test]
fn decode_groups_in_order() {
    let sb = sample_superblock();
    let descs = vec![sample_group_bytes(32), vec![], sample_group_bytes(64)];
    let groups = sb.decode_groups(&descs);
    assert_eq!(groups.len(), 3);
    assert_eq!(groups[0].group, 0);
    assert_eq!(groups[0].inode_table, 102);
    assert_eq!(groups[1].group, 1);
    assert_eq!(groups[1].inode_table, 0);
    assert_eq!(groups[2].group, 2);
    assert_eq!(groups[2].inode_table, 102);
}

#[test]
fn directory_listing_over_blocks() {
    let mut b1 = Vec::new();
    dir_record(&mut b1, 2, 12, 2, b".");
    dir_record(&mut b1, 0, 12, 1, b"x");
    dir_record(&mut b1, 2, 40, 2, b"..");
    let mut b2 = Vec::new();
    dir_record(&mut b2, 15, 64, 1, b"notes");
    let out = exposer::ext4::parse_dir_blocks(&vec![b1, b2]);
    let names: Vec<&str> = out.iter().map(|e| e.name.as_str()).collect();
    assert_eq!(names, vec![".", "..", "notes"]);
    assert!(out.iter().all(|e| e.inode != 0));
}

#[test]
fn inode_listing_text() {
    let used = Inode::decode(2, &dir_inode_bytes(&one_extent_words(1, 1234, 0)));
    let free = Inode::decode(7, &[0u8; 160]);
    let inodes = vec![used.clone(), free.clone()];
    let only_used = exposer::render::inode_listing(&inodes, false);
    assert_eq!(only_used, format!("{}\n", used.listing_line()));
    let all = exposer::render::inode_listing(&inodes, true);
    assert_eq!(all, format!("{}\n{}\n", used.listing_line(), free.listing_line()));
    assert!(all.ends_with(" (free inode)\n"));
    assert_eq!(exposer::render::inode_listing(&vec![], true), "");
}
