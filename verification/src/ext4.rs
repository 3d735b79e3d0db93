//! The ext4 structures the dissector works with, decoded from their raw
//! on-disk records, and the arithmetic that locates records on the volume.
use vstd::prelude::*;
use vstd::arithmetic::power2::pow2;

use crate::bytes::{copy_range, u16_at, u32_at, words_le_bytes, words_to_le_bytes, zero_pad, zero_padded};
use crate::text::{decode_text, decoded_text, decoded_text_encodes_back, digit, digit_char, string_from_chars};
use vstd::utf8::{encode_utf8, valid_utf8};
use crate::types::{
    Ext4Extent, Ext4ExtentHeader, Ext4GroupDescriptor, Ext4Inode, Ext4SuperBlock, EXTENT_RECORD_SIZE,
    GROUP_DESCRIPTOR_SIZE, INODE_RECORD_SIZE,
};

verus! {

/// Byte offset of the superblock from the start of the volume.
pub const SUPERBLOCK_OFFSET: u64 = 1024;

/// The value of `magic` in every ext2/3/4 superblock.
pub const EXT4_MAGIC: u16 = 0xEF53;

/// Incompatible feature: directory entries record the file type.
pub const INCOMPAT_FILETYPE: u32 = 0x0002;

/// Incompatible feature: files may be mapped by extents.
pub const INCOMPAT_EXTENTS: u32 = 0x0040;

/// Incompatible feature: block numbers are 64 bits wide.
pub const INCOMPAT_64BIT: u32 = 0x0080;

/// The value of `magic` in every extent tree header.
pub const EXT4_EXT_MAGIC: u16 = 0xF30A;

/// The longest initialized extent; longer raw lengths mark unwritten extents.
pub const EXT_INIT_MAX_LEN: u16 = 32768;

/// Inode size on revision 0 volumes.
pub const EXT4_LEGACY_INODE_SIZE: u16 = 128;

/// Block size when `log_block_size` is 0.
pub const EXT4_MIN_BLOCK_SIZE: u64 = 1024;

/// Group descriptor size without the 64-bit feature.
pub const EXT4_MIN_DESC_SIZE: u16 = 32;

/// The largest group descriptor that is decoded.
pub const EXT4_MAX_DESC_SIZE: usize = 64;

/// Permission bits of `i_mode`, including setuid, setgid and sticky.
pub const MODE_PERM_MASK: u16 = 0o7777;

/// Why a volume, an inode number or an inode was refused.
#[derive(Debug, Clone, Copy, PartialEq, Eq, Structural)]
pub enum Ext4Error {
    /// The superblock's magic is not `EXT4_MAGIC`.
    BadMagic { found: u16 },
    /// Inode number 0 was asked for; inodes are numbered from 1.
    InvalidInodeNumber,
    /// A directory listing was asked of an inode that is not a directory.
    NotADirectory { inode: u32 },
    /// The inode does not hold an extent tree.
    NotExtentMapped { inode: u32 },
    /// The inode's extent tree has interior levels.
    DeepExtentTree { inode: u32, depth: u16 },
}

/// `lo` extended by `hi` as the upper 32 bits.
pub open spec fn join64(lo: u32, hi: u32) -> u64 {
    (lo + hi * 0x1_0000_0000) as u64
}

/// `lo` extended by `hi` as the upper 16 bits.
pub open spec fn join32(lo: u16, hi: u16) -> u32 {
    (lo + hi * 0x1_0000) as u32
}

/// A split 64-bit counter: the high half counts only on 64-bit volumes.
pub open spec fn spec_fold64(lo: u32, hi: u32, has_64bit: bool) -> u64 {
    if has_64bit {
        join64(lo, hi)
    } else {
        lo as u64
    }
}

/// A split 32-bit counter: the high half counts only on 64-bit volumes.
pub open spec fn spec_fold32(lo: u16, hi: u16, has_64bit: bool) -> u32 {
    if has_64bit {
        join32(lo, hi)
    } else {
        lo as u32
    }
}

/// Combines the halves of a split 64-bit field.
pub fn fold64(lo: u32, hi: u32, has_64bit: bool) -> (r: u64)
    ensures
        r == spec_fold64(lo, hi, has_64bit),
{
    let lo = lo as u64;
    if has_64bit {
        let hi = hi as u64;
        assert(hi < 0x1_0000_0000 && lo < 0x1_0000_0000 ==> lo | (hi << 32u64) == lo + hi * 0x1_0000_0000)
            by (bit_vector);
        lo | (hi << 32u64)
    } else {
        lo
    }
}

/// Combines the halves of a split 32-bit field.
pub fn fold32(lo: u16, hi: u16, has_64bit: bool) -> (r: u32)
    ensures
        r == spec_fold32(lo, hi, has_64bit),
{
    let lo = lo as u32;
    if has_64bit {
        let hi = hi as u32;
        assert(hi < 0x1_0000 && lo < 0x1_0000 ==> lo | (hi << 16u32) == lo + hi * 0x1_0000)
            by (bit_vector);
        lo | (hi << 16u32)
    } else {
        lo
    }
}

/// The length of the NUL-terminated prefix of `s`: the index of its first
/// zero byte, or its whole length when it holds none.
pub open spec fn c_str_len(s: Seq<u8>) -> int {
    if exists|i: int| 0 <= i < s.len() && s[i] == 0 {
        choose|i: int| 0 <= i < s.len() && s[i] == 0 && forall|j: int| 0 <= j < i ==> s[j] != 0
    } else {
        s.len() as int
    }
}

proof fn lemma_c_str_len(s: Seq<u8>, n: int)
    requires
        0 <= n <= s.len(),
        forall|j: int| 0 <= j < n ==> s[j] != 0,
        n < s.len() ==> s[n] == 0,
    ensures
        c_str_len(s) == n,
{
    if n < s.len() {
        assert(s[n] == 0);
        let k = choose|i: int| 0 <= i < s.len() && s[i] == 0 && forall|j: int| 0 <= j < i ==> s[j] != 0;
        assert(0 <= k < s.len() && s[k] == 0 && forall|j: int| 0 <= j < k ==> s[j] != 0);
        if k < n {
            assert(s[k] != 0);
        }
        if k > n {
            assert(s[n] != 0);
        }
    }
}

/// The text of a NUL-terminated byte string: the bytes before the first
/// zero, decoded as UTF-8 with ill-formed sequences replaced.
pub open spec fn spec_c_str(s: Seq<u8>) -> Seq<char> {
    decoded_text(s.take(c_str_len(s)))
}

/// Decodes a NUL-terminated byte string, as the volume label is stored.
pub fn c_str(bytes: &[u8]) -> (r: String)
    ensures
        r@ == spec_c_str(bytes@),
        !r@.contains('\0'),
        valid_utf8(bytes@.take(c_str_len(bytes@))) ==> encode_utf8(r@) == bytes@.take(c_str_len(bytes@)),
{
    let mut prefix: Vec<u8> = Vec::new();
    let mut i: usize = 0;
    while i < bytes.len() && bytes[i] != 0
        invariant
            i <= bytes@.len(),
            prefix@ == bytes@.take(i as int),
            forall|j: int| 0 <= j < i ==> bytes@[j] != 0,
        decreases bytes@.len() - i,
    {
        prefix.push(bytes[i]);
        i = i + 1;
        assert(prefix@ =~= bytes@.take(i as int));
    }
    proof {
        lemma_c_str_len(bytes@, i as int);
        assert(!prefix@.contains(0u8));
        if valid_utf8(prefix@) {
            decoded_text_encodes_back(prefix@);
        }
    }
    decode_text(prefix.as_slice())
}


/// The superblock with the facts that everything else is computed from.
#[derive(Debug, Clone)]
pub struct Superblock {
    pub raw: Ext4SuperBlock,
    pub block_size: u64,
    pub blocks_count: u64,
    pub free_blocks_count: u64,
    pub inodes_count: u32,
    pub free_inodes_count: u32,
    pub blocks_per_group: u32,
    pub inodes_per_group: u32,
    pub first_data_block: u32,
    pub inode_size: u16,
    pub desc_size: u16,
    pub has_64bit: bool,
    pub has_extents: bool,
    pub has_filetype: bool,
}

/// `1024 << log`, as a `u64`: the shifted-out bits are lost, so from a
/// shift of 54 on nothing is left.
pub open spec fn spec_block_size(log: u32) -> u64 {
    if log <= 53 {
        pow2(10 + log as nat) as u64
    } else {
        0
    }
}

/// Whether the feature bit `flag` is set in `features`.
pub open spec fn has_feature(features: u32, flag: u32) -> bool {
    features & flag != 0
}

/// The descriptor size that a superblock implies.
pub open spec fn spec_desc_size(raw: Ext4SuperBlock) -> u16 {
    if has_feature(raw.feature_incompat, INCOMPAT_64BIT) {
        if raw.descriptor_size > EXT4_MIN_DESC_SIZE {
            raw.descriptor_size
        } else {
            EXT4_MIN_DESC_SIZE
        }
    } else {
        EXT4_MIN_DESC_SIZE
    }
}

/// The inode record size that a superblock implies.
pub open spec fn spec_inode_size(raw: Ext4SuperBlock) -> u16 {
    if raw.revision == 0 {
        EXT4_LEGACY_INODE_SIZE
    } else {
        raw.inode_size
    }
}

/// The superblock summary of a raw superblock whose magic is right.
pub open spec fn spec_superblock(raw: Ext4SuperBlock) -> Superblock {
    let has_64bit = has_feature(raw.feature_incompat, INCOMPAT_64BIT);
    Superblock {
        raw,
        block_size: spec_block_size(raw.log_block_size),
        blocks_count: spec_fold64(raw.blocks_count_lo, raw.blocks_count_hi, has_64bit),
        free_blocks_count: spec_fold64(raw.free_blocks_count_lo, raw.free_blocks_count_hi, has_64bit),
        inodes_count: raw.inodes_count,
        free_inodes_count: raw.free_inodes_count,
        blocks_per_group: raw.blocks_per_group,
        inodes_per_group: raw.inodes_per_group,
        first_data_block: raw.first_data_block,
        inode_size: spec_inode_size(raw),
        desc_size: spec_desc_size(raw),
        has_64bit,
        has_extents: has_feature(raw.feature_incompat, INCOMPAT_EXTENTS),
        has_filetype: has_feature(raw.feature_incompat, INCOMPAT_FILETYPE),
    }
}

/// `1024 << log` for a shift below 64.
fn block_size_of(log: u32) -> (r: u64)
    requires
        log < 64,
    ensures
        r == spec_block_size(log),
{
    let shift = log as u64;
    let r = EXT4_MIN_BLOCK_SIZE << shift;
    proof {
        if log <= 53 {
            vstd::arithmetic::power2::lemma_pow2_adds(10, shift as nat);
            vstd::arithmetic::power2::lemma2_to64();
            vstd::arithmetic::power2::lemma_pow2_pos(shift as nat);
            vstd::arithmetic::power2::lemma_pow2_strictly_increases(10 + shift as nat, 64);
            vstd::arithmetic::power2::lemma2_to64_rest();
            vstd::bits::lemma_u64_shl_is_mul(1024u64, shift);
        } else {
            assert(54 <= shift < 64 ==> 1024u64 << shift == 0) by (bit_vector);
        }
    }
    r
}

impl Superblock {
    /// Checks the magic and derives the facts that the rest of the volume is
    /// read with. A wrong magic is refused with the magic found.
    pub fn from_raw(raw: Ext4SuperBlock) -> (r: Result<Superblock, Ext4Error>)
        requires
            raw.magic == EXT4_MAGIC ==> raw.log_block_size < 64,
        ensures
            raw.magic != EXT4_MAGIC ==> r == Err::<Superblock, Ext4Error>(Ext4Error::BadMagic { found: raw.magic }),
            raw.magic == EXT4_MAGIC ==> r == Ok::<Superblock, Ext4Error>(spec_superblock(raw)),
    {
        let magic = raw.magic;
        if magic != EXT4_MAGIC {
            return Err(Ext4Error::BadMagic { found: magic });
        }
        let incompat = raw.feature_incompat;
        let has_64bit = incompat & INCOMPAT_64BIT != 0;
        let has_extents = incompat & INCOMPAT_EXTENTS != 0;
        let has_filetype = incompat & INCOMPAT_FILETYPE != 0;

        let block_size = block_size_of(raw.log_block_size);
        let blocks_count = fold64(raw.blocks_count_lo, raw.blocks_count_hi, has_64bit);
        let free_blocks_count = fold64(raw.free_blocks_count_lo, raw.free_blocks_count_hi, has_64bit);

        let desc_size = if has_64bit {
            if raw.descriptor_size > EXT4_MIN_DESC_SIZE {
                raw.descriptor_size
            } else {
                EXT4_MIN_DESC_SIZE
            }
        } else {
            EXT4_MIN_DESC_SIZE
        };

        let inode_size = if raw.revision == 0 {
            EXT4_LEGACY_INODE_SIZE
        } else {
            raw.inode_size
        };

        Ok(Superblock {
            raw,
            block_size,
            blocks_count,
            free_blocks_count,
            inodes_count: raw.inodes_count,
            free_inodes_count: raw.free_inodes_count,
            blocks_per_group: raw.blocks_per_group,
            inodes_per_group: raw.inodes_per_group,
            first_data_block: raw.first_data_block,
            inode_size,
            desc_size,
            has_64bit,
            has_extents,
            has_filetype,
        })
    }

    /// The volume label: the bytes of `volume_name` before the first NUL.
    pub fn volume_name(&self) -> (r: String)
        ensures
            r@ == spec_c_str(self.raw.volume_name@),
            !r@.contains('\0'),
            valid_utf8(self.raw.volume_name@.take(c_str_len(self.raw.volume_name@)))
                ==> encode_utf8(r@) == self.raw.volume_name@.take(c_str_len(self.raw.volume_name@)),
    {
        c_str(&self.raw.volume_name)
    }
}

/// A block group descriptor, with its split fields joined.
#[derive(Debug, Clone)]
pub struct GroupDescriptor {
    pub group: u32,
    pub block_bitmap: u64,
    pub inode_bitmap: u64,
    pub inode_table: u64,
    pub free_blocks_count: u32,
    pub free_inodes_count: u32,
    pub used_dirs_count: u32,
}

/// The descriptor of block group `group` decoded from `raw`.
pub open spec fn spec_group_descriptor(group: u32, raw: Ext4GroupDescriptor, has_64bit: bool) -> GroupDescriptor {
    GroupDescriptor {
        group,
        block_bitmap: spec_fold64(raw.block_bitmap_lo, raw.block_bitmap_hi, has_64bit),
        inode_bitmap: spec_fold64(raw.inode_bitmap_lo, raw.inode_bitmap_hi, has_64bit),
        inode_table: spec_fold64(raw.inode_table_lo, raw.inode_table_hi, has_64bit),
        free_blocks_count: spec_fold32(raw.free_blocks_count_lo, raw.free_blocks_count_hi, has_64bit),
        free_inodes_count: spec_fold32(raw.free_inodes_count_lo, raw.free_inodes_count_hi, has_64bit),
        used_dirs_count: spec_fold32(raw.used_dirs_count_lo, raw.used_dirs_count_hi, has_64bit),
    }
}

impl GroupDescriptor {
    /// Joins the split fields of a raw descriptor; the high halves count
    /// only on 64-bit volumes.
    pub fn from_raw(group: u32, raw: Ext4GroupDescriptor, has_64bit: bool) -> (r: GroupDescriptor)
        ensures
            r == spec_group_descriptor(group, raw, has_64bit),
    {
        GroupDescriptor {
            group,
            block_bitmap: fold64(raw.block_bitmap_lo, raw.block_bitmap_hi, has_64bit),
            inode_bitmap: fold64(raw.inode_bitmap_lo, raw.inode_bitmap_hi, has_64bit),
            inode_table: fold64(raw.inode_table_lo, raw.inode_table_hi, has_64bit),
            free_blocks_count: fold32(raw.free_blocks_count_lo, raw.free_blocks_count_hi, has_64bit),
            free_inodes_count: fold32(raw.free_inodes_count_lo, raw.free_inodes_count_hi, has_64bit),
            used_dirs_count: fold32(raw.used_dirs_count_lo, raw.used_dirs_count_hi, has_64bit),
        }
    }

    /// Decodes the descriptor of `group` from the `desc_size` bytes read for
    /// it: they fill the start of a 64-byte record whose rest is zero.
    pub fn decode(group: u32, bytes: &[u8], has_64bit: bool) -> (r: GroupDescriptor)
        requires
            bytes@.len() <= EXT4_MAX_DESC_SIZE,
        ensures
            r == spec_group_descriptor(
                group,
                Ext4GroupDescriptor::decoded_at(zero_padded(bytes@, 64), 0),
                has_64bit,
            ),
    {
        let buf = zero_pad(bytes, GROUP_DESCRIPTOR_SIZE);
        let raw = Ext4GroupDescriptor::from_bytes_at(buf.as_slice(), 0);
        GroupDescriptor::from_raw(group, raw, has_64bit)
    }
}

/// An inode's metadata and its block map.
#[derive(Debug, Clone)]
pub struct Inode {
    pub number: u32,
    pub mode: u16,
    pub uid: u32,
    pub gid: u32,
    pub size: u64,
    pub links_count: u16,
    pub blocks: u64,
    pub flags: u32,
    pub atime: u32,
    pub ctime: u32,
    pub mtime: u32,
    pub crtime: u32,
    pub block_map: [u32; 15],
}

impl Inode {
    /// Holds when `self` is inode `number` decoded from `raw`: owner ids,
    /// size and block count joined from their halves on every volume.
    pub open spec fn is_from_raw(&self, number: u32, raw: Ext4Inode) -> bool {
        &&& self.number == number
        &&& self.mode == raw.mode
        &&& self.uid == join32(raw.uid_lo, raw.uid_hi)
        &&& self.gid == join32(raw.gid_lo, raw.gid_hi)
        &&& self.size == join64(raw.size_lo, raw.size_hi)
        &&& self.links_count == raw.links_count
        &&& self.blocks == join64(raw.blocks_lo, raw.blocks_hi as u32)
        &&& self.flags == raw.flags
        &&& self.atime == raw.access_time
        &&& self.ctime == raw.change_time
        &&& self.mtime == raw.modify_time
        &&& self.crtime == raw.create_time
        &&& self.block_map == raw.block_map
    }

    /// Holds when `self` is inode `number` decoded from the record bytes `s`.
    pub open spec fn is_decoded_from(&self, number: u32, s: Seq<u8>) -> bool {
        &&& self.number == number
        &&& self.mode == u16_at(s, 0)
        &&& self.uid == join32(u16_at(s, 2), u16_at(s, 120))
        &&& self.gid == join32(u16_at(s, 24), u16_at(s, 122))
        &&& self.size == join64(u32_at(s, 4), u32_at(s, 108))
        &&& self.links_count == u16_at(s, 26)
        &&& self.blocks == join64(u32_at(s, 28), u16_at(s, 116) as u32)
        &&& self.flags == u32_at(s, 32)
        &&& self.atime == u32_at(s, 8)
        &&& self.ctime == u32_at(s, 12)
        &&& self.mtime == u32_at(s, 16)
        &&& self.crtime == u32_at(s, 144)
        &&& forall|i: int| 0 <= i < 15 ==> self.block_map@[i] == u32_at(s, 40 + 4 * i)
    }

    /// The inode numbered `number` whose on-disk record is `raw`.
    pub fn from_raw(number: u32, raw: Ext4Inode) -> (r: Inode)
        ensures
            r.is_from_raw(number, raw),
    {
        let uid = fold32(raw.uid_lo, raw.uid_hi, true);
        let gid = fold32(raw.gid_lo, raw.gid_hi, true);
        let size = fold64(raw.size_lo, raw.size_hi, true);
        let blocks = fold64(raw.blocks_lo, raw.blocks_hi as u32, true);
        Inode {
            number,
            mode: raw.mode,
            uid,
            gid,
            size,
            links_count: raw.links_count,
            blocks,
            flags: raw.flags,
            atime: raw.access_time,
            ctime: raw.change_time,
            mtime: raw.modify_time,
            crtime: raw.create_time,
            block_map: raw.block_map,
        }
    }

    /// Decodes inode `number` from the `inode_size` bytes read for it: the
    /// first 160 of them, zero-extended when fewer were read.
    pub fn decode(number: u32, bytes: &[u8]) -> (r: Inode)
        ensures
            r.is_decoded_from(number, zero_padded(bytes@, 160)),
    {
        let buf = zero_pad(bytes, INODE_RECORD_SIZE);
        let raw = Ext4Inode::from_bytes_at(buf.as_slice(), 0);
        Inode::from_raw(number, raw)
    }
}

/// Mask of the file-type bits of `i_mode`.
pub const S_IFMT: u32 = 0o170000;
/// File type: named pipe.
pub const S_IFIFO: u32 = 0o010000;
/// File type: character device.
pub const S_IFCHR: u32 = 0o020000;
/// File type: directory.
pub const S_IFDIR: u32 = 0o040000;
/// File type: block device.
pub const S_IFBLK: u32 = 0o060000;
/// File type: regular file.
pub const S_IFREG: u32 = 0o100000;
/// File type: symbolic link.
pub const S_IFLNK: u32 = 0o120000;
/// File type: socket.
pub const S_IFSOCK: u32 = 0o140000;
/// Owner may read.
pub const S_IRUSR: u32 = 0o400;
/// Owner may write.
pub const S_IWUSR: u32 = 0o200;
/// Owner may execute.
pub const S_IXUSR: u32 = 0o100;
/// Group may read.
pub const S_IRGRP: u32 = 0o040;
/// Group may write.
pub const S_IWGRP: u32 = 0o020;
/// Group may execute.
pub const S_IXGRP: u32 = 0o010;
/// Others may read.
pub const S_IROTH: u32 = 0o004;
/// Others may write.
pub const S_IWOTH: u32 = 0o002;
/// Others may execute.
pub const S_IXOTH: u32 = 0o001;

/// The file-type bits of a mode.
pub open spec fn file_format(mode: u16) -> u32 {
    (mode as u32) & S_IFMT
}

/// The name of the file type that a mode records.
pub open spec fn file_type_name(mode: u16) -> Seq<char> {
    let f = file_format(mode);
    if f == S_IFIFO {
        "fifo"@
    } else if f == S_IFCHR {
        "character device"@
    } else if f == S_IFDIR {
        "directory"@
    } else if f == S_IFBLK {
        "block device"@
    } else if f == S_IFREG {
        "regular file"@
    } else if f == S_IFLNK {
        "symlink"@
    } else if f == S_IFSOCK {
        "socket"@
    } else {
        "unknown"@
    }
}

/// The letter that `ls -l` shows for the file type of a mode.
pub open spec fn type_letter(mode: u16) -> char {
    let f = file_format(mode);
    if f == S_IFIFO {
        'p'
    } else if f == S_IFCHR {
        'c'
    } else if f == S_IFDIR {
        'd'
    } else if f == S_IFBLK {
        'b'
    } else if f == S_IFREG {
        '-'
    } else if f == S_IFLNK {
        'l'
    } else if f == S_IFSOCK {
        's'
    } else {
        '?'
    }
}

/// `letter` when the permission `bit` is set in `mode`, else `-`.
pub open spec fn perm_letter(mode: u16, bit: u32, letter: char) -> char {
    if (mode as u32) & bit != 0 {
        letter
    } else {
        '-'
    }
}

/// The ten-character mode string that `ls -l` shows, such as `drwxr-xr-x`.
pub open spec fn spec_mode_string(mode: u16) -> Seq<char> {
    seq![
        type_letter(mode),
        perm_letter(mode, S_IRUSR, 'r'),
        perm_letter(mode, S_IWUSR, 'w'),
        perm_letter(mode, S_IXUSR, 'x'),
        perm_letter(mode, S_IRGRP, 'r'),
        perm_letter(mode, S_IWGRP, 'w'),
        perm_letter(mode, S_IXGRP, 'x'),
        perm_letter(mode, S_IROTH, 'r'),
        perm_letter(mode, S_IWOTH, 'w'),
        perm_letter(mode, S_IXOTH, 'x'),
    ]
}

fn perm_char(mode: u16, bit: u32, letter: char) -> (c: char)
    ensures
        c == perm_letter(mode, bit, letter),
{
    if mode as u32 & bit != 0 {
        letter
    } else {
        '-'
    }
}

impl Inode {
    /// Whether the inode is a directory.
    pub fn is_dir(&self) -> (r: bool)
        ensures
            r == (file_format(self.mode) == S_IFDIR),
    {
        self.mode as u32 & S_IFMT == S_IFDIR
    }

    /// The name of the inode's file type, `unknown` for an unassigned one.
    pub fn file_type(&self) -> (r: &'static str)
        ensures
            r@ == file_type_name(self.mode),
    {
        let f = self.mode as u32 & S_IFMT;
        if f == S_IFIFO {
            "fifo"
        } else if f == S_IFCHR {
            "character device"
        } else if f == S_IFDIR {
            "directory"
        } else if f == S_IFBLK {
            "block device"
        } else if f == S_IFREG {
            "regular file"
        } else if f == S_IFLNK {
            "symlink"
        } else if f == S_IFSOCK {
            "socket"
        } else {
            "unknown"
        }
    }

    /// The permission bits of the mode, setuid, setgid and sticky included.
    pub fn permissions(&self) -> (r: u16)
        ensures
            r == self.mode & MODE_PERM_MASK,
    {
        self.mode & MODE_PERM_MASK
    }

    /// The mode as `ls -l` shows it.
    pub fn mode_string(&self) -> (r: String)
        ensures
            r@ == spec_mode_string(self.mode),
    {
        let f = self.mode as u32 & S_IFMT;
        let type_char = if f == S_IFIFO {
            'p'
        } else if f == S_IFCHR {
            'c'
        } else if f == S_IFDIR {
            'd'
        } else if f == S_IFBLK {
            'b'
        } else if f == S_IFREG {
            '-'
        } else if f == S_IFLNK {
            'l'
        } else if f == S_IFSOCK {
            's'
        } else {
            '?'
        };
        let mut s: Vec<char> = Vec::new();
        s.push(type_char);
        s.push(perm_char(self.mode, S_IRUSR, 'r'));
        s.push(perm_char(self.mode, S_IWUSR, 'w'));
        s.push(perm_char(self.mode, S_IXUSR, 'x'));
        s.push(perm_char(self.mode, S_IRGRP, 'r'));
        s.push(perm_char(self.mode, S_IWGRP, 'w'));
        s.push(perm_char(self.mode, S_IXGRP, 'x'));
        s.push(perm_char(self.mode, S_IROTH, 'r'));
        s.push(perm_char(self.mode, S_IWOTH, 'w'));
        s.push(perm_char(self.mode, S_IXOTH, 'x'));
        assert(s@ =~= spec_mode_string(self.mode));
        crate::text::string_from_chars(s.as_slice())
    }
}

/// A run of contiguous physical blocks that holds part of a file.
#[derive(Debug, Clone, Copy)]
pub struct Extent {
    pub len: u16,
    pub physical: u64,
}

/// An entry of a directory block.
#[derive(Debug, Clone)]
pub struct DirEntry {
    pub inode: u32,
    pub file_type: u8,
    pub name: String,
}

/// A directory entry as a value: its name as characters.
pub struct DirEntryView {
    pub inode: u32,
    pub file_type: u8,
    pub name: Seq<char>,
}

impl View for DirEntry {
    type V = DirEntryView;

    open spec fn view(&self) -> DirEntryView {
        DirEntryView { inode: self.inode, file_type: self.file_type, name: self.name@ }
    }
}

/// The name of a directory entry's file type code.
pub open spec fn dir_file_type_name(code: u8) -> Seq<char> {
    if code == 1 {
        "regular file"@
    } else if code == 2 {
        "directory"@
    } else if code == 3 {
        "character device"@
    } else if code == 4 {
        "block device"@
    } else if code == 5 {
        "fifo"@
    } else if code == 6 {
        "socket"@
    } else if code == 7 {
        "symlink"@
    } else {
        "unknown"@
    }
}

impl DirEntry {
    /// The name of the entry's file type code, `unknown` for 0 and codes
    /// above 7.
    pub fn file_type_str(&self) -> (r: &'static str)
        ensures
            r@ == dir_file_type_name(self.file_type),
    {
        match self.file_type {
            1 => "regular file",
            2 => "directory",
            3 => "character device",
            4 => "block device",
            5 => "fifo",
            6 => "socket",
            7 => "symlink",
            _ => "unknown",
        }
    }
}

/// The 60 bytes of an inode's block map, where an extent tree root lives.
pub open spec fn extent_tree_bytes(inode: Inode) -> Seq<u8> {
    words_le_bytes(inode.block_map@)
}

/// The magic of the extent header at the start of an inode's block map.
pub open spec fn tree_magic(inode: Inode) -> u16 {
    u16_at(extent_tree_bytes(inode), 0)
}

/// The number of entries that the inode's extent header announces.
pub open spec fn tree_entries(inode: Inode) -> u16 {
    u16_at(extent_tree_bytes(inode), 2)
}

/// The depth of the inode's extent tree.
pub open spec fn tree_depth(inode: Inode) -> u16 {
    u16_at(extent_tree_bytes(inode), 6)
}

/// Whether a leaf-only extent tree announces no more entries than the
/// block map holds after its header (four).
pub open spec fn extent_entries_fit(inode: Inode) -> bool {
    tree_magic(inode) == EXT4_EXT_MAGIC && tree_depth(inode) == 0 ==> tree_entries(inode) <= 4
}

/// The length of an extent from its raw length: above `EXT_INIT_MAX_LEN` the
/// extent is unwritten and the excess is its length; exactly
/// `EXT_INIT_MAX_LEN` is a written extent of that length.
pub open spec fn actual_len(raw_len: u16) -> u16 {
    if raw_len <= EXT_INIT_MAX_LEN {
        raw_len
    } else {
        (raw_len - EXT_INIT_MAX_LEN) as u16
    }
}

/// The `i`-th extent after the header in the extent tree bytes `s`.
pub open spec fn extent_at(s: Seq<u8>, i: int) -> Extent {
    let base = 12 + 12 * i;
    Extent {
        len: actual_len(u16_at(s, base + 4)),
        physical: join64(u32_at(s, base + 8), u16_at(s, base + 6) as u32),
    }
}

/// The extents of an inode, or why they cannot be listed.
pub open spec fn spec_inode_extents(inode: Inode) -> Result<Seq<Extent>, Ext4Error> {
    if tree_magic(inode) != EXT4_EXT_MAGIC {
        Err(Ext4Error::NotExtentMapped { inode: inode.number })
    } else if tree_depth(inode) != 0 {
        Err(Ext4Error::DeepExtentTree { inode: inode.number, depth: tree_depth(inode) })
    } else {
        Ok(Seq::new(tree_entries(inode) as nat, |i: int| extent_at(extent_tree_bytes(inode), i)))
    }
}

fn extent_from_raw(e: Ext4Extent) -> (r: Extent)
    ensures
        r.len == actual_len(e.length),
        r.physical == join64(e.start_lo, e.start_hi as u32),
{
    let raw_len = e.length;
    let len = if raw_len <= EXT_INIT_MAX_LEN {
        raw_len
    } else {
        raw_len - EXT_INIT_MAX_LEN
    };
    let physical = fold64(e.start_lo, e.start_hi as u32, true);
    Extent { len, physical }
}

impl Inode {
    /// The extent header at the start of the inode's block map.
    pub fn extent_header(&self) -> (r: Ext4ExtentHeader)
        ensures
            r.is_decoding_at(extent_tree_bytes(*self), 0),
    {
        let bytes = words_to_le_bytes(self.block_map.as_slice());
        Ext4ExtentHeader::from_bytes_at(bytes.as_slice(), 0)
    }
}

/// The extents of an inode whose block map holds a leaf-only extent tree.
/// An inode without an extent header, or with a deeper tree, is refused.
pub fn inode_extents(inode: &Inode) -> (r: Result<Vec<Extent>, Ext4Error>)
    requires
        extent_entries_fit(*inode),
    ensures
        match r {
            Ok(v) => spec_inode_extents(*inode) == Ok::<Seq<Extent>, Ext4Error>(v@),
            Err(e) => spec_inode_extents(*inode) == Err::<Seq<Extent>, Ext4Error>(e),
        },
{
    let bytes = words_to_le_bytes(inode.block_map.as_slice());
    let ghost t = extent_tree_bytes(*inode);
    assert(bytes@ == t);
    let header = Ext4ExtentHeader::from_bytes_at(bytes.as_slice(), 0);
    if header.magic != EXT4_EXT_MAGIC {
        return Err(Ext4Error::NotExtentMapped { inode: inode.number });
    }
    let depth = header.depth;
    if depth != 0 {
        return Err(Ext4Error::DeepExtentTree { inode: inode.number, depth });
    }
    let count = header.entries as usize;
    let mut extents: Vec<Extent> = Vec::new();
    let mut i: usize = 0;
    while i < count
        invariant
            count <= 4,
            bytes@ == t,
            bytes@.len() == 60,
            i <= count,
            extents@.len() == i,
            forall|j: int| 0 <= j < i ==> extents@[j] == extent_at(t, j),
        decreases count - i,
    {
        let off = EXTENT_RECORD_SIZE + i * EXTENT_RECORD_SIZE;
        let e = Ext4Extent::from_bytes_at(bytes.as_slice(), off);
        extents.push(extent_from_raw(e));
        i = i + 1;
    }
    assert(extents@ =~= Seq::new(tree_entries(*inode) as nat, |j: int| extent_at(t, j)));
    Ok(extents)
}

/// The physical blocks of one extent, in order.
pub open spec fn extent_blocks(e: Extent) -> Seq<u64> {
    Seq::new(e.len as nat, |i: int| (e.physical + i) as u64)
}

/// The physical blocks of a sequence of extents, extent after extent.
pub open spec fn blocks_of(exts: Seq<Extent>) -> Seq<u64>
    decreases exts.len(),
{
    if exts.len() == 0 {
        seq![]
    } else {
        blocks_of(exts.drop_last()) + extent_blocks(exts.last())
    }
}

/// The blocks that hold a directory's entries, or why they cannot be listed.
pub open spec fn spec_directory_blocks(inode: Inode) -> Result<Seq<u64>, Ext4Error> {
    if file_format(inode.mode) != S_IFDIR {
        Err(Ext4Error::NotADirectory { inode: inode.number })
    } else {
        match spec_inode_extents(inode) {
            Ok(exts) => Ok(blocks_of(exts)),
            Err(e) => Err(e),
        }
    }
}

impl Inode {
    /// The physical blocks to read, in order, to list this directory.
    /// An inode that is not a directory is refused first.
    pub fn directory_blocks(&self) -> (r: Result<Vec<u64>, Ext4Error>)
        requires
            file_format(self.mode) == S_IFDIR ==> extent_entries_fit(*self),
        ensures
            match r {
                Ok(v) => spec_directory_blocks(*self) == Ok::<Seq<u64>, Ext4Error>(v@),
                Err(e) => spec_directory_blocks(*self) == Err::<Seq<u64>, Ext4Error>(e),
            },
    {
        if !self.is_dir() {
            return Err(Ext4Error::NotADirectory { inode: self.number });
        }
        let extents = match inode_extents(self) {
            Ok(v) => v,
            Err(e) => {
                return Err(e);
            },
        };
        let ghost exts = extents@;
        let mut blocks: Vec<u64> = Vec::new();
        let mut k: usize = 0;
        while k < extents.len()
            invariant
                exts == extents@,
                k <= exts.len(),
                blocks@ == blocks_of(exts.take(k as int)),
                forall|j: int| 0 <= j < exts.len() ==> #[trigger] exts[j].physical < 0x1_0000_0000_0000,
            decreases exts.len() - k,
        {
            let extent = extents[k];
            let ghost before = blocks@;
            let mut i: u64 = 0;
            while i < extent.len as u64
                invariant
                    i <= extent.len,
                    extent.physical < 0x1_0000_0000_0000,
                    blocks@ == before + extent_blocks(extent).take(i as int),
                decreases extent.len - i,
            {
                blocks.push(extent.physical + i);
                i = i + 1;
                assert(blocks@ =~= before + extent_blocks(extent).take(i as int));
            }
            assert(extent_blocks(extent).take(i as int) =~= extent_blocks(extent));
            assert(exts.take(k + 1).drop_last() =~= exts.take(k as int));
            k = k + 1;
        }
        assert(exts.take(k as int) =~= exts);
        Ok(blocks)
    }
}

/// The entry that the directory record at `pos` in `b` contributes: none
/// when its inode is 0 (an unused record) or its name runs past the block.
pub open spec fn record_entry(b: Seq<u8>, pos: int) -> Seq<DirEntryView> {
    let inode = u32_at(b, pos);
    let name_len = b[pos + 6];
    if inode != 0 && pos + 8 + name_len <= b.len() {
        seq![DirEntryView {
            inode,
            file_type: b[pos + 7],
            name: decoded_text(b.subrange(pos + 8, pos + 8 + name_len)),
        }]
    } else {
        seq![]
    }
}

/// The entries of the directory records from `pos` on: each record's
/// length leads to the next, and the walk stops where fewer than 8 bytes
/// remain or at a record length below 8.
pub open spec fn dir_entries_from(b: Seq<u8>, pos: int) -> Seq<DirEntryView>
    decreases b.len() - pos,
{
    if pos < 0 || pos + 8 > b.len() {
        seq![]
    } else {
        let rec_len = u16_at(b, pos + 4);
        if rec_len < 8 {
            seq![]
        } else if pos + rec_len + 8 <= b.len() {
            record_entry(b, pos) + dir_entries_from(b, pos + rec_len)
        } else {
            record_entry(b, pos)
        }
    }
}

/// The entries of a directory block, in the order of its records.
pub open spec fn dir_entries(b: Seq<u8>) -> Seq<DirEntryView> {
    dir_entries_from(b, 0)
}

/// The values of a sequence of directory entries.
pub open spec fn entry_views(s: Seq<DirEntry>) -> Seq<DirEntryView> {
    s.map_values(|e: DirEntry| e@)
}

/// Appends the entries of one directory block to `out`.
pub fn parse_dir_block(block: &[u8], out: &mut Vec<DirEntry>)
    ensures
        entry_views(final(out)@) == entry_views(old(out)@) + dir_entries(block@),
{
    let len = block.len();
    let ghost b = block@;
    let ghost start = entry_views(out@);
    let mut pos: usize = 0;
    while len - pos >= 8
        invariant
            len == b.len(),
            b == block@,
            pos <= len,
            start + dir_entries(b) == entry_views(out@) + dir_entries_from(b, pos as int),
        decreases len - pos,
    {
        let inode = crate::bytes::read_u32(block, pos);
        let record_length = crate::bytes::read_u16(block, pos + 4) as usize;
        let name_length = block[pos + 6] as usize;
        let file_type = block[pos + 7];

        if record_length < 8 {
            // A record shorter than its own head ends the walk.
            assert(dir_entries_from(b, pos as int) == Seq::<DirEntryView>::empty());
            assert(dir_entries_from(b, len as int) == Seq::<DirEntryView>::empty());
            pos = len;
        } else {
            let ghost before = entry_views(out@);
            if inode != 0 && name_length <= len - pos - 8 {
                let name_bytes = copy_range(block, pos + 8, pos + 8 + name_length);
                let name = decode_text(name_bytes.as_slice());
                out.push(DirEntry { inode, file_type, name });
            }
            assert(entry_views(out@) =~= before + record_entry(b, pos as int));
            if record_length <= len - pos {
                pos = pos + record_length;
            } else {
                pos = len;
            }
        }
    }
    assert(dir_entries_from(b, pos as int) == Seq::<DirEntryView>::empty());
    assert(start + dir_entries(b) =~= entry_views(out@));
}

/// `a / b` rounded up.
pub open spec fn ceil_div(a: nat, b: nat) -> nat {
    if a % b == 0 {
        a / b
    } else {
        a / b + 1
    }
}

/// `v` as a `u64`, or `None` where it does not fit.
pub open spec fn fit_u64(v: int) -> Option<u64> {
    if 0 <= v <= u64::MAX {
        Some(v as u64)
    } else {
        None
    }
}

/// Where block `block` starts on the volume.
pub open spec fn block_position(sb: Superblock, block: int) -> int {
    block * sb.block_size
}

/// Where the descriptor of `group` starts: the table follows the block
/// after `first_data_block`, one `desc_size` record per group.
pub open spec fn group_desc_position(sb: Superblock, group: u32) -> int {
    (sb.first_data_block + 1) * sb.block_size + group * sb.desc_size
}

/// Where inode `index` of a group starts: in that group's inode table, one
/// `inode_size` record per inode.
pub open spec fn inode_position(sb: Superblock, desc: GroupDescriptor, index: u32) -> int {
    desc.inode_table * sb.block_size + index * sb.inode_size
}

fn checked_mul_add(a: u64, b: u64, c: u64, d: u64) -> (r: Option<u64>)
    ensures
        r == fit_u64(a * b + c * d),
{
    proof {
        vstd::arithmetic::mul::lemma_mul_nonnegative(a as int, b as int);
        vstd::arithmetic::mul::lemma_mul_nonnegative(c as int, d as int);
    }
    match a.checked_mul(b) {
        None => None,
        Some(x) => match c.checked_mul(d) {
            None => None,
            Some(y) => x.checked_add(y),
        },
    }
}

impl Superblock {
    /// The number of block groups: the blocks divided by the blocks per
    /// group, rounded up.
    pub fn group_count(&self) -> (r: u64)
        requires
            self.blocks_per_group != 0,
        ensures
            r == ceil_div(self.blocks_count as nat, self.blocks_per_group as nat),
    {
        let per_group = self.blocks_per_group as u64;
        let q = self.blocks_count / per_group;
        if self.blocks_count % per_group == 0 {
            q
        } else {
            proof {
                let bc = self.blocks_count;
                assert(per_group != 1) by {
                    if per_group == 1 {
                        assert(bc % 1 == 0) by (nonlinear_arith);
                    }
                }
                vstd::arithmetic::div_mod::lemma_div_is_ordered_by_denominator(bc as int, 2, per_group as int);
            }
            q + 1
        }
    }

    /// The byte offset of block `block`, or `None` where it does not fit in
    /// 64 bits.
    pub fn block_offset(&self, block: u64) -> (r: Option<u64>)
        ensures
            r == fit_u64(block_position(*self, block as int)),
    {
        checked_mul_add(block, self.block_size, 0, 0)
    }

    /// The byte offset of the descriptor of `group`, or `None` where it does
    /// not fit in 64 bits.
    pub fn group_desc_offset(&self, group: u32) -> (r: Option<u64>)
        ensures
            r == fit_u64(group_desc_position(*self, group)),
    {
        checked_mul_add(self.first_data_block as u64 + 1, self.block_size, group as u64, self.desc_size as u64)
    }

    /// The block group that holds inode `number` and the inode's index in
    /// it. Inodes are numbered from 1, so 0 is refused.
    pub fn locate_inode(&self, number: u32) -> (r: Result<(u32, u32), Ext4Error>)
        requires
            number != 0 ==> self.inodes_per_group != 0,
        ensures
            number == 0 ==> r == Err::<(u32, u32), Ext4Error>(Ext4Error::InvalidInodeNumber),
            number != 0 ==> r == Ok::<(u32, u32), Ext4Error>((
                ((number - 1) / (self.inodes_per_group as int)) as u32,
                ((number - 1) % (self.inodes_per_group as int)) as u32,
            )),
    {
        if number == 0 {
            return Err(Ext4Error::InvalidInodeNumber);
        }
        let per_group = self.inodes_per_group;
        let group = (number - 1) / per_group;
        let index = (number - 1) % per_group;
        Ok((group, index))
    }

    /// The byte offset of inode `index` of the group described by `desc`,
    /// or `None` where it does not fit in 64 bits.
    pub fn inode_offset(&self, desc: &GroupDescriptor, index: u32) -> (r: Option<u64>)
        ensures
            r == fit_u64(inode_position(*self, *desc, index)),
    {
        checked_mul_add(desc.inode_table, self.block_size, index as u64, self.inode_size as u64)
    }
}

/// A byte as two lowercase hex digits.
pub open spec fn hex_pair(b: u8) -> Seq<char> {
    seq![digit_char((b / 16) as nat), digit_char((b % 16) as nat)]
}

/// The 16 bytes of a UUID in the 8-4-4-4-12 hex form.
pub open spec fn uuid_text(u: Seq<u8>) -> Seq<char> {
    hex_pair(u[0]) + hex_pair(u[1]) + hex_pair(u[2]) + hex_pair(u[3]) + seq!['-']
        + hex_pair(u[4]) + hex_pair(u[5]) + seq!['-']
        + hex_pair(u[6]) + hex_pair(u[7]) + seq!['-']
        + hex_pair(u[8]) + hex_pair(u[9]) + seq!['-']
        + hex_pair(u[10]) + hex_pair(u[11]) + hex_pair(u[12]) + hex_pair(u[13]) + hex_pair(u[14])
        + hex_pair(u[15])
}

fn push_hex_pair(v: &mut Vec<char>, b: u8)
    ensures
        final(v)@ == old(v)@ + hex_pair(b),
{
    v.push(digit((b / 16) as u64));
    v.push(digit((b % 16) as u64));
    assert(v@ =~= old(v)@ + hex_pair(b));
}

impl Superblock {
    /// The volume UUID in its usual 8-4-4-4-12 lowercase hex form.
    pub fn uuid(&self) -> (r: String)
        ensures
            r@ == uuid_text(self.raw.uuid@),
    {
        let u = &self.raw.uuid;
        let mut v: Vec<char> = Vec::new();
        push_hex_pair(&mut v, u[0]);
        push_hex_pair(&mut v, u[1]);
        push_hex_pair(&mut v, u[2]);
        push_hex_pair(&mut v, u[3]);
        v.push('-');
        push_hex_pair(&mut v, u[4]);
        push_hex_pair(&mut v, u[5]);
        v.push('-');
        push_hex_pair(&mut v, u[6]);
        push_hex_pair(&mut v, u[7]);
        v.push('-');
        push_hex_pair(&mut v, u[8]);
        push_hex_pair(&mut v, u[9]);
        v.push('-');
        push_hex_pair(&mut v, u[10]);
        push_hex_pair(&mut v, u[11]);
        push_hex_pair(&mut v, u[12]);
        push_hex_pair(&mut v, u[13]);
        push_hex_pair(&mut v, u[14]);
        push_hex_pair(&mut v, u[15]);
        assert(v@ =~= uuid_text(u@));
        string_from_chars(v.as_slice())
    }
}

/// The descriptor of block group `group` decoded from the bytes read for it.
pub open spec fn spec_decoded_group(group: u32, bytes: Seq<u8>, has_64bit: bool) -> GroupDescriptor {
    spec_group_descriptor(group, Ext4GroupDescriptor::decoded_at(zero_padded(bytes, 64), 0), has_64bit)
}

impl Superblock {
    /// Decodes the descriptors of every block group, in order, from the
    /// bytes read for each: the descriptor at index `g` is that of group `g`.
    pub fn decode_groups(&self, descs: &Vec<Vec<u8>>) -> (r: Vec<GroupDescriptor>)
        requires
            descs@.len() <= 0x1_0000_0000,
            forall|g: int| 0 <= g < descs@.len() ==> #[trigger] descs@[g]@.len() <= EXT4_MAX_DESC_SIZE,
        ensures
            r@.len() == descs@.len(),
            forall|g: int| 0 <= g < descs@.len() ==> {
                &&& #[trigger] r@[g] == spec_decoded_group(g as u32, descs@[g]@, self.has_64bit)
                &&& r@[g].group == g
            },
    {
        let mut groups: Vec<GroupDescriptor> = Vec::new();
        let mut g: usize = 0;
        while g < descs.len()
            invariant
                g <= descs@.len() <= 0x1_0000_0000,
                forall|k: int| 0 <= k < descs@.len() ==> #[trigger] descs@[k]@.len() <= EXT4_MAX_DESC_SIZE,
                groups@.len() == g,
                forall|k: int| 0 <= k < g ==> {
                    &&& #[trigger] groups@[k] == spec_decoded_group(k as u32, descs@[k]@, self.has_64bit)
                    &&& groups@[k].group == k
                },
            decreases descs@.len() - g,
        {
            let d = GroupDescriptor::decode(g as u32, descs[g].as_slice(), self.has_64bit);
            groups.push(d);
            g = g + 1;
        }
        groups
    }
}

/// The entries of a directory read as a sequence of blocks: the entries of
/// each block in turn.
pub open spec fn dir_listing(blocks: Seq<Seq<u8>>) -> Seq<DirEntryView>
    decreases blocks.len(),
{
    if blocks.len() == 0 {
        seq![]
    } else {
        dir_listing(blocks.drop_last()) + dir_entries(blocks.last())
    }
}

/// The contents of the blocks as byte sequences.
pub open spec fn block_contents(blocks: Seq<Vec<u8>>) -> Seq<Seq<u8>> {
    blocks.map_values(|b: Vec<u8>| b@)
}

/// Lists a directory from the contents of its blocks, read in the order
/// that `Inode::directory_blocks` gives.
pub fn parse_dir_blocks(blocks: &Vec<Vec<u8>>) -> (r: Vec<DirEntry>)
    ensures
        entry_views(r@) == dir_listing(block_contents(blocks@)),
{
    let mut out: Vec<DirEntry> = Vec::new();
    let mut k: usize = 0;
    while k < blocks.len()
        invariant
            k <= blocks@.len(),
            entry_views(out@) == dir_listing(block_contents(blocks@).take(k as int)),
        decreases blocks@.len() - k,
    {
        parse_dir_block(blocks[k].as_slice(), &mut out);
        proof {
            let bs = block_contents(blocks@);
            assert(bs.take(k + 1).drop_last() =~= bs.take(k as int));
            assert(bs.take(k + 1).last() == blocks@[k as int]@);
        }
        k = k + 1;
    }
    assert(block_contents(blocks@).take(k as int) =~= block_contents(blocks@));
    out
}

} // verus!
