//! The on-disk records of ext4, decoded field by field from little-endian bytes.
use vstd::prelude::*;

use crate::bytes::{read_u16, read_u32, read_u32_array, read_u64, read_u8_array, u16_at, u32_at, u64_at};

verus! {

/// Size in bytes of the on-disk superblock.
pub const SUPERBLOCK_SIZE: usize = 1024;

/// Size in bytes of the largest group descriptor form.
pub const GROUP_DESCRIPTOR_SIZE: usize = 64;

/// Number of inode bytes that are decoded.
pub const INODE_RECORD_SIZE: usize = 160;

/// Size in bytes of an extent header, extent or extent index.
pub const EXTENT_RECORD_SIZE: usize = 12;

/// Size in bytes of the fixed head of a directory record.
pub const DIR_ENTRY_HEAD_SIZE: usize = 8;

/// The ext4 superblock as it lies on disk, field for field.
#[derive(Debug, Copy, Clone)]
pub struct Ext4SuperBlock {
    pub inodes_count: u32,
    pub blocks_count_lo: u32,
    pub reserved_blocks_count_lo: u32,
    pub free_blocks_count_lo: u32,
    pub free_inodes_count: u32,
    pub first_data_block: u32,
    pub log_block_size: u32,
    pub log_cluster_size: u32,
    pub blocks_per_group: u32,
    pub clusters_per_group: u32,
    pub inodes_per_group: u32,
    pub modify_time: u32,
    pub write_time: u32,
    pub mount_count: u16,
    pub max_mount_count: u16,
    pub magic: u16,
    pub state: u16,
    pub error_policy: u16,
    pub minor_revision: u16,
    pub last_check_time: u32,
    pub check_interval: u32,
    pub creator_os: u32,
    pub revision: u32,
    pub default_reserved_uid: u16,
    pub default_reserved_gid: u16,
    pub first_inode: u32,
    pub inode_size: u16,
    pub block_group_number: u16,
    pub feature_compat: u32,
    pub feature_incompat: u32,
    pub feature_ro_compat: u32,
    pub uuid: [u8; 16],
    pub volume_name: [u8; 16],
    pub last_mounted_path: [u8; 64],
    pub algorithm_usage_bitmap: u32,
    pub prealloc_blocks: u8,
    pub prealloc_dir_blocks: u8,
    pub reserved_gdt_blocks: u16,
    pub journal_uuid: [u8; 16],
    pub journal_inode: u32,
    pub journal_device: u32,
    pub last_orphan: u32,
    pub hash_seed: [u32; 4],
    pub default_hash_version: u8,
    pub journal_backup_type: u8,
    pub descriptor_size: u16,
    pub default_mount_options: u32,
    pub first_meta_block_group: u32,
    pub mkfs_time: u32,
    pub journal_blocks: [u32; 17],
    pub blocks_count_hi: u32,
    pub reserved_blocks_count_hi: u32,
    pub free_blocks_count_hi: u32,
    pub min_extra_inode_size: u16,
    pub want_extra_inode_size: u16,
    pub flags: u32,
    pub raid_stride: u16,
    pub mmp_update_interval: u16,
    pub mmp_block: u64,
    pub raid_stripe_width: u32,
    pub log_groups_per_flex: u8,
    pub checksum_type: u8,
    pub encryption_level: u8,
    pub reserved_pad: u8,
    pub kbytes_written: u64,
    pub snapshot_inode: u32,
    pub snapshot_id: u32,
    pub snapshot_reserved_blocks_count: u64,
    pub snapshot_list: u32,
    pub error_count: u32,
    pub first_error_time: u32,
    pub first_error_inode: u32,
    pub first_error_block: u64,
    pub first_error_func: [u8; 32],
    pub first_error_line: u32,
    pub last_error_time: u32,
    pub last_error_inode: u32,
    pub last_error_line: u32,
    pub last_error_block: u64,
    pub last_error_func: [u8; 32],
    pub mount_options: [u8; 64],
    pub user_quota_inode: u32,
    pub group_quota_inode: u32,
    pub overhead_clusters: u32,
    pub backup_block_groups: [u32; 2],
    pub encrypt_algorithms: [u8; 4],
    pub encrypt_password_salt: [u8; 16],
    pub lost_found_inode: u32,
    pub project_quota_inode: u32,
    pub checksum_seed: u32,
    pub write_time_hi: u8,
    pub modify_time_hi: u8,
    pub mkfs_time_hi: u8,
    pub last_check_time_hi: u8,
    pub first_error_time_hi: u8,
    pub last_error_time_hi: u8,
    pub padding: [u8; 2],
    pub encoding: u16,
    pub encoding_flags: u16,
    pub reserved: [u32; 95],
    pub checksum: u32,
}

impl Ext4SuperBlock {
    /// Holds when every field is the little-endian value found at its offset
    /// from `base` in `s`.
    pub open spec fn is_decoding_at(&self, s: Seq<u8>, base: int) -> bool {
        &&& self.inodes_count == u32_at(s, base + 0)
        &&& self.blocks_count_lo == u32_at(s, base + 4)
        &&& self.reserved_blocks_count_lo == u32_at(s, base + 8)
        &&& self.free_blocks_count_lo == u32_at(s, base + 12)
        &&& self.free_inodes_count == u32_at(s, base + 16)
        &&& self.first_data_block == u32_at(s, base + 20)
        &&& self.log_block_size == u32_at(s, base + 24)
        &&& self.log_cluster_size == u32_at(s, base + 28)
        &&& self.blocks_per_group == u32_at(s, base + 32)
        &&& self.clusters_per_group == u32_at(s, base + 36)
        &&& self.inodes_per_group == u32_at(s, base + 40)
        &&& self.modify_time == u32_at(s, base + 44)
        &&& self.write_time == u32_at(s, base + 48)
        &&& self.mount_count == u16_at(s, base + 52)
        &&& self.max_mount_count == u16_at(s, base + 54)
        &&& self.magic == u16_at(s, base + 56)
        &&& self.state == u16_at(s, base + 58)
        &&& self.error_policy == u16_at(s, base + 60)
        &&& self.minor_revision == u16_at(s, base + 62)
        &&& self.last_check_time == u32_at(s, base + 64)
        &&& self.check_interval == u32_at(s, base + 68)
        &&& self.creator_os == u32_at(s, base + 72)
        &&& self.revision == u32_at(s, base + 76)
        &&& self.default_reserved_uid == u16_at(s, base + 80)
        &&& self.default_reserved_gid == u16_at(s, base + 82)
        &&& self.first_inode == u32_at(s, base + 84)
        &&& self.inode_size == u16_at(s, base + 88)
        &&& self.block_group_number == u16_at(s, base + 90)
        &&& self.feature_compat == u32_at(s, base + 92)
        &&& self.feature_incompat == u32_at(s, base + 96)
        &&& self.feature_ro_compat == u32_at(s, base + 100)
        &&& forall|i: int| 0 <= i < 16 ==> self.uuid@[i] == s[base + 104 + i]
        &&& forall|i: int| 0 <= i < 16 ==> self.volume_name@[i] == s[base + 120 + i]
        &&& forall|i: int| 0 <= i < 64 ==> self.last_mounted_path@[i] == s[base + 136 + i]
        &&& self.algorithm_usage_bitmap == u32_at(s, base + 200)
        &&& self.prealloc_blocks == s[base + 204]
        &&& self.prealloc_dir_blocks == s[base + 205]
        &&& self.reserved_gdt_blocks == u16_at(s, base + 206)
        &&& forall|i: int| 0 <= i < 16 ==> self.journal_uuid@[i] == s[base + 208 + i]
        &&& self.journal_inode == u32_at(s, base + 224)
        &&& self.journal_device == u32_at(s, base + 228)
        &&& self.last_orphan == u32_at(s, base + 232)
        &&& forall|i: int| 0 <= i < 4 ==> self.hash_seed@[i] == u32_at(s, base + 236 + 4 * i)
        &&& self.default_hash_version == s[base + 252]
        &&& self.journal_backup_type == s[base + 253]
        &&& self.descriptor_size == u16_at(s, base + 254)
        &&& self.default_mount_options == u32_at(s, base + 256)
        &&& self.first_meta_block_group == u32_at(s, base + 260)
        &&& self.mkfs_time == u32_at(s, base + 264)
        &&& forall|i: int| 0 <= i < 17 ==> self.journal_blocks@[i] == u32_at(s, base + 268 + 4 * i)
        &&& self.blocks_count_hi == u32_at(s, base + 336)
        &&& self.reserved_blocks_count_hi == u32_at(s, base + 340)
        &&& self.free_blocks_count_hi == u32_at(s, base + 344)
        &&& self.min_extra_inode_size == u16_at(s, base + 348)
        &&& self.want_extra_inode_size == u16_at(s, base + 350)
        &&& self.flags == u32_at(s, base + 352)
        &&& self.raid_stride == u16_at(s, base + 356)
        &&& self.mmp_update_interval == u16_at(s, base + 358)
        &&& self.mmp_block == u64_at(s, base + 360)
        &&& self.raid_stripe_width == u32_at(s, base + 368)
        &&& self.log_groups_per_flex == s[base + 372]
        &&& self.checksum_type == s[base + 373]
        &&& self.encryption_level == s[base + 374]
        &&& self.reserved_pad == s[base + 375]
        &&& self.kbytes_written == u64_at(s, base + 376)
        &&& self.snapshot_inode == u32_at(s, base + 384)
        &&& self.snapshot_id == u32_at(s, base + 388)
        &&& self.snapshot_reserved_blocks_count == u64_at(s, base + 392)
        &&& self.snapshot_list == u32_at(s, base + 400)
        &&& self.error_count == u32_at(s, base + 404)
        &&& self.first_error_time == u32_at(s, base + 408)
        &&& self.first_error_inode == u32_at(s, base + 412)
        &&& self.first_error_block == u64_at(s, base + 416)
        &&& forall|i: int| 0 <= i < 32 ==> self.first_error_func@[i] == s[base + 424 + i]
        &&& self.first_error_line == u32_at(s, base + 456)
        &&& self.last_error_time == u32_at(s, base + 460)
        &&& self.last_error_inode == u32_at(s, base + 464)
        &&& self.last_error_line == u32_at(s, base + 468)
        &&& self.last_error_block == u64_at(s, base + 472)
        &&& forall|i: int| 0 <= i < 32 ==> self.last_error_func@[i] == s[base + 480 + i]
        &&& forall|i: int| 0 <= i < 64 ==> self.mount_options@[i] == s[base + 512 + i]
        &&& self.user_quota_inode == u32_at(s, base + 576)
        &&& self.group_quota_inode == u32_at(s, base + 580)
        &&& self.overhead_clusters == u32_at(s, base + 584)
        &&& forall|i: int| 0 <= i < 2 ==> self.backup_block_groups@[i] == u32_at(s, base + 588 + 4 * i)
        &&& forall|i: int| 0 <= i < 4 ==> self.encrypt_algorithms@[i] == s[base + 596 + i]
        &&& forall|i: int| 0 <= i < 16 ==> self.encrypt_password_salt@[i] == s[base + 600 + i]
        &&& self.lost_found_inode == u32_at(s, base + 616)
        &&& self.project_quota_inode == u32_at(s, base + 620)
        &&& self.checksum_seed == u32_at(s, base + 624)
        &&& self.write_time_hi == s[base + 628]
        &&& self.modify_time_hi == s[base + 629]
        &&& self.mkfs_time_hi == s[base + 630]
        &&& self.last_check_time_hi == s[base + 631]
        &&& self.first_error_time_hi == s[base + 632]
        &&& self.last_error_time_hi == s[base + 633]
        &&& forall|i: int| 0 <= i < 2 ==> self.padding@[i] == s[base + 634 + i]
        &&& self.encoding == u16_at(s, base + 636)
        &&& self.encoding_flags == u16_at(s, base + 638)
        &&& forall|i: int| 0 <= i < 95 ==> self.reserved@[i] == u32_at(s, base + 640 + 4 * i)
        &&& self.checksum == u32_at(s, base + 1020)
    }

    /// Decodes the record from the `SUPERBLOCK_SIZE` bytes that start at `base`.
    pub fn from_bytes_at(bytes: &[u8], base: usize) -> (r: Self)
        requires
            base + SUPERBLOCK_SIZE <= bytes@.len(),
        ensures
            r.is_decoding_at(bytes@, base as int),
    {
        let len = bytes.len();
        assert(base + SUPERBLOCK_SIZE <= len);
        Ext4SuperBlock {
            inodes_count: read_u32(bytes, base + 0),
            blocks_count_lo: read_u32(bytes, base + 4),
            reserved_blocks_count_lo: read_u32(bytes, base + 8),
            free_blocks_count_lo: read_u32(bytes, base + 12),
            free_inodes_count: read_u32(bytes, base + 16),
            first_data_block: read_u32(bytes, base + 20),
            log_block_size: read_u32(bytes, base + 24),
            log_cluster_size: read_u32(bytes, base + 28),
            blocks_per_group: read_u32(bytes, base + 32),
            clusters_per_group: read_u32(bytes, base + 36),
            inodes_per_group: read_u32(bytes, base + 40),
            modify_time: read_u32(bytes, base + 44),
            write_time: read_u32(bytes, base + 48),
            mount_count: read_u16(bytes, base + 52),
            max_mount_count: read_u16(bytes, base + 54),
            magic: read_u16(bytes, base + 56),
            state: read_u16(bytes, base + 58),
            error_policy: read_u16(bytes, base + 60),
            minor_revision: read_u16(bytes, base + 62),
            last_check_time: read_u32(bytes, base + 64),
            check_interval: read_u32(bytes, base + 68),
            creator_os: read_u32(bytes, base + 72),
            revision: read_u32(bytes, base + 76),
            default_reserved_uid: read_u16(bytes, base + 80),
            default_reserved_gid: read_u16(bytes, base + 82),
            first_inode: read_u32(bytes, base + 84),
            inode_size: read_u16(bytes, base + 88),
            block_group_number: read_u16(bytes, base + 90),
            feature_compat: read_u32(bytes, base + 92),
            feature_incompat: read_u32(bytes, base + 96),
            feature_ro_compat: read_u32(bytes, base + 100),
            uuid: read_u8_array::<16>(bytes, base + 104),
            volume_name: read_u8_array::<16>(bytes, base + 120),
            last_mounted_path: read_u8_array::<64>(bytes, base + 136),
            algorithm_usage_bitmap: read_u32(bytes, base + 200),
            prealloc_blocks: bytes[base + 204],
            prealloc_dir_blocks: bytes[base + 205],
            reserved_gdt_blocks: read_u16(bytes, base + 206),
            journal_uuid: read_u8_array::<16>(bytes, base + 208),
            journal_inode: read_u32(bytes, base + 224),
            journal_device: read_u32(bytes, base + 228),
            last_orphan: read_u32(bytes, base + 232),
            hash_seed: read_u32_array::<4>(bytes, base + 236),
            default_hash_version: bytes[base + 252],
            journal_backup_type: bytes[base + 253],
            descriptor_size: read_u16(bytes, base + 254),
            default_mount_options: read_u32(bytes, base + 256),
            first_meta_block_group: read_u32(bytes, base + 260),
            mkfs_time: read_u32(bytes, base + 264),
            journal_blocks: read_u32_array::<17>(bytes, base + 268),
            blocks_count_hi: read_u32(bytes, base + 336),
            reserved_blocks_count_hi: read_u32(bytes, base + 340),
            free_blocks_count_hi: read_u32(bytes, base + 344),
            min_extra_inode_size: read_u16(bytes, base + 348),
            want_extra_inode_size: read_u16(bytes, base + 350),
            flags: read_u32(bytes, base + 352),
            raid_stride: read_u16(bytes, base + 356),
            mmp_update_interval: read_u16(bytes, base + 358),
            mmp_block: read_u64(bytes, base + 360),
            raid_stripe_width: read_u32(bytes, base + 368),
            log_groups_per_flex: bytes[base + 372],
            checksum_type: bytes[base + 373],
            encryption_level: bytes[base + 374],
            reserved_pad: bytes[base + 375],
            kbytes_written: read_u64(bytes, base + 376),
            snapshot_inode: read_u32(bytes, base + 384),
            snapshot_id: read_u32(bytes, base + 388),
            snapshot_reserved_blocks_count: read_u64(bytes, base + 392),
            snapshot_list: read_u32(bytes, base + 400),
            error_count: read_u32(bytes, base + 404),
            first_error_time: read_u32(bytes, base + 408),
            first_error_inode: read_u32(bytes, base + 412),
            first_error_block: read_u64(bytes, base + 416),
            first_error_func: read_u8_array::<32>(bytes, base + 424),
            first_error_line: read_u32(bytes, base + 456),
            last_error_time: read_u32(bytes, base + 460),
            last_error_inode: read_u32(bytes, base + 464),
            last_error_line: read_u32(bytes, base + 468),
            last_error_block: read_u64(bytes, base + 472),
            last_error_func: read_u8_array::<32>(bytes, base + 480),
            mount_options: read_u8_array::<64>(bytes, base + 512),
            user_quota_inode: read_u32(bytes, base + 576),
            group_quota_inode: read_u32(bytes, base + 580),
            overhead_clusters: read_u32(bytes, base + 584),
            backup_block_groups: read_u32_array::<2>(bytes, base + 588),
            encrypt_algorithms: read_u8_array::<4>(bytes, base + 596),
            encrypt_password_salt: read_u8_array::<16>(bytes, base + 600),
            lost_found_inode: read_u32(bytes, base + 616),
            project_quota_inode: read_u32(bytes, base + 620),
            checksum_seed: read_u32(bytes, base + 624),
            write_time_hi: bytes[base + 628],
            modify_time_hi: bytes[base + 629],
            mkfs_time_hi: bytes[base + 630],
            last_check_time_hi: bytes[base + 631],
            first_error_time_hi: bytes[base + 632],
            last_error_time_hi: bytes[base + 633],
            padding: read_u8_array::<2>(bytes, base + 634),
            encoding: read_u16(bytes, base + 636),
            encoding_flags: read_u16(bytes, base + 638),
            reserved: read_u32_array::<95>(bytes, base + 640),
            checksum: read_u32(bytes, base + 1020),
        }
    }
}

/// A block group descriptor in its 64-byte form.
#[derive(Debug, Copy, Clone)]
pub struct Ext4GroupDescriptor {
    pub block_bitmap_lo: u32,
    pub inode_bitmap_lo: u32,
    pub inode_table_lo: u32,
    pub free_blocks_count_lo: u16,
    pub free_inodes_count_lo: u16,
    pub used_dirs_count_lo: u16,
    pub flags: u16,
    pub exclude_bitmap_lo: u32,
    pub block_bitmap_checksum_lo: u16,
    pub inode_bitmap_checksum_lo: u16,
    pub unused_inodes_count_lo: u16,
    pub checksum: u16,
    pub block_bitmap_hi: u32,
    pub inode_bitmap_hi: u32,
    pub inode_table_hi: u32,
    pub free_blocks_count_hi: u16,
    pub free_inodes_count_hi: u16,
    pub used_dirs_count_hi: u16,
    pub unused_inodes_count_hi: u16,
    pub exclude_bitmap_hi: u32,
    pub block_bitmap_checksum_hi: u16,
    pub inode_bitmap_checksum_hi: u16,
    pub reserved: u32,
}

impl Ext4GroupDescriptor {
    /// Holds when every field is the little-endian value found at its offset
    /// from `base` in `s`.
    pub open spec fn is_decoding_at(&self, s: Seq<u8>, base: int) -> bool {
        &&& self.block_bitmap_lo == u32_at(s, base + 0)
        &&& self.inode_bitmap_lo == u32_at(s, base + 4)
        &&& self.inode_table_lo == u32_at(s, base + 8)
        &&& self.free_blocks_count_lo == u16_at(s, base + 12)
        &&& self.free_inodes_count_lo == u16_at(s, base + 14)
        &&& self.used_dirs_count_lo == u16_at(s, base + 16)
        &&& self.flags == u16_at(s, base + 18)
        &&& self.exclude_bitmap_lo == u32_at(s, base + 20)
        &&& self.block_bitmap_checksum_lo == u16_at(s, base + 24)
        &&& self.inode_bitmap_checksum_lo == u16_at(s, base + 26)
        &&& self.unused_inodes_count_lo == u16_at(s, base + 28)
        &&& self.checksum == u16_at(s, base + 30)
        &&& self.block_bitmap_hi == u32_at(s, base + 32)
        &&& self.inode_bitmap_hi == u32_at(s, base + 36)
        &&& self.inode_table_hi == u32_at(s, base + 40)
        &&& self.free_blocks_count_hi == u16_at(s, base + 44)
        &&& self.free_inodes_count_hi == u16_at(s, base + 46)
        &&& self.used_dirs_count_hi == u16_at(s, base + 48)
        &&& self.unused_inodes_count_hi == u16_at(s, base + 50)
        &&& self.exclude_bitmap_hi == u32_at(s, base + 52)
        &&& self.block_bitmap_checksum_hi == u16_at(s, base + 56)
        &&& self.inode_bitmap_checksum_hi == u16_at(s, base + 58)
        &&& self.reserved == u32_at(s, base + 60)
    }

    /// The record whose fields are the little-endian values at their offsets
    /// from `base` in `s`.
    pub open spec fn decoded_at(s: Seq<u8>, base: int) -> Self {
        Ext4GroupDescriptor {
            block_bitmap_lo: u32_at(s, base + 0),
            inode_bitmap_lo: u32_at(s, base + 4),
            inode_table_lo: u32_at(s, base + 8),
            free_blocks_count_lo: u16_at(s, base + 12),
            free_inodes_count_lo: u16_at(s, base + 14),
            used_dirs_count_lo: u16_at(s, base + 16),
            flags: u16_at(s, base + 18),
            exclude_bitmap_lo: u32_at(s, base + 20),
            block_bitmap_checksum_lo: u16_at(s, base + 24),
            inode_bitmap_checksum_lo: u16_at(s, base + 26),
            unused_inodes_count_lo: u16_at(s, base + 28),
            checksum: u16_at(s, base + 30),
            block_bitmap_hi: u32_at(s, base + 32),
            inode_bitmap_hi: u32_at(s, base + 36),
            inode_table_hi: u32_at(s, base + 40),
            free_blocks_count_hi: u16_at(s, base + 44),
            free_inodes_count_hi: u16_at(s, base + 46),
            used_dirs_count_hi: u16_at(s, base + 48),
            unused_inodes_count_hi: u16_at(s, base + 50),
            exclude_bitmap_hi: u32_at(s, base + 52),
            block_bitmap_checksum_hi: u16_at(s, base + 56),
            inode_bitmap_checksum_hi: u16_at(s, base + 58),
            reserved: u32_at(s, base + 60),
        }
    }

    /// Decodes the record from the `GROUP_DESCRIPTOR_SIZE` bytes that start at `base`.
    pub fn from_bytes_at(bytes: &[u8], base: usize) -> (r: Self)
        requires
            base + GROUP_DESCRIPTOR_SIZE <= bytes@.len(),
        ensures
            r.is_decoding_at(bytes@, base as int),
            r == Self::decoded_at(bytes@, base as int),
    {
        let len = bytes.len();
        assert(base + GROUP_DESCRIPTOR_SIZE <= len);
        Ext4GroupDescriptor {
            block_bitmap_lo: read_u32(bytes, base + 0),
            inode_bitmap_lo: read_u32(bytes, base + 4),
            inode_table_lo: read_u32(bytes, base + 8),
            free_blocks_count_lo: read_u16(bytes, base + 12),
            free_inodes_count_lo: read_u16(bytes, base + 14),
            used_dirs_count_lo: read_u16(bytes, base + 16),
            flags: read_u16(bytes, base + 18),
            exclude_bitmap_lo: read_u32(bytes, base + 20),
            block_bitmap_checksum_lo: read_u16(bytes, base + 24),
            inode_bitmap_checksum_lo: read_u16(bytes, base + 26),
            unused_inodes_count_lo: read_u16(bytes, base + 28),
            checksum: read_u16(bytes, base + 30),
            block_bitmap_hi: read_u32(bytes, base + 32),
            inode_bitmap_hi: read_u32(bytes, base + 36),
            inode_table_hi: read_u32(bytes, base + 40),
            free_blocks_count_hi: read_u16(bytes, base + 44),
            free_inodes_count_hi: read_u16(bytes, base + 46),
            used_dirs_count_hi: read_u16(bytes, base + 48),
            unused_inodes_count_hi: read_u16(bytes, base + 50),
            exclude_bitmap_hi: read_u32(bytes, base + 52),
            block_bitmap_checksum_hi: read_u16(bytes, base + 56),
            inode_bitmap_checksum_hi: read_u16(bytes, base + 58),
            reserved: read_u32(bytes, base + 60),
        }
    }
}

/// The first 160 bytes of an on-disk inode.
#[derive(Debug, Copy, Clone)]
pub struct Ext4Inode {
    pub mode: u16,
    pub uid_lo: u16,
    pub size_lo: u32,
    pub access_time: u32,
    pub change_time: u32,
    pub modify_time: u32,
    pub delete_time: u32,
    pub gid_lo: u16,
    pub links_count: u16,
    pub blocks_lo: u32,
    pub flags: u32,
    pub version_lo: u32,
    pub block_map: [u32; 15],
    pub generation: u32,
    pub file_acl_lo: u32,
    pub size_hi: u32,
    pub obsolete_fragment_addr: u32,
    pub blocks_hi: u16,
    pub file_acl_hi: u16,
    pub uid_hi: u16,
    pub gid_hi: u16,
    pub checksum_lo: u16,
    pub reserved: u16,
    pub extra_inode_size: u16,
    pub checksum_hi: u16,
    pub change_time_extra: u32,
    pub modify_time_extra: u32,
    pub access_time_extra: u32,
    pub create_time: u32,
    pub create_time_extra: u32,
    pub version_hi: u32,
    pub project_id: u32,
}

impl Ext4Inode {
    /// Holds when every field is the little-endian value found at its offset
    /// from `base` in `s`.
    pub open spec fn is_decoding_at(&self, s: Seq<u8>, base: int) -> bool {
        &&& self.mode == u16_at(s, base + 0)
        &&& self.uid_lo == u16_at(s, base + 2)
        &&& self.size_lo == u32_at(s, base + 4)
        &&& self.access_time == u32_at(s, base + 8)
        &&& self.change_time == u32_at(s, base + 12)
        &&& self.modify_time == u32_at(s, base + 16)
        &&& self.delete_time == u32_at(s, base + 20)
        &&& self.gid_lo == u16_at(s, base + 24)
        &&& self.links_count == u16_at(s, base + 26)
        &&& self.blocks_lo == u32_at(s, base + 28)
        &&& self.flags == u32_at(s, base + 32)
        &&& self.version_lo == u32_at(s, base + 36)
        &&& forall|i: int| 0 <= i < 15 ==> self.block_map@[i] == u32_at(s, base + 40 + 4 * i)
        &&& self.generation == u32_at(s, base + 100)
        &&& self.file_acl_lo == u32_at(s, base + 104)
        &&& self.size_hi == u32_at(s, base + 108)
        &&& self.obsolete_fragment_addr == u32_at(s, base + 112)
        &&& self.blocks_hi == u16_at(s, base + 116)
        &&& self.file_acl_hi == u16_at(s, base + 118)
        &&& self.uid_hi == u16_at(s, base + 120)
        &&& self.gid_hi == u16_at(s, base + 122)
        &&& self.checksum_lo == u16_at(s, base + 124)
        &&& self.reserved == u16_at(s, base + 126)
        &&& self.extra_inode_size == u16_at(s, base + 128)
        &&& self.checksum_hi == u16_at(s, base + 130)
        &&& self.change_time_extra == u32_at(s, base + 132)
        &&& self.modify_time_extra == u32_at(s, base + 136)
        &&& self.access_time_extra == u32_at(s, base + 140)
        &&& self.create_time == u32_at(s, base + 144)
        &&& self.create_time_extra == u32_at(s, base + 148)
        &&& self.version_hi == u32_at(s, base + 152)
        &&& self.project_id == u32_at(s, base + 156)
    }

    /// Decodes the record from the `INODE_RECORD_SIZE` bytes that start at `base`.
    pub fn from_bytes_at(bytes: &[u8], base: usize) -> (r: Self)
        requires
            base + INODE_RECORD_SIZE <= bytes@.len(),
        ensures
            r.is_decoding_at(bytes@, base as int),
    {
        let len = bytes.len();
        assert(base + INODE_RECORD_SIZE <= len);
        Ext4Inode {
            mode: read_u16(bytes, base + 0),
            uid_lo: read_u16(bytes, base + 2),
            size_lo: read_u32(bytes, base + 4),
            access_time: read_u32(bytes, base + 8),
            change_time: read_u32(bytes, base + 12),
            modify_time: read_u32(bytes, base + 16),
            delete_time: read_u32(bytes, base + 20),
            gid_lo: read_u16(bytes, base + 24),
            links_count: read_u16(bytes, base + 26),
            blocks_lo: read_u32(bytes, base + 28),
            flags: read_u32(bytes, base + 32),
            version_lo: read_u32(bytes, base + 36),
            block_map: read_u32_array::<15>(bytes, base + 40),
            generation: read_u32(bytes, base + 100),
            file_acl_lo: read_u32(bytes, base + 104),
            size_hi: read_u32(bytes, base + 108),
            obsolete_fragment_addr: read_u32(bytes, base + 112),
            blocks_hi: read_u16(bytes, base + 116),
            file_acl_hi: read_u16(bytes, base + 118),
            uid_hi: read_u16(bytes, base + 120),
            gid_hi: read_u16(bytes, base + 122),
            checksum_lo: read_u16(bytes, base + 124),
            reserved: read_u16(bytes, base + 126),
            extra_inode_size: read_u16(bytes, base + 128),
            checksum_hi: read_u16(bytes, base + 130),
            change_time_extra: read_u32(bytes, base + 132),
            modify_time_extra: read_u32(bytes, base + 136),
            access_time_extra: read_u32(bytes, base + 140),
            create_time: read_u32(bytes, base + 144),
            create_time_extra: read_u32(bytes, base + 148),
            version_hi: read_u32(bytes, base + 152),
            project_id: read_u32(bytes, base + 156),
        }
    }
}

/// The header that opens an extent tree node.
#[derive(Debug, Copy, Clone)]
pub struct Ext4ExtentHeader {
    pub magic: u16,
    pub entries: u16,
    pub max_entries: u16,
    pub depth: u16,
    pub generation: u32,
}

impl Ext4ExtentHeader {
    /// Holds when every field is the little-endian value found at its offset
    /// from `base` in `s`.
    pub open spec fn is_decoding_at(&self, s: Seq<u8>, base: int) -> bool {
        &&& self.magic == u16_at(s, base + 0)
        &&& self.entries == u16_at(s, base + 2)
        &&& self.max_entries == u16_at(s, base + 4)
        &&& self.depth == u16_at(s, base + 6)
        &&& self.generation == u32_at(s, base + 8)
    }

    /// The record whose fields are the little-endian values at their offsets
    /// from `base` in `s`.
    pub open spec fn decoded_at(s: Seq<u8>, base: int) -> Self {
        Ext4ExtentHeader {
            magic: u16_at(s, base + 0),
            entries: u16_at(s, base + 2),
            max_entries: u16_at(s, base + 4),
            depth: u16_at(s, base + 6),
            generation: u32_at(s, base + 8),
        }
    }

    /// Decodes the record from the `EXTENT_RECORD_SIZE` bytes that start at `base`.
    pub fn from_bytes_at(bytes: &[u8], base: usize) -> (r: Self)
        requires
            base + EXTENT_RECORD_SIZE <= bytes@.len(),
        ensures
            r.is_decoding_at(bytes@, base as int),
            r == Self::decoded_at(bytes@, base as int),
    {
        let len = bytes.len();
        assert(base + EXTENT_RECORD_SIZE <= len);
        Ext4ExtentHeader {
            magic: read_u16(bytes, base + 0),
            entries: read_u16(bytes, base + 2),
            max_entries: read_u16(bytes, base + 4),
            depth: read_u16(bytes, base + 6),
            generation: read_u32(bytes, base + 8),
        }
    }
}

/// A leaf entry of an extent tree: a run of contiguous blocks.
#[derive(Debug, Copy, Clone)]
pub struct Ext4Extent {
    pub logical_block: u32,
    pub length: u16,
    pub start_hi: u16,
    pub start_lo: u32,
}

impl Ext4Extent {
    /// Holds when every field is the little-endian value found at its offset
    /// from `base` in `s`.
    pub open spec fn is_decoding_at(&self, s: Seq<u8>, base: int) -> bool {
        &&& self.logical_block == u32_at(s, base + 0)
        &&& self.length == u16_at(s, base + 4)
        &&& self.start_hi == u16_at(s, base + 6)
        &&& self.start_lo == u32_at(s, base + 8)
    }

    /// The record whose fields are the little-endian values at their offsets
    /// from `base` in `s`.
    pub open spec fn decoded_at(s: Seq<u8>, base: int) -> Self {
        Ext4Extent {
            logical_block: u32_at(s, base + 0),
            length: u16_at(s, base + 4),
            start_hi: u16_at(s, base + 6),
            start_lo: u32_at(s, base + 8),
        }
    }

    /// Decodes the record from the `EXTENT_RECORD_SIZE` bytes that start at `base`.
    pub fn from_bytes_at(bytes: &[u8], base: usize) -> (r: Self)
        requires
            base + EXTENT_RECORD_SIZE <= bytes@.len(),
        ensures
            r.is_decoding_at(bytes@, base as int),
            r == Self::decoded_at(bytes@, base as int),
    {
        let len = bytes.len();
        assert(base + EXTENT_RECORD_SIZE <= len);
        Ext4Extent {
            logical_block: read_u32(bytes, base + 0),
            length: read_u16(bytes, base + 4),
            start_hi: read_u16(bytes, base + 6),
            start_lo: read_u32(bytes, base + 8),
        }
    }
}

/// An interior entry of an extent tree.
#[derive(Debug, Copy, Clone)]
pub struct Ext4ExtentIdx {
    pub logical_block: u32,
    pub leaf_lo: u32,
    pub leaf_hi: u16,
    pub unused: u16,
}

impl Ext4ExtentIdx {
    /// Holds when every field is the little-endian value found at its offset
    /// from `base` in `s`.
    pub open spec fn is_decoding_at(&self, s: Seq<u8>, base: int) -> bool {
        &&& self.logical_block == u32_at(s, base + 0)
        &&& self.leaf_lo == u32_at(s, base + 4)
        &&& self.leaf_hi == u16_at(s, base + 8)
        &&& self.unused == u16_at(s, base + 10)
    }

    /// The record whose fields are the little-endian values at their offsets
    /// from `base` in `s`.
    pub open spec fn decoded_at(s: Seq<u8>, base: int) -> Self {
        Ext4ExtentIdx {
            logical_block: u32_at(s, base + 0),
            leaf_lo: u32_at(s, base + 4),
            leaf_hi: u16_at(s, base + 8),
            unused: u16_at(s, base + 10),
        }
    }

    /// Decodes the record from the `EXTENT_RECORD_SIZE` bytes that start at `base`.
    pub fn from_bytes_at(bytes: &[u8], base: usize) -> (r: Self)
        requires
            base + EXTENT_RECORD_SIZE <= bytes@.len(),
        ensures
            r.is_decoding_at(bytes@, base as int),
            r == Self::decoded_at(bytes@, base as int),
    {
        let len = bytes.len();
        assert(base + EXTENT_RECORD_SIZE <= len);
        Ext4ExtentIdx {
            logical_block: read_u32(bytes, base + 0),
            leaf_lo: read_u32(bytes, base + 4),
            leaf_hi: read_u16(bytes, base + 8),
            unused: read_u16(bytes, base + 10),
        }
    }
}

/// The fixed head of a directory record; the name follows it.
#[derive(Debug, Copy, Clone)]
pub struct Ext4DirEntry {
    pub inode: u32,
    pub record_length: u16,
    pub name_length: u8,
    pub file_type: u8,
}

impl Ext4DirEntry {
    /// Holds when every field is the little-endian value found at its offset
    /// from `base` in `s`.
    pub open spec fn is_decoding_at(&self, s: Seq<u8>, base: int) -> bool {
        &&& self.inode == u32_at(s, base + 0)
        &&& self.record_length == u16_at(s, base + 4)
        &&& self.name_length == s[base + 6]
        &&& self.file_type == s[base + 7]
    }

    /// The record whose fields are the little-endian values at their offsets
    /// from `base` in `s`.
    pub open spec fn decoded_at(s: Seq<u8>, base: int) -> Self {
        Ext4DirEntry {
            inode: u32_at(s, base + 0),
            record_length: u16_at(s, base + 4),
            name_length: s[base + 6],
            file_type: s[base + 7],
        }
    }

    /// Decodes the record from the `DIR_ENTRY_HEAD_SIZE` bytes that start at `base`.
    pub fn from_bytes_at(bytes: &[u8], base: usize) -> (r: Self)
        requires
            base + DIR_ENTRY_HEAD_SIZE <= bytes@.len(),
        ensures
            r.is_decoding_at(bytes@, base as int),
            r == Self::decoded_at(bytes@, base as int),
    {
        let len = bytes.len();
        assert(base + DIR_ENTRY_HEAD_SIZE <= len);
        Ext4DirEntry {
            inode: read_u32(bytes, base + 0),
            record_length: read_u16(bytes, base + 4),
            name_length: bytes[base + 6],
            file_type: bytes[base + 7],
        }
    }
}

} // verus!
