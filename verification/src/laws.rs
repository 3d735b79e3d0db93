//! Properties of the dissector that hold for every input.
use vstd::prelude::*;
use vstd::arithmetic::power2::pow2;

use crate::ext4::{
    actual_len, block_position, blocks_of, ceil_div, group_desc_position, hex_pair, inode_position,
    GroupDescriptor, DirEntryView, spec_decoded_group, dir_entries, dir_entries_from, dir_listing, file_format, record_entry, spec_block_size,
    spec_fold32, spec_fold64, spec_inode_extents, spec_mode_string, spec_superblock, tree_entries,
    uuid_text, Extent, Inode, Superblock, EXT4_LEGACY_INODE_SIZE, EXT4_MIN_BLOCK_SIZE,
    EXT4_MIN_DESC_SIZE, EXT_INIT_MAX_LEN, S_IFDIR,
};
use crate::types::Ext4SuperBlock;

verus! {

/// On a 64-bit volume a split field keeps both halves: the low 32 bits of
/// the joined value are the low half and the rest is the high half.
pub proof fn fold64_keeps_both_halves(lo: u32, hi: u32)
    ensures
        spec_fold64(lo, hi, true) % 0x1_0000_0000 == lo,
        spec_fold64(lo, hi, true) / 0x1_0000_0000 == hi,
{
}

/// Without the 64-bit feature the high half of a split field is ignored.
pub proof fn fold64_ignores_high_half_without_64bit(lo: u32, hi1: u32, hi2: u32)
    ensures
        spec_fold64(lo, hi1, false) == spec_fold64(lo, hi2, false),
        spec_fold64(lo, hi1, false) == lo,
{
}

/// The 32-bit counterpart of `fold64_keeps_both_halves`.
pub proof fn fold32_keeps_both_halves(lo: u16, hi: u16)
    ensures
        spec_fold32(lo, hi, true) % 0x1_0000 == lo,
        spec_fold32(lo, hi, true) / 0x1_0000 == hi,
{
}

/// The 32-bit counterpart of `fold64_ignores_high_half_without_64bit`.
pub proof fn fold32_ignores_high_half_without_64bit(lo: u16, hi1: u16, hi2: u16)
    ensures
        spec_fold32(lo, hi1, false) == spec_fold32(lo, hi2, false),
        spec_fold32(lo, hi1, false) == lo,
{
}

/// The block size is `1024 << log_block_size`: 1024 times the power of two,
/// as long as the shift loses no bits.
pub proof fn block_size_is_min_shifted(log: u32)
    requires
        log <= 53,
    ensures
        spec_block_size(log) == EXT4_MIN_BLOCK_SIZE * pow2(log as nat),
{
    vstd::arithmetic::power2::lemma_pow2_adds(10, log as nat);
    vstd::arithmetic::power2::lemma2_to64();
    vstd::arithmetic::power2::lemma_pow2_strictly_increases(10 + log as nat, 64);
    vstd::arithmetic::power2::lemma2_to64_rest();
}

/// Every accepted superblock has a descriptor size of at least 32, exactly
/// 32 without the 64-bit feature, and 128-byte inodes on revision 0.
pub proof fn superblock_sizes(raw: Ext4SuperBlock)
    ensures
        spec_superblock(raw).desc_size >= EXT4_MIN_DESC_SIZE,
        !spec_superblock(raw).has_64bit ==> spec_superblock(raw).desc_size == EXT4_MIN_DESC_SIZE,
        raw.revision == 0 ==> spec_superblock(raw).inode_size == EXT4_LEGACY_INODE_SIZE,
{
}

/// An extent is never longer than `EXT_INIT_MAX_LEN`; a raw length of
/// exactly `EXT_INIT_MAX_LEN` is a written extent of that length, and a
/// longer one is unwritten with the excess as its length.
pub proof fn extent_length_rules(raw_len: u16)
    ensures
        actual_len(raw_len) <= EXT_INIT_MAX_LEN,
        raw_len <= EXT_INIT_MAX_LEN ==> actual_len(raw_len) == raw_len,
        raw_len > EXT_INIT_MAX_LEN ==> actual_len(raw_len) + EXT_INIT_MAX_LEN == raw_len,
{
}

/// The extents listed for an inode are as many as its header announces,
/// none is longer than `EXT_INIT_MAX_LEN`, and each starts below 2^48.
pub proof fn inode_extents_are_bounded(inode: Inode)
    requires
        spec_inode_extents(inode) is Ok,
    ensures
        spec_inode_extents(inode)->Ok_0.len() == tree_entries(inode),
        forall|i: int| 0 <= i < spec_inode_extents(inode)->Ok_0.len() ==> {
            &&& (#[trigger] spec_inode_extents(inode)->Ok_0[i]).len <= EXT_INIT_MAX_LEN
            &&& spec_inode_extents(inode)->Ok_0[i].physical < 0x1_0000_0000_0000
        },
{
}

/// A directory's blocks are the blocks of its extents, one after another:
/// as many as the extent lengths add up to.
pub proof fn blocks_of_length(exts: Seq<Extent>)
    ensures
        blocks_of(exts).len() == total_len(exts),
    decreases exts.len(),
{
    if exts.len() > 0 {
        blocks_of_length(exts.drop_last());
    }
}

/// The sum of the lengths of the extents.
pub open spec fn total_len(exts: Seq<Extent>) -> nat
    decreases exts.len(),
{
    if exts.len() == 0 {
        0
    } else {
        total_len(exts.drop_last()) + exts.last().len as nat
    }
}

/// Every directory entry listed names an inode: records whose inode is 0
/// are unused and skipped.
pub proof fn dir_entries_name_inodes(b: Seq<u8>, pos: int)
    ensures
        forall|i: int| 0 <= i < dir_entries_from(b, pos).len()
            ==> (#[trigger] dir_entries_from(b, pos)[i]).inode != 0,
    decreases b.len() - pos,
{
    if 0 <= pos && pos + 8 <= b.len() {
        let rec_len = record_length_at(b, pos);
        if rec_len >= 8 && pos + rec_len + 8 <= b.len() {
            dir_entries_name_inodes(b, pos + rec_len);
            let head = record_entry(b, pos);
            let rest = dir_entries_from(b, pos + rec_len);
            assert(dir_entries_from(b, pos) == head + rest);
            assert forall|i: int| 0 <= i < (head + rest).len() implies (head + rest)[i].inode != 0 by {
                if i >= head.len() {
                    assert((head + rest)[i] == rest[i - head.len()]);
                }
            }
        }
    }
}

/// The record length stored in the directory record at `pos`.
spec fn record_length_at(b: Seq<u8>, pos: int) -> u16 {
    crate::bytes::u16_at(b, pos + 4)
}

/// Each directory entry takes at least 8 bytes of its block, so a block of
/// `n` bytes lists at most `n / 8` entries.
pub proof fn dir_entries_fit_in_block(b: Seq<u8>, pos: int)
    requires
        0 <= pos <= b.len(),
    ensures
        dir_entries_from(b, pos).len() * 8 <= b.len() - pos,
    decreases b.len() - pos,
{
    if pos + 8 <= b.len() {
        let rec_len = record_length_at(b, pos);
        if rec_len >= 8 && pos + rec_len + 8 <= b.len() {
            dir_entries_fit_in_block(b, pos + rec_len);
        }
    }
}

/// An inode's group and index give back its number: groups hold
/// `inodes_per_group` inodes each, numbered from 1.
pub proof fn inode_location_roundtrip(sb: Superblock, number: u32)
    requires
        number != 0,
        sb.inodes_per_group != 0,
    ensures
        ({
            let g = (number - 1) / (sb.inodes_per_group as int);
            let i = (number - 1) % (sb.inodes_per_group as int);
            &&& 0 <= i < sb.inodes_per_group
            &&& g * sb.inodes_per_group + i + 1 == number
        }),
{
    vstd::arithmetic::div_mod::lemma_fundamental_div_mod((number - 1) as int, sb.inodes_per_group as int);
    vstd::arithmetic::div_mod::lemma_mod_bound((number - 1) as int, sb.inodes_per_group as int);
    vstd::arithmetic::mul::lemma_mul_is_commutative(
        (number - 1) / (sb.inodes_per_group as int), sb.inodes_per_group as int);
}

/// The groups counted cover every block, and one group fewer would not.
pub proof fn group_count_covers_blocks(blocks: nat, per_group: nat)
    requires
        per_group > 0,
    ensures
        blocks <= ceil_div(blocks, per_group) * per_group,
        blocks > 0 ==> (ceil_div(blocks, per_group) - 1) * per_group < blocks,
{
    vstd::arithmetic::div_mod::lemma_fundamental_div_mod(blocks as int, per_group as int);
    vstd::arithmetic::div_mod::lemma_mod_bound(blocks as int, per_group as int);
    let q = blocks / per_group;
    let r = blocks % per_group;
    assert(blocks == per_group * q + r);
    if r == 0 {
        assert(ceil_div(blocks, per_group) * per_group == q * per_group);
        vstd::arithmetic::mul::lemma_mul_is_commutative(q as int, per_group as int);
        if blocks > 0 {
            assert(q > 0) by (nonlinear_arith)
                requires blocks == per_group * q, blocks > 0;
            assert((q - 1) * per_group == q * per_group - per_group) by (nonlinear_arith);
        }
    } else {
        assert((q + 1) * per_group == q * per_group + per_group) by (nonlinear_arith);
        vstd::arithmetic::mul::lemma_mul_is_commutative(q as int, per_group as int);
    }
}

/// A mode string is ten characters, and starts with `d` exactly for
/// directories.
pub proof fn mode_string_marks_directories(mode: u16)
    ensures
        spec_mode_string(mode).len() == 10,
        (spec_mode_string(mode)[0] == 'd') == (file_format(mode) == S_IFDIR),
{
}

/// A UUID is shown as 36 characters with dashes at positions 8, 13, 18, 23.
pub proof fn uuid_text_shape(u: Seq<u8>)
    requires
        u.len() == 16,
    ensures
        uuid_text(u).len() == 36,
        uuid_text(u)[8] == '-',
        uuid_text(u)[13] == '-',
        uuid_text(u)[18] == '-',
        uuid_text(u)[23] == '-',
{
}

/// Every entry of a whole directory listing names an inode.
pub proof fn dir_listing_names_inodes(blocks: Seq<Seq<u8>>)
    ensures
        forall|k: int| 0 <= k < dir_listing(blocks).len() ==> (#[trigger] dir_listing(blocks)[k]).inode != 0,
    decreases blocks.len(),
{
    if blocks.len() > 0 {
        dir_listing_names_inodes(blocks.drop_last());
        dir_entries_name_inodes(blocks.last(), 0);
        let a = dir_listing(blocks.drop_last());
        let b = dir_entries(blocks.last());
        assert(dir_listing(blocks) == a + b);
        assert forall|k: int| 0 <= k < (a + b).len() implies (a + b)[k].inode != 0 by {
            if k < a.len() {
                assert((a + b)[k] == a[k]);
            } else {
                assert((a + b)[k] == b[k - a.len()]);
            }
        }
    }
}

/// The little-endian value of the four bytes at `pos`, from the bytes alone.
pub open spec fn four_bytes_le(b: Seq<u8>, pos: int) -> int {
    b[pos] + b[pos + 1] * 0x100 + b[pos + 2] * 0x1_0000 + b[pos + 3] * 0x100_0000
}

/// A directory record in use (non-zero inode field) whose name fits in the
/// block is listed first among the entries from its position, with the
/// whole 32-bit inode field, its file type byte and its name bytes.
pub proof fn dir_record_is_listed_with_full_inode(b: Seq<u8>, pos: int)
    requires
        0 <= pos,
        pos + 8 <= b.len(),
        b[pos + 4] + b[pos + 5] * 0x100 >= 8,
        four_bytes_le(b, pos) != 0,
        pos + 8 + b[pos + 6] <= b.len(),
    ensures
        dir_entries_from(b, pos).len() >= 1,
        dir_entries_from(b, pos)[0].inode == four_bytes_le(b, pos),
        dir_entries_from(b, pos)[0].file_type == b[pos + 7],
        dir_entries_from(b, pos)[0].name
            == crate::text::decoded_text(b.subrange(pos + 8, pos + 8 + b[pos + 6])),
{
    let e = record_entry(b, pos);
    assert(e.len() == 1);
    let rec_len = crate::bytes::u16_at(b, pos + 4);
    if rec_len >= 8 && pos + rec_len + 8 <= b.len() {
        let rest = dir_entries_from(b, pos + rec_len);
        assert(dir_entries_from(b, pos) == e + rest);
        assert((e + rest)[0] == e[0]);
    }
}

/// Block 0 starts the volume and each block starts `block_size` bytes after
/// the one before it.
pub proof fn blocks_are_block_size_apart(sb: Superblock, block: int)
    ensures
        block_position(sb, 0) == 0,
        block_position(sb, block + 1) == block_position(sb, block) + sb.block_size,
{
    vstd::arithmetic::mul::lemma_mul_is_distributive_add_other_way(sb.block_size as int, block, 1);
}

/// The descriptor table starts where the block after `first_data_block`
/// starts, and the descriptor of each group follows the previous one by
/// `desc_size` bytes.
pub proof fn group_descriptors_follow_first_data_block(sb: Superblock, group: u32)
    requires
        group < u32::MAX,
    ensures
        group_desc_position(sb, 0) == block_position(sb, sb.first_data_block + 1),
        group_desc_position(sb, (group + 1) as u32) == group_desc_position(sb, group) + sb.desc_size,
{
    vstd::arithmetic::mul::lemma_mul_is_distributive_add_other_way(sb.desc_size as int, group as int, 1);
}

/// The first inode of a group is at the start of the block that holds its
/// inode table, and each next inode is `inode_size` bytes further.
pub proof fn inodes_follow_inode_table_block(sb: Superblock, desc: GroupDescriptor, index: u32)
    requires
        index < u32::MAX,
    ensures
        inode_position(sb, desc, 0) == block_position(sb, desc.inode_table as int),
        inode_position(sb, desc, (index + 1) as u32) == inode_position(sb, desc, index) + sb.inode_size,
{
    vstd::arithmetic::mul::lemma_mul_is_distributive_add_other_way(sb.inode_size as int, index as int, 1);
}

/// The value of a lowercase hex digit, or -1 for any other character.
pub open spec fn hex_value(c: char) -> int {
    let n = c as int;
    if 48 <= n <= 57 {
        n - 48
    } else if 97 <= n <= 102 {
        n - 87
    } else {
        -1
    }
}

/// A byte shown as two hex digits reads back as the byte: the first digit
/// is the high nibble and the second the low nibble.
pub proof fn hex_pair_reads_back(b: u8)
    ensures
        hex_pair(b).len() == 2,
        hex_value(hex_pair(b)[0]) == b / 16,
        hex_value(hex_pair(b)[1]) == b % 16,
        hex_value(hex_pair(b)[0]) * 16 + hex_value(hex_pair(b)[1]) == b,
{
}

/// Where byte `k` of a UUID is shown: two digits per byte, and a dash before
/// bytes 4, 6, 8 and 10.
pub open spec fn uuid_digit_position(k: int) -> int {
    2 * k + (if k >= 4 { 1int } else { 0 }) + (if k >= 6 { 1int } else { 0 })
        + (if k >= 8 { 1int } else { 0 }) + (if k >= 10 { 1int } else { 0 })
}

/// Every byte of a UUID reads back from the two hex digits shown for it,
/// high nibble first.
pub proof fn uuid_text_reads_back(u: Seq<u8>)
    requires
        u.len() == 16,
    ensures
        forall|k: int| 0 <= k < 16 ==> {
            &&& hex_value(#[trigger] uuid_text(u)[uuid_digit_position(k)]) == u[k] / 16
            &&& hex_value(uuid_text(u)[uuid_digit_position(k) + 1]) == u[k] % 16
        },
{
    assert forall|k: int| 0 <= k < 16 implies {
        &&& hex_value(#[trigger] uuid_text(u)[uuid_digit_position(k)]) == u[k] / 16
        &&& hex_value(uuid_text(u)[uuid_digit_position(k) + 1]) == u[k] % 16
    } by {
        hex_pair_reads_back(u[k]);
        assert(uuid_text(u)[uuid_digit_position(k)] == hex_pair(u[k])[0]);
        assert(uuid_text(u)[uuid_digit_position(k) + 1] == hex_pair(u[k])[1]);
    }
}

/// The nine permission characters of a mode string read the mode's low nine
/// bits from the highest down: owner, then group, then others, each as
/// read, write, execute, shown as `r`, `w`, `x` when set and `-` when clear.
pub proof fn mode_string_shows_permission_bits(mode: u16)
    ensures
        spec_mode_string(mode)[1] == if (mode / 0o400) % 2 == 1 { 'r' } else { '-' },
        spec_mode_string(mode)[2] == if (mode / 0o200) % 2 == 1 { 'w' } else { '-' },
        spec_mode_string(mode)[3] == if (mode / 0o100) % 2 == 1 { 'x' } else { '-' },
        spec_mode_string(mode)[4] == if (mode / 0o040) % 2 == 1 { 'r' } else { '-' },
        spec_mode_string(mode)[5] == if (mode / 0o020) % 2 == 1 { 'w' } else { '-' },
        spec_mode_string(mode)[6] == if (mode / 0o010) % 2 == 1 { 'x' } else { '-' },
        spec_mode_string(mode)[7] == if (mode / 0o004) % 2 == 1 { 'r' } else { '-' },
        spec_mode_string(mode)[8] == if (mode / 0o002) % 2 == 1 { 'w' } else { '-' },
        spec_mode_string(mode)[9] == if mode % 2 == 1 { 'x' } else { '-' },
{
    let m = mode as u32;
    assert((m & 0o400 != 0) == ((m / 0o400) % 2 == 1)) by (bit_vector);
    assert((m & 0o200 != 0) == ((m / 0o200) % 2 == 1)) by (bit_vector);
    assert((m & 0o100 != 0) == ((m / 0o100) % 2 == 1)) by (bit_vector);
    assert((m & 0o040 != 0) == ((m / 0o040) % 2 == 1)) by (bit_vector);
    assert((m & 0o020 != 0) == ((m / 0o020) % 2 == 1)) by (bit_vector);
    assert((m & 0o010 != 0) == ((m / 0o010) % 2 == 1)) by (bit_vector);
    assert((m & 0o004 != 0) == ((m / 0o004) % 2 == 1)) by (bit_vector);
    assert((m & 0o002 != 0) == ((m / 0o002) % 2 == 1)) by (bit_vector);
    assert((m & 0o001 != 0) == (m % 2 == 1)) by (bit_vector);
}

/// The walk over directory records: a record shorter than 8 bytes ends it;
/// otherwise the entries from a record are that record's entry (none for an
/// unused record, whose inode field is 0) followed by the entries from the
/// record that its length leads to.
pub proof fn dir_walk_steps_by_record_length(b: Seq<u8>, pos: int)
    requires
        0 <= pos,
        pos + 8 <= b.len(),
    ensures
        b[pos + 4] + b[pos + 5] * 0x100 < 8 ==> dir_entries_from(b, pos).len() == 0,
        ({
            let rec_len = b[pos + 4] + b[pos + 5] * 0x100;
            rec_len >= 8 && pos + rec_len + 8 <= b.len() && four_bytes_le(b, pos) == 0
                ==> dir_entries_from(b, pos) == dir_entries_from(b, pos + rec_len)
        }),
        ({
            let rec_len = b[pos + 4] + b[pos + 5] * 0x100;
            rec_len >= 8 && pos + rec_len + 8 <= b.len()
                ==> dir_entries_from(b, pos) == dir_entries_from(b, pos).take(
                    dir_entries_from(b, pos).len() - dir_entries_from(b, pos + rec_len).len(),
                ) + dir_entries_from(b, pos + rec_len)
        }),
{
    let rec_len = crate::bytes::u16_at(b, pos + 4);
    if rec_len >= 8 && pos + rec_len + 8 <= b.len() {
        let e = record_entry(b, pos);
        let rest = dir_entries_from(b, pos + rec_len);
        assert(dir_entries_from(b, pos) == e + rest);
        assert((e + rest).take(e.len() as int) =~= e);
        if four_bytes_le(b, pos) == 0 {
            assert(e.len() == 0);
            assert(e + rest =~= rest);
        }
    }
}

/// The file type letter of a mode string follows the top four bits of the
/// mode: 1 fifo `p`, 2 character device `c`, 4 directory `d`, 6 block device
/// `b`, 8 regular file `-`, 10 symlink `l`, 12 socket `s`, else `?`.
pub proof fn mode_string_type_letter(mode: u16)
    ensures
        ({
            let t = mode / 0o10000;
            spec_mode_string(mode)[0] == if t == 1 {
                'p'
            } else if t == 2 {
                'c'
            } else if t == 4 {
                'd'
            } else if t == 6 {
                'b'
            } else if t == 8 {
                '-'
            } else if t == 10 {
                'l'
            } else if t == 12 {
                's'
            } else {
                '?'
            }
        }),
{
    let m = mode as u32;
    assert(m < 0x10000 ==> (m & 0o170000) == (m / 0o10000) * 0o10000) by (bit_vector);
}

/// The block size starts at 1024 and doubles with each step of
/// `log_block_size`, as long as no bits are shifted out.
pub proof fn block_size_doubles(log: u32)
    ensures
        spec_block_size(0) == 1024,
        log < 53 ==> spec_block_size((log + 1) as u32) == 2 * spec_block_size(log),
{
    vstd::arithmetic::power2::lemma2_to64();
    if log < 53 {
        vstd::arithmetic::power2::lemma_pow2_unfold(11 + log as nat);
        vstd::arithmetic::power2::lemma_pow2_strictly_increases(11 + log as nat, 64);
        vstd::arithmetic::power2::lemma2_to64_rest();
    }
}

/// The little-endian value of the two bytes at `pos`, from the bytes alone.
pub open spec fn two_bytes_le(b: Seq<u8>, pos: int) -> int {
    b[pos] + b[pos + 1] * 0x100
}

/// A decoded inode's owner, group and size come from their split fields:
/// uid from bytes 2 and 120, gid from bytes 24 and 122, size from bytes 4
/// and 108, the second half of each being the high half.
pub proof fn inode_fields_from_record(i: Inode, number: u32, s: Seq<u8>)
    requires
        s.len() >= 160,
        i.is_decoded_from(number, s),
    ensures
        i.number == number,
        i.mode == two_bytes_le(s, 0),
        i.uid == two_bytes_le(s, 2) + two_bytes_le(s, 120) * 0x1_0000,
        i.gid == two_bytes_le(s, 24) + two_bytes_le(s, 122) * 0x1_0000,
        i.size == four_bytes_le(s, 4) + four_bytes_le(s, 108) * 0x1_0000_0000,
        i.links_count == two_bytes_le(s, 26),
{
}

/// A decoded group descriptor is that of the group asked for; its inode
/// table and bitmaps take their low 32 bits from bytes 8, 0 and 4, and
/// their high 32 bits from bytes 40, 32 and 36 on 64-bit volumes only.
pub proof fn group_fields_from_record(group: u32, bytes: Seq<u8>, has_64bit: bool)
    requires
        bytes.len() == 64,
    ensures
        ({
            let d = spec_decoded_group(group, bytes, has_64bit);
            let hi = if has_64bit { 0x1_0000_0000int } else { 0 };
            &&& d.group == group
            &&& d.inode_table == four_bytes_le(bytes, 8) + hi * four_bytes_le(bytes, 40)
            &&& d.block_bitmap == four_bytes_le(bytes, 0) + hi * four_bytes_le(bytes, 32)
            &&& d.inode_bitmap == four_bytes_le(bytes, 4) + hi * four_bytes_le(bytes, 36)
        }),
{
    assert(crate::bytes::zero_padded(bytes, 64) =~= bytes);
}

} // verus!
