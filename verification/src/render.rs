//! The text the dissector prints for each structure and error.
use vstd::prelude::*;

use crate::ext4::{
    file_type_name, dir_file_type_name, spec_c_str, spec_mode_string, uuid_text, DirEntry,
    Ext4Error, GroupDescriptor, Inode, Superblock, EXT4_MAGIC, MODE_PERM_MASK,
};
use crate::text::{
    bool_text, digits, pad_left, pad_right, push_bool, push_chars, push_decimal,
    push_decimal_left, push_decimal_right, push_radix_padded, push_str_left,
};

verus! {

/// `n` in decimal.
pub open spec fn dec(n: int) -> Seq<char> {
    digits(n as nat, 10)
}

/// The volume label as shown: `(none)` when it is empty.
pub open spec fn shown_name(sb: Superblock) -> Seq<char> {
    let name = spec_c_str(sb.raw.volume_name@);
    if name.len() == 0 {
        "(none)"@
    } else {
        name
    }
}

/// The multi-line summary of a superblock.
pub open spec fn superblock_text(sb: Superblock) -> Seq<char> {
    "ext4 volume\n"@
        + "  volume name:       "@ + shown_name(sb) + "\n"@
        + "  uuid:              "@ + uuid_text(sb.raw.uuid@) + "\n"@
        + "  block size:        "@ + dec(sb.block_size as int) + " bytes\n"@
        + "  inode size:        "@ + dec(sb.inode_size as int) + " bytes\n"@
        + "  descriptor size:   "@ + dec(sb.desc_size as int) + " bytes\n"@
        + "  blocks:            "@ + dec(sb.blocks_count as int) + " total, "@
        + dec(sb.free_blocks_count as int) + " free\n"@
        + "  inodes:            "@ + dec(sb.inodes_count as int) + " total, "@
        + dec(sb.free_inodes_count as int) + " free\n"@
        + "  blocks per group:  "@ + dec(sb.blocks_per_group as int) + "\n"@
        + "  inodes per group:  "@ + dec(sb.inodes_per_group as int) + "\n"@
        + "  first data block:  "@ + dec(sb.first_data_block as int) + "\n"@
        + "  features:          64bit="@ + bool_text(sb.has_64bit) + " extents="@
        + bool_text(sb.has_extents) + " filetype="@ + bool_text(sb.has_filetype)
}

/// The one-line summary of a block group.
pub open spec fn group_text(g: GroupDescriptor) -> Seq<char> {
    "group "@ + pad_left(dec(g.group as int), 3, ' ') + ": inode table @ block "@
        + dec(g.inode_table as int) + ", block bitmap @ "@ + dec(g.block_bitmap as int)
        + ", inode bitmap @ "@ + dec(g.inode_bitmap as int) + ", "@
        + dec(g.free_blocks_count as int) + " free blocks, "@
        + dec(g.free_inodes_count as int) + " free inodes, "@
        + dec(g.used_dirs_count as int) + " dirs"@
}

/// The multi-line description of an inode.
pub open spec fn inode_text(i: Inode) -> Seq<char> {
    "inode "@ + dec(i.number as int) + "\n"@
        + "  type:              "@ + file_type_name(i.mode) + "\n"@
        + "  mode:              "@ + pad_left(digits((i.mode & MODE_PERM_MASK) as nat, 8), 4, '0') + "\n"@
        + "  owner:             uid "@ + dec(i.uid as int) + ", gid "@ + dec(i.gid as int) + "\n"@
        + "  size:              "@ + dec(i.size as int) + " bytes\n"@
        + "  links:             "@ + dec(i.links_count as int) + "\n"@
        + "  blocks (512B):     "@ + dec(i.blocks as int) + "\n"@
        + "  flags:             0x"@ + digits(i.flags as nat, 16) + "\n"@
        + "  times (epoch):     a="@ + dec(i.atime as int) + " c="@ + dec(i.ctime as int)
        + " m="@ + dec(i.mtime as int) + " cr="@ + dec(i.crtime as int)
}

/// The one-line form of an inode, as in a listing.
pub open spec fn inode_row_text(i: Inode) -> Seq<char> {
    pad_left(dec(i.number as int), 8, ' ') + "  "@ + spec_mode_string(i.mode) + "  uid "@
        + pad_right(dec(i.uid as int), 5) + " gid "@ + pad_right(dec(i.gid as int), 5) + " "@
        + pad_left(dec(i.size as int), 10, ' ') + " bytes  "@ + dec(i.links_count as int)
        + " links"@
}

/// The line of an inode listing: the row, marked when the inode is free.
pub open spec fn inode_listing_text(i: Inode) -> Seq<char> {
    inode_row_text(i) + if i.links_count == 0 {
        " (free inode)"@
    } else {
        Seq::<char>::empty()
    }
}

/// The one-line form of a directory entry.
pub open spec fn dir_entry_text(e: DirEntry) -> Seq<char> {
    pad_left(dec(e.inode as int), 8, ' ') + "  "@ + pad_right(dir_file_type_name(e.file_type), 16)
        + "  "@ + e.name@
}

/// A 16-bit value as `0x` and at least four hex digits.
pub open spec fn hex16_text(v: u16) -> Seq<char> {
    "0x"@ + pad_left(digits(v as nat, 16), 4, '0')
}

/// The message that explains an error.
pub open spec fn error_text(e: Ext4Error) -> Seq<char> {
    match e {
        Ext4Error::BadMagic { found } => "not an ext4 volume: magic is "@ + hex16_text(found)
            + ", expected "@ + hex16_text(EXT4_MAGIC),
        Ext4Error::InvalidInodeNumber => "Select a valid inode"@,
        Ext4Error::NotADirectory { inode } => "inode "@ + dec(inode as int) + " is not a directory"@,
        Ext4Error::NotExtentMapped { inode } => "inode "@ + dec(inode as int)
            + " is not extent mapped. Not supported"@,
        Ext4Error::DeepExtentTree { inode, depth } => "inode "@ + dec(inode as int) + " has a depth "@
            + dec(depth as int) + " extent tree"@,
    }
}

impl Superblock {
    /// The multi-line summary the dissector prints for the volume.
    pub fn describe(&self) -> (r: String)
        ensures
            r@ == superblock_text(*self),
    {
        let mut s = String::new();
        s.append("ext4 volume\n");
        s.append("  volume name:       ");
        let name = self.volume_name();
        if name.unicode_len() == 0 {
            s.append("(none)");
        } else {
            s.append(name.as_str());
        }
        s.append("\n");
        s.append("  uuid:              ");
        let uuid = self.uuid();
        s.append(uuid.as_str());
        s.append("\n");
        s.append("  block size:        ");
        push_decimal(&mut s, self.block_size);
        s.append(" bytes\n");
        s.append("  inode size:        ");
        push_decimal(&mut s, self.inode_size as u64);
        s.append(" bytes\n");
        s.append("  descriptor size:   ");
        push_decimal(&mut s, self.desc_size as u64);
        s.append(" bytes\n");
        s.append("  blocks:            ");
        push_decimal(&mut s, self.blocks_count);
        s.append(" total, ");
        push_decimal(&mut s, self.free_blocks_count);
        s.append(" free\n");
        s.append("  inodes:            ");
        push_decimal(&mut s, self.inodes_count as u64);
        s.append(" total, ");
        push_decimal(&mut s, self.free_inodes_count as u64);
        s.append(" free\n");
        s.append("  blocks per group:  ");
        push_decimal(&mut s, self.blocks_per_group as u64);
        s.append("\n");
        s.append("  inodes per group:  ");
        push_decimal(&mut s, self.inodes_per_group as u64);
        s.append("\n");
        s.append("  first data block:  ");
        push_decimal(&mut s, self.first_data_block as u64);
        s.append("\n");
        s.append("  features:          64bit=");
        push_bool(&mut s, self.has_64bit);
        s.append(" extents=");
        push_bool(&mut s, self.has_extents);
        s.append(" filetype=");
        push_bool(&mut s, self.has_filetype);
        assert(s@ =~= superblock_text(*self));
        s
    }
}

impl GroupDescriptor {
    /// The one-line summary the dissector prints for a block group.
    pub fn describe(&self) -> (r: String)
        ensures
            r@ == group_text(*self),
    {
        let mut s = String::new();
        s.append("group ");
        push_decimal_right(&mut s, self.group as u64, 3);
        s.append(": inode table @ block ");
        push_decimal(&mut s, self.inode_table);
        s.append(", block bitmap @ ");
        push_decimal(&mut s, self.block_bitmap);
        s.append(", inode bitmap @ ");
        push_decimal(&mut s, self.inode_bitmap);
        s.append(", ");
        push_decimal(&mut s, self.free_blocks_count as u64);
        s.append(" free blocks, ");
        push_decimal(&mut s, self.free_inodes_count as u64);
        s.append(" free inodes, ");
        push_decimal(&mut s, self.used_dirs_count as u64);
        s.append(" dirs");
        assert(s@ =~= group_text(*self));
        s
    }
}

impl Inode {
    /// The multi-line description the dissector prints for one inode.
    pub fn describe(&self) -> (r: String)
        ensures
            r@ == inode_text(*self),
    {
        let mut s = String::new();
        s.append("inode ");
        push_decimal(&mut s, self.number as u64);
        s.append("\n");
        s.append("  type:              ");
        s.append(self.file_type());
        s.append("\n");
        s.append("  mode:              ");
        push_radix_padded(&mut s, self.permissions() as u64, 8, 4, '0');
        s.append("\n");
        s.append("  owner:             uid ");
        push_decimal(&mut s, self.uid as u64);
        s.append(", gid ");
        push_decimal(&mut s, self.gid as u64);
        s.append("\n");
        s.append("  size:              ");
        push_decimal(&mut s, self.size);
        s.append(" bytes\n");
        s.append("  links:             ");
        push_decimal(&mut s, self.links_count as u64);
        s.append("\n");
        s.append("  blocks (512B):     ");
        push_decimal(&mut s, self.blocks);
        s.append("\n");
        s.append("  flags:             0x");
        push_radix_padded(&mut s, self.flags as u64, 16, 0, '0');
        s.append("\n");
        s.append("  times (epoch):     a=");
        push_decimal(&mut s, self.atime as u64);
        s.append(" c=");
        push_decimal(&mut s, self.ctime as u64);
        s.append(" m=");
        push_decimal(&mut s, self.mtime as u64);
        s.append(" cr=");
        push_decimal(&mut s, self.crtime as u64);
        assert(pad_left(digits(self.flags as nat, 16), 0, '0') == digits(self.flags as nat, 16));
        assert(s@ =~= inode_text(*self));
        s
    }

    /// The one-line form of the inode used in listings.
    pub fn describe_row(&self) -> (r: String)
        ensures
            r@ == inode_row_text(*self),
    {
        let mut s = String::new();
        push_decimal_right(&mut s, self.number as u64, 8);
        s.append("  ");
        let mode = self.mode_string();
        s.append(mode.as_str());
        s.append("  uid ");
        push_decimal_left(&mut s, self.uid as u64, 5);
        s.append(" gid ");
        push_decimal_left(&mut s, self.gid as u64, 5);
        s.append(" ");
        push_decimal_right(&mut s, self.size, 10);
        s.append(" bytes  ");
        push_decimal(&mut s, self.links_count as u64);
        s.append(" links");
        assert(s@ =~= inode_row_text(*self));
        s
    }

    /// Whether an inode listing shows this inode: in use, or free ones asked for.
    pub fn is_listed(&self, include_free: bool) -> (r: bool)
        ensures
            r == (self.links_count > 0 || include_free),
    {
        self.links_count > 0 || include_free
    }

    /// The line of an inode listing: the row, marked when the inode is free.
    pub fn listing_line(&self) -> (r: String)
        ensures
            r@ == inode_listing_text(*self),
    {
        let mut s = self.describe_row();
        if self.links_count == 0 {
            s.append(" (free inode)");
        } else {
            assert(s@ =~= s@ + Seq::<char>::empty());
        }
        s
    }
}

impl DirEntry {
    /// The one-line form of the entry in a directory listing.
    pub fn describe(&self) -> (r: String)
        ensures
            r@ == dir_entry_text(*self),
    {
        let mut s = String::new();
        push_decimal_right(&mut s, self.inode as u64, 8);
        s.append("  ");
        push_str_left(&mut s, self.file_type_str(), 16);
        s.append("  ");
        s.append(self.name.as_str());
        assert(s@ =~= dir_entry_text(*self));
        s
    }
}

impl Ext4Error {
    /// The message that explains the error.
    pub fn message(&self) -> (r: String)
        ensures
            r@ == error_text(*self),
    {
        let mut s = String::new();
        match *self {
            Ext4Error::BadMagic { found } => {
                s.append("not an ext4 volume: magic is ");
                s.append("0x");
                push_radix_padded(&mut s, found as u64, 16, 4, '0');
                s.append(", expected ");
                s.append("0x");
                push_radix_padded(&mut s, EXT4_MAGIC as u64, 16, 4, '0');
                assert(s@ =~= error_text(*self));
            },
            Ext4Error::InvalidInodeNumber => {
                s.append("Select a valid inode");
                assert(s@ =~= error_text(*self));
            },
            Ext4Error::NotADirectory { inode } => {
                s.append("inode ");
                push_decimal(&mut s, inode as u64);
                s.append(" is not a directory");
                assert(s@ =~= error_text(*self));
            },
            Ext4Error::NotExtentMapped { inode } => {
                s.append("inode ");
                push_decimal(&mut s, inode as u64);
                s.append(" is not extent mapped. Not supported");
                assert(s@ =~= error_text(*self));
            },
            Ext4Error::DeepExtentTree { inode, depth } => {
                s.append("inode ");
                push_decimal(&mut s, inode as u64);
                s.append(" has a depth ");
                push_decimal(&mut s, depth as u64);
                s.append(" extent tree");
                assert(s@ =~= error_text(*self));
            },
        }
        s
    }
}

/// The text of an inode listing: for each inode in turn that is in use, or
/// every inode when free ones are asked for, its listing line and a newline.
pub open spec fn inodes_listing_text(inodes: Seq<Inode>, include_free: bool) -> Seq<char>
    decreases inodes.len(),
{
    if inodes.len() == 0 {
        Seq::<char>::empty()
    } else {
        let i = inodes.last();
        inodes_listing_text(inodes.drop_last(), include_free) + if i.links_count > 0 || include_free {
            inode_listing_text(i) + "\n"@
        } else {
            Seq::<char>::empty()
        }
    }
}

/// The text of an inode listing over the inodes read, in order.
pub fn inode_listing(inodes: &Vec<Inode>, include_free: bool) -> (r: String)
    ensures
        r@ == inodes_listing_text(inodes@, include_free),
{
    let mut s = String::new();
    let mut k: usize = 0;
    while k < inodes.len()
        invariant
            k <= inodes@.len(),
            s@ == inodes_listing_text(inodes@.take(k as int), include_free),
        decreases inodes@.len() - k,
    {
        let ghost before = s@;
        let inode = &inodes[k];
        if inode.is_listed(include_free) {
            let line = inode.listing_line();
            s.append(line.as_str());
            s.append("\n");
        }
        proof {
            assert(inodes@.take(k + 1).drop_last() =~= inodes@.take(k as int));
            assert(inodes@.take(k + 1).last() == inodes@[k as int]);
            if !(inodes@[k as int].links_count > 0 || include_free) {
                assert(s@ =~= before + Seq::<char>::empty());
            }
        }
        k = k + 1;
    }
    assert(inodes@.take(k as int) =~= inodes@);
    s
}

} // verus!
