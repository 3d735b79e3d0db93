# exposer

A read-only ext4 dissector. It decodes the superblock, block group
descriptors, inodes, extent trees and directory blocks of an ext4 volume from
raw bytes and prints what it finds, without mounting or writing anything.

The decoding, the arithmetic that locates records on the volume, and the
text that is printed are a library verified with Verus; a thin command-line
front end does the file reads.

## Layout

- `src/bytes.rs`: little-endian integers and byte-run helpers.
- `src/types.rs`: the on-disk records, decoded field by field.
- `src/ext4.rs`: superblock, block groups, inodes, extents and directory
  entries, with the offsets at which they are read.
- `src/text.rs`: numbers in a radix, padding, and text decoded from UTF-8.
- `src/render.rs`: the text shown for each structure and error.
- `src/laws.rs`: properties that hold for every input.
- `app/`: argument handling and the reads from the volume.
- `tests/`: tests on concrete volumes built byte by byte.

## Usage

```
exposer /dev/sdaN              # superblock and block groups
exposer /dev/sdaN --inode 12   # one inode
exposer /dev/sdaN --inode      # every allocated inode
exposer /dev/sdaN --ls         # the root directory
```
