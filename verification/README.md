# eofs

A small FAT-style file system and its on-disk image, with the logic verified by Verus.

- `src/layout.rs`: the volume layout. `Header::plan` sizes the FAT (the smallest number
  of blocks whose entries address every data sector left), with laws on its uniqueness,
  on the reserved area and on how the sectors fill the volume.
- `src/fs.rs`: the in-memory `FileSystem`, formatted from a layout, and its figures.
- `src/bd.rs`: the block device interface and the bookkeeping of a device kept in a
  file (open/closed, blocks held, how each read and write is carried out), with laws.
- `src/header.rs`: the image header, its default, the sizes it describes and the header
  page.
- `app/`: the command line program; it does the file I/O and the postcard encoding.
