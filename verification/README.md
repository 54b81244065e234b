# blkops

A tool for Android devices that finds the block device of a partition,
writes an image to it, or dumps it to an image file.

- `src/` is the verified library: the partition search over the file
  system's answers (`device`), the planning and bookkeeping of copies
  (`transfer`, `writer`, `flash::writer`, `blockio::device`), the progress
  displays (`progress`), the reading of system tool output (`helpers`), the
  command line (`cli`), the error types (`error`), and text and path
  handling (`text`, `paths`). `sys` declares the standard-library items the
  logic relies on.
- `app/` is the program: argument parsing, system calls, commands, terminal
  output, and the floating-point speed and percentage figures.
- `tests/` runs the library on concrete inputs.

Usage:

```
blkops -s <partition>              Search for a partition and show its device path
blkops -s <partition> -p           Search and show only the device path
blkops -w <image> <partition>      Write image to partition
blkops -d <partition> <image>      Dump partition to image file
blkops -h, --help                  Show this help message
```
