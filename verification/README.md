# bouffalo

Register models, DMA transfer planning and boot image tooling for Bouffalo
Lab chips (BL808, BL616, BL702), with their behaviour stated in contracts and
proved by Verus.

## Layout

- `src/bits.rs`: the model of a 32-bit register word: fields, writes
  (`with_field`, `or_field`) and the laws that relate them.
- `src/bitfield.rs`: `BitField<LEN, SHIFT, T>`, a field whose place is fixed
  by its type, over words of 8 to 64 bits.
- `src/soc/`: register values of the BL808 PWM, DMA and multi-media global
  configuration peripherals.
- `src/hal/`: register values of the DMA controller, eFuse (with the trim
  tables of the BL808, BL616 and BL702), global configuration
  (BL602/BL702), GPIP, DBI, IR and LZ4 decompressor; `hal/dma/channel.rs`
  plans linked-list DMA transfers, the channel registers a reload loads and
  the register values that set up a channel.
- `src/blri/`: the firmware image tool: checking and patching boot headers
  (`image`), ELF to flat binary conversion (`elf`), the ISP protocol
  (`isp`, `protocol`), console highlighting (`console`) and saved settings
  (`settings`).
- `app/`: the `blri` command line program: file and serial I/O, prompts and
  the serial console, around the library.
- `tests/`: tests of the library.

The outside crates `sha2`, `crc` and `object` are called from the library
through small wrappers whose contracts name their results; everything the
library computes around them is verified.
