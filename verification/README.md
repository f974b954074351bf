# adelie

The core of a Game Boy / Game Boy Color emulator, with its behaviour stated in Verus contracts
and proved.

- `src/memory.rs`: the `Memory` trait (what a read returns and what a read or a write leaves
  behind, per device) and the console's own memories: video RAM, work RAM, object memory, high
  RAM, the boot ROM.
- `src/cartridge.rs`: the `Cartridge` trait and the decoding of the cartridge header.
- `src/cartridge/mbc.rs` and `src/cartridge/mbc/`: checking a ROM against its header, and the
  mappers (none, MBC2, MBC3 with its clock, MBC5 with its rumble motor).
- `src/instance/io.rs`: the I/O registers and the decoding of bus addresses to devices.
- `src/instance.rs`: the emulator instance and its wall clock.
- `app/`: the loops that run the SoC against the wall clock, and the display forms of errors.
