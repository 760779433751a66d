# bootcore

The logic of a bare-metal USB boot loader for an Ambarella-style SoC,
verified with Verus.

The loader talks to the host over a USB device controller, reads NAND flash
pages through the flash controller and its DMA engine, and prints on a UART.
The library never touches hardware. Each driver routine returns a *register
program* (`regs::RegOp`: writes, read-modify-writes, polls, reads, buffer
fills) and, where the hardware answers, takes the words read back as plain
arguments. The contracts state each program exactly, over `regs::Op`.

- `src/regs.rs` — register fields (computed with `tock_registers`) and programs
- `src/descr.rs` — USB descriptor tables
- `src/console.rs` — console text: line endings, hexadecimal numbers
- `src/uart.rs` — the UART transmitter
- `src/nand.rs` — flash controller: set-up, page read, program, erase
- `src/usb.rs` — USB device: endpoints, control and bulk transfers
- `src/loader.rs` — the host's page-read requests and the replies
- `src/cache.rs` — data-cache maintenance (no-ops: the cache is off)
- `app/` — entry point, the program runner on real registers, DMA memory,
  and the service loop
