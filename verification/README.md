# rp-usb-serial

A USB CDC serial console for RP2040 / RP2350 boards, split in two:

- `src/` — the verified library: the bounded transmit and receive byte
  queues (`byte_queue`), the console operations and the per-step decisions
  of a USB poll (`console`), the USB identity per chip family (`identity`),
  and the properties that span several operations (`laws`).
- `app/` — the board glue: the global console singleton, the USB device
  stack, the interrupt entry, and the `usb_print!` / `usb_println!` macros.
  It performs each endpoint read or write that the library asks for and
  reports the outcome back.
