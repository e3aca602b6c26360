# rustffi

Verified core of a Rust binding to the RT-Thread kernel.

`src/` is the verified library. It holds what the binding decides around each
kernel call:

- `cstr`: fixed-size kernel object names (`RtName`, `RtNameRef`), filled from
  text by cutting to `RT_NAME_MAX` bytes and padding with zeros.
- `fmt`: the zero-terminated buffers that console output is framed into.
- `gpio`: pin modes, pin lookup outcomes, and the pin calls of output and
  input pins.
- `spi`: SPI device lookup (SPI device class only), attach and configure
  outcomes, error kinds, the kernel transfers of each operation, the steps of
  a transaction (bus locked and chip select held throughout, delays as
  waits, a failed transfer ending the transaction), how replies land in the buffers, and transfer error reporting.
- `spi_example`: an example driver's transactions (device id, write, read,
  full-duplex transfer).
- `sync::mq`: message queue creation arguments and kernel answers.
- `delay`: the kernel's sleep argument.

`app/` is the unverified rest: the kernel function declarations, the calls
themselves, the `embedded-hal` trait impls, the console macros and the C entry
points.
