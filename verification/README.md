# esp_ll

Drivers and demo logic for ESP32 and ESP32-C3 boards that talk to IDF's
low-level C library (`ll`), the chip ROM and watchdog registers.

The library (`src/`) is verified with Verus. Every side effect on the hardware
is described as a plain value that the firmware performs:

- `ll`: the calls into the low-level library (`LlCall`) and its constants;
- `gpio`, `i2c`, `timer`, `uart`: the GPIO output pad, the I2C master (a write
  is a state machine fed with FIFO count readings), the ROM delay timer and the
  ROM console UART;
- `regs`, `wdt`: register accesses and the accesses that switch the watchdogs
  off, with proofs of their effect on any register state;
- `delay`: the busy-wait handed to the low-level library;
- `demo`: the blink-and-greet loop that both boards run.

`app/` is the firmware: it declares the C interfaces, implements the
embedded-hal traits on top of the library, and drives the SSD1306 display.
