# terminus_bl

Boot loader for the Terminus RISC-V simulator, built on RustSBI.

- `src/` is the verified library: the CLINT and HTIF device protocols
  (`hal`), the SBI timer and IPI back ends, console helpers and PMP set-up
  (`sys`), SBI call results (`sbi`), and the machine-mode trap handler's
  decisions (`trap`). Contracts state what each step does to the saved
  registers and which device stores it asks for.
- `app/` is the firmware around it: the `tohost` words and their volatile
  accesses, the control and status registers, the heap, the panic path,
  and the RustSBI trait impls and calls.
- `tests/` runs the library on concrete values.
