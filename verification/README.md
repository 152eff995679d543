# pw_kernel interrupt control, verified

A Verus library holding the decision logic of pw_kernel's user space
interrupt control, with an ordinary Rust layer around it for the hardware.

- `src/` — the verified library:
  - `status` — failure codes crossing the system call boundary;
  - `syscall_defs` — `Signals`, `InterruptControl`, `InterruptStatus`,
    system call identifiers, and the encoding of system call return values,
    with proofs that results survive the kernel/user space round trip;
  - `interrupt_object` — the interrupt object's notification state and the
    controller operations each request calls for;
  - `plic` — RISC-V PLIC register addresses, enable/pending bit arithmetic,
    and the initialization steps with a proof of their end state;
  - `nvic` — Arm NVIC register layout, a model of its set/clear registers
    with read-back laws, and the interrupts-enabled decision;
  - `interrupt_controller` — a context value that is empty until set,
    read back as a clone (exclusive access through `&mut` for setting);
  - `syscall_host` — the host system call stubs.
- `app/` — the controller drivers (register and CSR access through
  `cortex-m` and `riscv`), the callback-bound interrupt object and the
  system call trait.
- `tests/` — tests of the library on concrete values.
