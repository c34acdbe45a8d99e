# v86 long mode instructions, verified

The 64-bit instruction semantics and the profiling counters of an x86 emulator, written in
Verus with their contracts proved.

- `src/` is the library. `run` decodes and runs one instruction whose operands are registers and
  immediates (`run.rs`), with the byte register forms in `bytes.rs`, built on the arithmetic group
  (`alu.rs`), the shifts and rotates (`shift.rs`), the bit operations (`bits.rs`), the multiplies
  and divides (`muldiv.rs`), operand widths (`width.rs`), flags (`flags.rs`, `cpu.rs`) and modrm
  addressing (`modrm.rs`).
- Memory is the caller's. The memory forms of those instructions run in two steps around the
  caller's access (`memory.rs`), and so do push, pop, call and ret around the stack (`stack.rs`);
  the string instructions (`strings.rs`) and cmpxchg8b/16b
  (`pair.rs`) decide what to read and write and what the registers become; the fxsave image is
  `fxsave.rs`, with ldmxcsr; mov with a 64-bit absolute address is in `memory.rs` and retf and the
  push and pop of fs and gs in `stack.rs`. The segment loads of lldt, ltr and a far return decide
  from the descriptor the caller looked up, and the moves to and from segment registers and the
  descriptor table instructions of groups 6 and 7 say what the caller stores, loads or
  invalidates (`segments.rs`). syscall, sysret, swapgs, iret, port i/o, the software interrupts
  and the moves to and from control and debug registers decide what the registers, flags and
  privilege level become and which segments to load or faults to raise (`system.rs`). movd, movq
  and the xmm shifts by an immediate are decoded in `sse.rs`; the xmm registers are the caller's.
- `profiler.rs` keeps the event counters and the hot page table. `laws.rs` holds the properties
  that span operations.
- `app/` is the emulator's side: the profiler's global state and its exports, the clock, and the
  code that makes the memory, stack, port, segment and register accesses the library asks for.
- `tests/` runs the library on concrete instructions.
