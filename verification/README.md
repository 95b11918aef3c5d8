# cpu_sim

Parts of a CPU simulator, with their behaviour stated as Verus contracts and
proved:

- `pipeline::decode`: the decoder of 32-bit instruction encodings into
  `instr::Instruction`, with the bit helpers it uses (`sign_extend`, `ones`,
  `ror`, `replicate`).
- `instr`: decoded instructions, the opcode classification used by branch
  prediction, and the register-dependency helpers used for stalling.
- `reg`: architectural register names and their ABI mnemonics.
- `memory`, `os`: the simulated memory and the system calls the simulated
  program makes (`read`, `write`, `close`, `lseek`, `fstat`, `sbrk`), and
  `os::loader`, which loads an ELF file with the `elf` crate.
- `ui`: the decisions of the terminal interface: scrolling, the focus and how
  it moves between panels and tabs, the keys each panel takes, and what the
  event loop does with each event.
- `laws`: properties that span several operations, proved once for all inputs.

`app/` is the program around the library: it reads the ELF file, drives the
terminal with `ratatui`, and draws what the library decides.
The CPU core itself (its pipeline state and the snapshots the dashboard panels
show) is not part of this crate: the app draws those panels empty, and a step
or run request ends the session with an error saying so.
