# emulator

An emulator of the Mic-1, the microprogrammed machine of Tanenbaum's
*Structured Computer Organization*, written in Verus: the data path, its
four-phase clock, the control store, main memory with its memory-mapped
receiver and transmitter, and the decisions of the interactive debugger are
specified and proved in `src/`.

- `src/machine/`: the clock, the microinstruction word and the machine with
  its `pulse`, whose effect is stated by `pulse_outcome`.
- `src/memory/`: fixed-size memories and main memory (`IOMemory`), whose
  reads and writes are stated by `read_outcome` and `write_outcome`.
- `src/io.rs`, `src/registers.rs`: the device status word and the registers.
- `src/parse.rs`, `src/text.rs`: reading binary and decimal numbers and blank lines.
- `src/menu.rs`: the debugger's choices and states.
- `app/`: the command line program (argument parsing, files, terminal and
  channel line accessors, printing).
- `tests/`: tests of the library on concrete values.
