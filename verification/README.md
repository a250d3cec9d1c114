# atari_display

The render-side logic of an Atari 800 display, verified with Verus.

- `src/render_resources.rs`: the byte blocks the ANTIC line shader reads
  (character set, line data with player graphics) and the GTIA colour
  registers, including the player width decoded from SIZEP.
- `src/mode_line.rs`: which display list lines are drawn, and the shader input
  gathered for a drawn line from memory; the DLIST register bytes.
- `src/frame.rs`: the scan-line schedule of a frame (when ANTIC reads the next
  display list line, when the vertical blank begins), the interrupts each cycle
  drives.
- `src/trace.rs`: the instruction tracer: when it traces or stops, and the
  trace text of the instruction at the program counter, disassembled by the
  `disasm6502` crate.
- `app/`: the Bevy side: uploadable copies of the shader input, the system
  that spawns a quad per drawn line, and the frame loop that steps the CPU.
