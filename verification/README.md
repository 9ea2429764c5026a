# framework

An OpenGL drawing framework — triangle meshes and shader programs that reload
themselves when their source files change — written in Verus.

- `src/` is the verified library. Every operation that talks to the driver,
  the file system or the clock is a small state machine: it issues
  `protocol::Command`s and is fed the `protocol::Reply` to the last one. The
  machines' transitions are stated as spec functions (`draw_next`,
  `compile_next`, `link_next`, `load_next`, `new_next`, `update_next`), and
  proof functions next to them state what whole runs do.
- `app/` performs those commands with the `gl` crate against the current
  context, reads files and the clock, and offers the float- and
  `cgmath`-based API (`mesh::Mesh`, `shader::Shader`).
- `tests/` drives the machines with concrete replies.
