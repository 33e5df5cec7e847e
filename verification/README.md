# bxt_rs

The verified core of a tool that runs inside the Half-Life engine (GoldSrc).

- `src/pattern.rs`: byte patterns with wildcards (`"55 8B EC ?? ?? 56"`), their
  parser, and the search for the first pattern of a list that occurs in a
  memory image.
- `src/engine.rs`: the engine functions and variables that the tool locates
  (by symbol, by pattern, or by reading the code of a function found by its
  pattern, per engine build), which of them are hooked, and the text handed
  to the engine console and command buffer.
- `src/hooks.rs`: what the hooks on engine functions decide.
- `src/opengl.rs`: the OpenGL side of frame capture as runs that hand out one
  call at a time, each followed by an error check.
- `src/main_thread_ref_cell.rs`: a cell reached only with a main-thread token.

`app/` carries the decisions out against the running engine: symbol lookup,
memory access, MinHook, the exported hook functions and the OpenGL calls.
