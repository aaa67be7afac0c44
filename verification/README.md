# webrender_device

The GL device layer of a renderer, verified with Verus.

`src/` is the library. It keeps the device's bookkeeping (the textures,
programs and vertex arrays it created, and a cache of what is bound) and, for
every operation, computes the exact list of GL commands to issue. Each public
function states in its contract the device state it leaves and the commands it
returns, over the model in `src/state.rs`; `src/laws.rs` proves properties
that span operations (binding caches, read-back after initialisation, undoing
initialisation and vertex array creation, releasing every resource, the
consistency of the vertex layouts).

- `types.rs` – object ids and small enumerations, including the platform.
- `command.rs` – the GL commands, as plain values.
- `vertex.rs` – vertex attributes and the layout of each vertex format.
- `state.rs` – the abstract device state and the meaning of each operation.
- `device.rs` – the executable device.
- `fnv_map.rs` – the FNV-hashed resource tables and the trusted wrappers of
  their `HashMap` operations.
- `laws.rs` – proved properties.

`app/` replays the commands on a live context through `gleam`, and does what
needs the context, the file system or floating-point values: generating
object names, querying uniform locations and link status, compiling shader
sources, and setting float uniforms and matrices.
