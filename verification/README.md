# can_c_codegen_rs

Generates the C code of one node of a CAN network: a header and a source file
with the node's types, object entries and their accessors, message structs
with their (de)serialization, the receive queue, polling, frame definitions,
and further building blocks (handlers of received messages, the job
scheduler, setters, setup, platform layer and hooks).

Layout:

- `src/config.rs`: the description of the network the code is generated from.
- `src/file_buffer.rs`, `src/source_block.rs`: a generated file as an ordered
  list of blocks with distinct identifiers, and its rendering.
- one module per generator (`types`, `object_entries`, `messages`,
  `rx_queue`, `poll`, `can_frame`, `rx_handlers`, `scheduler`, `setters`,
  `setup`, `pil`, `update`, `can_module_hooks`, `extern_c_guard`).
- `src/lib.rs`: `generate`, which builds both files of a node.
- `app/`: the command line front end, which reads the network description
  and writes the generated files.

Every generator states the exact text it produces in its contract, over
spec functions of the same module, and is verified with Verus.
