# boomslang_hostgen

Generates the bindings of host functions for a WASM-embedded CPython runtime. An extension
declares its contract once (`dsl`), and the library writes from it:

- the Rust guest module that Python imports (`rust_guest`): PyO3 functions that call the
  WASM imports;
- the Java host adapter (`java`): a Chicory host function per import, with typed handlers;
- the Rust host adapter (`rust_host`): Wasmtime imports with typed handlers.

`validate` decides which manifests are accepted, `plan` lists the files that a build writes,
`normalize` tidies generated Java, and `laws` holds the properties that tie the generators
together (one ABI lowering for all of them; the manifests they can generate, accepted ones
among them). The modules state their own properties next to their code: in `rust_guest`,
that each import call passes one argument per declared slot (per function and across the
module), that the result buffer is used for string and bytes results (and, for names without
`![`, only for them), the layout of the module, and that a module without functions has no
link attribute (for an empty prewarm list and an extension name without `[l`); in `java`, that every argument read stays within the host
function's WASM parameters; in `normalize`, that tidying is idempotent and keeps every
non-blank line in order.

`src/` is verified with Verus. `app/` is the command line tool and the file system side:
it reads and writes ABI JSON with serde and writes the planned files.
