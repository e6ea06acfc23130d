# unity_rs

Translation of il2cpp export names to the obfuscated names under which the
runtime exports them, and the decisions around loading a native library and
resolving a symbol in it, verified with Verus.

- `src/exports.rs`: the export table, as a specification and as data, and the
  proofs that no name occurs twice in it and that no obfuscated name is also
  a name.
- `src/libs.rs`: `get_value` and `get`, the error type, and the laws of the
  lookup.
- `src/loader.rs`: what loading a library and resolving a symbol answer, given
  the outcome of the platform call.
- `src/text.rs`: string equality and the NUL-byte check for C strings.
- `app/lib.rs`: the platform calls (`dlopen`/`dlsym`, `LoadLibraryA`/
  `GetProcAddress`), `NativeLibrary`, `NativeMethod`, and the error type with
  its `Display`.
