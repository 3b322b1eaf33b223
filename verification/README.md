# clang

A binding to `libclang`, split in two:

* `src/` is the verified core. It holds the handles to the objects that
  `libclang` owns (as addresses and plain location data), the option sets and
  their bit encodings, the status codes that `libclang` answers, the single
  `Clang` instance that may exist at a time, and the decisions the binding
  makes on what it reads back from `libclang` (fix-it classification, lists of
  diagnostics, ranges and headers, memory usage reports). Every function there
  carries a contract that Verus proves.
* `app/` declares the `libclang` C functions and makes the calls, handing
  what they return to the verified core. It also holds what needs `Drop`,
  `Debug`, `Display` or `Hash` on the handle types.
* `tests/` exercises the verified core on concrete values.
