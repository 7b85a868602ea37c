# ssc

A Rust interface to the SSC systems library, with its logic verified by Verus.

- `src/` is the verified library:
  - `mem`: amounts of memory and the binary unit constants;
  - `op`: wiping, comparing and zero-testing slices of primitive integers;
  - `mmap`: the record of a memory-mapped file and the step-by-step
    decisions of initializing and releasing it;
  - `c`, `print`: shared integer types, status conversions and constants.
- `app/` is the program around it: the declarations of and calls into the C
  library, the memory-mapped file type that drives `mmap`'s steps, and `main`.
- `tests/` exercises the library on concrete values.

`ssc::op::secure_zero`, `const_time_mem_diff` and `const_time_is_zero` are
Rust versions of SSC's `SSC_secureZero`, `SSC_constTimeMemDiff` and
`SSC_constTimeIsZero`, since the C library cannot be called from verified
code. What they compute is proved; what SSC also promises is not:
that the running time does not depend on the data, and that a wipe is never
removed by the compiler (`secure_zero` only discourages that, through
`std::hint::black_box`, which is best effort). Where those guarantees matter,
the C originals are declared in `app/op.rs`. The library also assumes a
64-bit `usize` for `mem::TI`.
