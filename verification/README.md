# simple_array

A fixed-capacity array verified with Verus. `ConstArray<T, N>` holds at
most `N` elements of type `T`, in order. It offers `push`, `insert`,
`remove`, `swap_remove`, `retain`, `drain` and the other operations of a
vector whose capacity is fixed. Each operation that would go past the
capacity either requires room or has a `try_` form that hands the
element back in a `CapacityError`.

- `src/const_array.rs`: the array and its operations, each with a contract
  over the sequence of its elements.
- `src/drain.rs`: `SimpleDrain`, which borrows the array it drains, hands
  out the drained elements from either end and holds the array's tail
  until `finish` puts it back (a forgotten drain leaves the array cut at
  the drained range's start; one dropped without `finish` also drops the
  tail), and the `Bound` type for drain ranges.
- `src/fixed_array.rs`: the `FixedArray` trait, implemented by the array.
- `src/error.rs`: `CapacityError`.
- `src/convert.rs`: the calls into std that Verus takes on trust.
- `src/laws.rs`: proved properties that relate several operations.
- `tests/`: tests on concrete values.
