# wasi-crypto-wasmtime

The wasi-crypto host functions for Wasmtime, with the bridge between the guest and
the cryptographic host written in Rust and verified with Verus.

A wasm guest speaks in terms of guest pointers and integer error codes, the host in
terms of slices and `u32` handles. Each wasi-crypto function reads its arguments out
of guest memory, calls the host once, and writes the results back. (The one exception
is `options_set_guest_buffer`, which reads a name and has nothing to tell the host.)
What is proved of them:

- the host is called exactly once, on exactly the arguments that the guest passed,
  and the guest gets exactly what the host replied;
- a fault in reading the arguments is reported and never reaches the host;
- nothing but the output buffer is written; in unshared memory what the guest reads
  there is what the host left there, and into shared memory exactly the bytes that
  the host produced are copied, and none where it refused;
- input is copied before output is written, so encryption and decryption may work in
  place; an import depends on the bytes that the guest points to and not on where they
  lie (both of unshared memory, and of a host function that has one outcome);
- a buffer that is too small for the data is refused as `Overflow`, and then guest
  memory is left alone;
- every error reaches the guest as the code of its name, and every memory fault as
  `GuestError`.

Shared memory may be changed by others at any moment, so nothing is claimed of what a
read of it sees or of what is found there later.

## Layout

- `src/` is the verified library. `memory.rs` models guest memory and holds the few
  declarations about `wiggle::GuestMemory` that are believed without proof;
  `error.rs` and `convert.rs` deal with errors and names; `ctx.rs` holds the state;
  `common.rs`, `asymmetric_common.rs`, `signatures.rs`, `kx.rs` and `symmetric.rs`
  hold the functions; `laws.rs` states what holds of all of them together.
- `app/` puts the library into Wasmtime: the traits that wiggle generates from the
  witx description, implemented over the `CryptoCtx` of the `wasi-crypto` crate, and
  `add_to_linker`.
- `tests/` runs the library on guest memories of both kinds, unshared and shared,
  with hosts that check what they are called with.

The library is generic in the host context: each method takes the host's own
function as its last argument, and its contract is stated over that function's
contract. Nothing is assumed of the host but one thing: with shared guest memory, a
host function that fills a buffer does not count more bytes than the buffer holds.
