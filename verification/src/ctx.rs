//! The state of the wasi-crypto functions.

use vstd::prelude::*;

verus! {

/// Host state for the wasi-crypto functions: a cryptographic context of type `C`,
/// which holds every primitive and every handle table, behind the functions that a
/// guest calls.
///
/// Each function of the guest's interface is a method. It reads the arguments out
/// of guest memory, calls into the context once, and writes the results back. The
/// context's own function is handed in as `call`; the contract says on which
/// arguments it is called and what becomes of its reply. A fault in reading the
/// arguments comes before the call, and then the context is not called at all. One
/// method never calls it: `options_set_guest_buffer`, which has nothing to store.
pub struct WasiCryptoCtx<C> {
    pub(crate) ctx: C,
}

impl<C> WasiCryptoCtx<C> {
    /// The cryptographic context.
    pub open(crate) spec fn host(self) -> C {
        self.ctx
    }

    /// Puts the functions of the guest's interface before a context.
    pub fn new(ctx: C) -> (r: Self)
        ensures
            r.host() == ctx,
    {
        WasiCryptoCtx { ctx }
    }
}

} // verus!
