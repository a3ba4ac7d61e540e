//! Placeholder of a WebAssembly runtime for untrusted skills.
use vstd::prelude::*;

verus! {

/// Placeholder for a WASM-based skill runtime.
#[derive(Debug)]
pub struct WasmRuntimeStub {
    private: (),
}

impl WasmRuntimeStub {
    /// The one stub value.
    pub closed spec fn stub() -> Self {
        WasmRuntimeStub { private: () }
    }

    /// A new stub.
    pub fn new() -> (r: Self)
        ensures
            r == Self::stub(),
    {
        WasmRuntimeStub { private: () }
    }
}

impl Default for WasmRuntimeStub {
    fn default() -> (r: Self)
        ensures
            r == Self::stub(),
    {
        WasmRuntimeStub::new()
    }
}

} // verus!
