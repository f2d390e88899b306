//! Configuration for instantiating a module.

use vstd::prelude::*;

verus! {

/// Auxiliary (linear-memory) stack size carved out at instantiation, in bytes.
pub const DEFAULT_AUX_STACK_SIZE: u32 = 65536;

/// Host-managed app heap size, in bytes. `0` means "no extra app heap";
/// modules that only use their own linear memory don't need one.
pub const DEFAULT_HEAP_SIZE: u32 = 0;

/// Interpreter execution-stack size per instance, in bytes. Generous by
/// default so deeply recursive workloads don't overflow it.
pub const DEFAULT_EXEC_STACK_SIZE: u32 = 8388608;

/// Per-instance resource sizes used when instantiating a module.
///
/// These map directly onto the sizes WAMR takes as arguments to
/// `wasm_runtime_instantiate` and `wasm_runtime_create_exec_env`; WAMR sets
/// them per instantiation rather than engine-wide.
///
/// Build one with [`InstanceConfig::new`] (or [`Default`]) and the
/// builder-style setters, which can be chained.
#[derive(Debug, Clone, Copy, PartialEq, Eq, Structural)]
pub struct InstanceConfig {
    aux_stack_size: u32,
    heap_size: u32,
    exec_stack_size: u32,
}

impl View for InstanceConfig {
    type V = (u32, u32, u32);

    /// The auxiliary stack size, the app heap size and the execution-stack
    /// size, in bytes.
    closed spec fn view(&self) -> (u32, u32, u32) {
        (self.aux_stack_size, self.heap_size, self.exec_stack_size)
    }
}

impl Default for InstanceConfig {
    fn default() -> (c: InstanceConfig)
        ensures
            c@ == (DEFAULT_AUX_STACK_SIZE, DEFAULT_HEAP_SIZE, DEFAULT_EXEC_STACK_SIZE),
    {
        InstanceConfig {
            aux_stack_size: DEFAULT_AUX_STACK_SIZE,
            heap_size: DEFAULT_HEAP_SIZE,
            exec_stack_size: DEFAULT_EXEC_STACK_SIZE,
        }
    }
}

impl InstanceConfig {
    /// Creates a new configuration with default sizes.
    pub fn new() -> (c: InstanceConfig)
        ensures
            c@ == (DEFAULT_AUX_STACK_SIZE, DEFAULT_HEAP_SIZE, DEFAULT_EXEC_STACK_SIZE),
    {
        InstanceConfig::default()
    }

    /// Sets the auxiliary (linear-memory) stack size, in bytes.
    ///
    /// Passed as `wasm_runtime_instantiate`'s `default_stack_size`.
    pub fn aux_stack_size(&mut self, bytes: u32) -> (r: &mut InstanceConfig)
        ensures
            r@ == (bytes, old(self)@.1, old(self)@.2),
            *final(self) == *final(r),
    {
        self.aux_stack_size = bytes;
        self
    }

    /// Sets the host-managed app heap size, in bytes (`0` for none).
    ///
    /// Passed as `wasm_runtime_instantiate`'s `host_managed_heap_size`.
    pub fn heap_size(&mut self, bytes: u32) -> (r: &mut InstanceConfig)
        ensures
            r@ == (old(self)@.0, bytes, old(self)@.2),
            *final(self) == *final(r),
    {
        self.heap_size = bytes;
        self
    }

    /// Sets the interpreter execution-stack size per instance, in bytes.
    ///
    /// Passed as `wasm_runtime_create_exec_env`'s `stack_size`; bounds Wasm
    /// call depth.
    pub fn exec_stack_size(&mut self, bytes: u32) -> (r: &mut InstanceConfig)
        ensures
            r@ == (old(self)@.0, old(self)@.1, bytes),
            *final(self) == *final(r),
    {
        self.exec_stack_size = bytes;
        self
    }

    /// The configured auxiliary stack size, in bytes.
    pub fn get_aux_stack_size(&self) -> (n: u32)
        ensures
            n == self@.0,
    {
        self.aux_stack_size
    }

    /// The configured app heap size, in bytes.
    pub fn get_heap_size(&self) -> (n: u32)
        ensures
            n == self@.1,
    {
        self.heap_size
    }

    /// The configured execution-stack size, in bytes.
    pub fn get_exec_stack_size(&self) -> (n: u32)
        ensures
            n == self@.2,
    {
        self.exec_stack_size
    }
}

/// The default sizes: a 64 KiB auxiliary stack, no app heap, and an 8 MiB
/// execution stack.
pub proof fn lemma_default_sizes()
    ensures
        DEFAULT_AUX_STACK_SIZE == 64 * 1024,
        DEFAULT_HEAP_SIZE == 0,
        DEFAULT_EXEC_STACK_SIZE == 8 * 1024 * 1024,
{
}

} // verus!
