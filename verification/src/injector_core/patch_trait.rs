//! The interface that every patch strategy offers.
use crate::injector_core::common::{
    FuncPtrInternal, FunctionSize, PatchError, PatchGuardView, PatchPlan,
};
use vstd::prelude::*;

verus! {

/// A patch strategy: how a function of one architecture is sent to a
/// trampoline, and what the trampoline holds.
///
/// A strategy plans two operations, which differ in the trampoline only. Both
/// take what is known of the function (`function_size`, and `original_bytes`,
/// its first [`patch_size`](PatchTrait::patch_size) bytes) and the address of
/// the block that was mapped for the trampoline. Both return everything that is
/// to be written, together with the guard that undoes it, or the reason why
/// nothing may be written.
pub trait PatchTrait {
    /// The number of bytes that a patch overwrites at the start of a function.
    spec fn patch_len() -> usize;

    /// The size of the trampoline that leads to a replacement function.
    spec fn will_execute_jit_len() -> usize;

    /// The size of the trampoline that returns a boolean.
    spec fn will_return_boolean_jit_len() -> usize;

    /// Whether the function at `src`, of the given size, can be patched to
    /// reach a trampoline at `jit_memory` that leads on to `target` (0 where the
    /// trampoline leads nowhere), and if not, why.
    spec fn verdict(
        size: FunctionSize,
        src: usize,
        target: usize,
        jit_memory: usize,
    ) -> Result<(), PatchError>;

    /// The number of bytes to save from the start of a function before it is
    /// patched.
    fn patch_size() -> (size: usize)
        ensures
            size == Self::patch_len(),
    ;

    /// The size of the block to map for the trampoline that leads to a
    /// replacement function.
    fn will_execute_jit_size() -> (size: usize)
        ensures
            size == Self::will_execute_jit_len(),
    ;

    /// The size of the block to map for the trampoline that returns a boolean.
    fn will_return_boolean_jit_size() -> (size: usize)
        ensures
            size == Self::will_return_boolean_jit_len(),
    ;

    /// Plans the patch that makes the function at `src` run `target` instead.
    fn replace_function_with_other_function(
        src: FuncPtrInternal,
        target: FuncPtrInternal,
        function_size: FunctionSize,
        original_bytes: Vec<u8>,
        jit_memory: usize,
    ) -> (plan: Result<PatchPlan, PatchError>)
        requires
            original_bytes@.len() == Self::patch_len(),
            src@ + Self::patch_len() <= usize::MAX,
        ensures
            plan is Ok <==> Self::verdict(function_size, src@, target@, jit_memory) is Ok,
            plan matches Err(e) ==> Err::<(), PatchError>(e) == Self::verdict(
                function_size,
                src@,
                target@,
                jit_memory,
            ),
            plan matches Ok(p) ==> {
                &&& p.jit_code@.len() <= Self::will_execute_jit_len()
                &&& p.patch@.len() == Self::patch_len()
                &&& p.guard@ == (PatchGuardView {
                    func_ptr: src@,
                    original_bytes: original_bytes@,
                    patch_size: Self::patch_len(),
                    jit_memory,
                    jit_size: Self::will_execute_jit_len(),
                    armed: true,
                })
            },
    ;

    /// Plans the patch that makes the function at `src` return `value` at
    /// once.
    fn replace_function_return_boolean(
        src: FuncPtrInternal,
        value: bool,
        function_size: FunctionSize,
        original_bytes: Vec<u8>,
        jit_memory: usize,
    ) -> (plan: Result<PatchPlan, PatchError>)
        requires
            original_bytes@.len() == Self::patch_len(),
            src@ + Self::patch_len() <= usize::MAX,
        ensures
            plan is Ok <==> Self::verdict(function_size, src@, 0, jit_memory) is Ok,
            plan matches Err(e) ==> Err::<(), PatchError>(e) == Self::verdict(
                function_size,
                src@,
                0,
                jit_memory,
            ),
            plan matches Ok(p) ==> {
                &&& p.jit_code@.len() <= Self::will_return_boolean_jit_len()
                &&& p.patch@.len() == Self::patch_len()
                &&& p.guard@ == (PatchGuardView {
                    func_ptr: src@,
                    original_bytes: original_bytes@,
                    patch_size: Self::patch_len(),
                    jit_memory,
                    jit_size: Self::will_return_boolean_jit_len(),
                    armed: true,
                })
            },
    ;
}

} // verus!
