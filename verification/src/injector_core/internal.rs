//! The builder that stands between a function that was named for patching and
//! the strategy that patches it.
use crate::injector_core::common::{
    FuncPtrInternal, FunctionSize, PatchError, PatchGuardView, PatchPlan,
};
use crate::injector_core::patch_trait::PatchTrait;
use vstd::prelude::*;

verus! {

/// A function that is about to be patched.
pub struct WhenCalled {
    func_ptr: FuncPtrInternal,
}

impl View for WhenCalled {
    type V = usize;

    /// The address of the function.
    closed spec fn view(&self) -> usize {
        self.func_ptr@
    }
}

impl WhenCalled {
    pub fn new(func: FuncPtrInternal) -> (builder: Self)
        ensures
            builder@ == func@,
    {
        Self { func_ptr: func }
    }

    /// Plans, by the strategy `P`, the patch that makes the function branch to
    /// a trampoline at `jit_memory`, which jumps on to `target`.
    pub fn will_execute_guard<P: PatchTrait>(
        self,
        target: FuncPtrInternal,
        function_size: FunctionSize,
        original_bytes: Vec<u8>,
        jit_memory: usize,
    ) -> (plan: Result<PatchPlan, PatchError>)
        requires
            original_bytes@.len() == P::patch_len(),
            self@ + P::patch_len() <= usize::MAX,
        ensures
            plan is Ok <==> P::verdict(function_size, self@, target@, jit_memory) is Ok,
            plan matches Err(e) ==> Err::<(), PatchError>(e) == P::verdict(
                function_size,
                self@,
                target@,
                jit_memory,
            ),
            plan matches Ok(p) ==> {
                &&& p.jit_code@.len() <= P::will_execute_jit_len()
                &&& p.patch@.len() == P::patch_len()
                &&& p.guard@ == (PatchGuardView {
                    func_ptr: self@,
                    original_bytes: original_bytes@,
                    patch_size: P::patch_len(),
                    jit_memory,
                    jit_size: P::will_execute_jit_len(),
                    armed: true,
                })
            },
    {
        P::replace_function_with_other_function(
            self.func_ptr,
            target,
            function_size,
            original_bytes,
            jit_memory,
        )
    }

    /// Plans, by the strategy `P`, the patch that makes the function branch to
    /// a trampoline at `jit_memory`, which returns the specified boolean.
    pub fn will_return_boolean_guard<P: PatchTrait>(
        self,
        value: bool,
        function_size: FunctionSize,
        original_bytes: Vec<u8>,
        jit_memory: usize,
    ) -> (plan: Result<PatchPlan, PatchError>)
        requires
            original_bytes@.len() == P::patch_len(),
            self@ + P::patch_len() <= usize::MAX,
        ensures
            plan is Ok <==> P::verdict(function_size, self@, 0, jit_memory) is Ok,
            plan matches Err(e) ==> Err::<(), PatchError>(e) == P::verdict(
                function_size,
                self@,
                0,
                jit_memory,
            ),
            plan matches Ok(p) ==> {
                &&& p.jit_code@.len() <= P::will_return_boolean_jit_len()
                &&& p.patch@.len() == P::patch_len()
                &&& p.guard@ == (PatchGuardView {
                    func_ptr: self@,
                    original_bytes: original_bytes@,
                    patch_size: P::patch_len(),
                    jit_memory,
                    jit_size: P::will_return_boolean_jit_len(),
                    armed: true,
                })
            },
    {
        P::replace_function_return_boolean(
            self.func_ptr,
            value,
            function_size,
            original_bytes,
            jit_memory,
        )
    }
}

} // verus!
