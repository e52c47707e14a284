//! The patch strategy for 32-bit ARM.
//!
//! Here the patch needs no trampoline: the start of the target is replaced with
//! a load of the replacement's address from a literal that follows, and a
//! branch to it. The lowest bit of a function address tells the instruction set:
//! set for Thumb, clear for A32.
use crate::injector_core::common::{
    check_function_size, extend_le_u32, le_bytes_u32, size_verdict, FuncPtrInternal,
    FunctionSize, PatchError, PatchGuard, PatchGuardView, PatchPlan,
};
use vstd::prelude::*;

verus! {

/// The bytes that a patch overwrites at the start of the target.
pub const PATCH_SIZE: usize = 12;

/// `ldr r7, [pc, #0]` and `bx r7` in Thumb, as one little-endian word.
pub const THUMB_LOAD_AND_BRANCH: u32 = 0x47384F00;

/// `ldr r9, [pc, #-0]` in A32: loads the word two instructions further on.
pub const A32_LOAD: u32 = 0xE51F9000;

/// `bx r9` in A32.
pub const A32_BRANCH: u32 = 0xE12FFF19;

/// Whether the function at `src` is Thumb code.
pub open spec fn is_thumb(src: int) -> bool {
    src % 2 == 1
}

/// Where the code of the function at `src` starts: the address without the
/// Thumb bit.
pub open spec fn code_address(src: int) -> int {
    if is_thumb(src) {
        src - 1
    } else {
        src
    }
}

/// The bytes written over the function at `src` to send it to `target`.
///
/// A32: the load, the branch, and the target as the literal. Thumb: load and
/// branch in one word, then the literal, then a word of padding. The literal
/// has to sit on a word boundary for the load to find it, so where Thumb code
/// starts on a half-word boundary a `NOP` (`C0 46`) goes in front and takes the
/// place of the last half of the padding.
pub open spec fn redirect_patch(src: int, target: int) -> Seq<u8> {
    if !is_thumb(src) {
        le_bytes_u32(A32_LOAD as int) + le_bytes_u32(A32_BRANCH as int) + le_bytes_u32(target)
    } else if code_address(src) % 4 == 0 {
        le_bytes_u32(THUMB_LOAD_AND_BRANCH as int) + le_bytes_u32(target) + le_bytes_u32(0)
    } else {
        seq![0xC0u8, 0x46u8] + le_bytes_u32(THUMB_LOAD_AND_BRANCH as int) + le_bytes_u32(target)
            + seq![0x00u8, 0x00u8]
    }
}

/// Whether `address` can be the address of a function: Thumb code sits on any
/// half-word, which the Thumb bit leaves open, and A32 code on a word
/// boundary.
pub open spec fn is_code_address(address: int) -> bool {
    is_thumb(address) || address % 4 == 0
}

/// Whether the function at `src`, of the given size, can be patched to run
/// `target`, and if not, why. The size is judged first, then the addresses.
pub open spec fn patch_verdict(size: FunctionSize, src: usize, target: usize) -> Result<
    (),
    PatchError,
> {
    if size_verdict(size, PATCH_SIZE) is Err {
        size_verdict(size, PATCH_SIZE)
    } else if !is_code_address(src as int) {
        Err(PatchError::MisalignedAddress { address: src })
    } else if !is_code_address(target as int) {
        Err(PatchError::MisalignedAddress { address: target })
    } else {
        Ok(())
    }
}

/// The patch strategy for 32-bit ARM.
pub struct PatchArm;

impl PatchArm {
    /// Where the code of the function at `src` starts, which is where its bytes
    /// are read and the patch is written.
    pub fn patch_address(src: &FuncPtrInternal) -> (address: usize)
        ensures
            address == code_address(src@ as int),
    {
        let src_addr = src.as_ptr();
        if src_addr % 2 != 0 {
            src_addr - 1
        } else {
            src_addr
        }
    }

    /// Plans the patch that makes the function at `src` run `target` instead.
    ///
    /// `function_size` is what the platform reports of the function, and
    /// `original_bytes` are the [`PATCH_SIZE`] bytes at the start of its code,
    /// that is at `src` without its Thumb bit. Both addresses are those of a
    /// 32-bit machine. A function of unknown or insufficient size is refused,
    /// and so is A32 code that does not start on a word boundary, be it the
    /// function or its replacement.
    pub fn replace_function_with_other_function(
        src: FuncPtrInternal,
        target: FuncPtrInternal,
        function_size: FunctionSize,
        original_bytes: Vec<u8>,
    ) -> (plan: Result<PatchPlan, PatchError>)
        requires
            src@ <= u32::MAX,
            target@ <= u32::MAX,
            original_bytes@.len() == PATCH_SIZE,
            src@ + PATCH_SIZE <= usize::MAX,
        ensures
            plan is Ok <==> patch_verdict(function_size, src@, target@) is Ok,
            plan matches Err(e) ==> Err::<(), PatchError>(e) == patch_verdict(
                function_size,
                src@,
                target@,
            ),
            plan matches Ok(p) ==> {
                &&& p.jit_code@ == Seq::<u8>::empty()
                &&& p.patch@ == redirect_patch(src@ as int, target@ as int)
                &&& p.patch@.len() == PATCH_SIZE
                &&& p.guard@ == (PatchGuardView {
                    func_ptr: code_address(src@ as int) as usize,
                    original_bytes: original_bytes@,
                    patch_size: PATCH_SIZE,
                    jit_memory: 0,
                    jit_size: 0,
                    armed: true,
                })
            },
    {
        match check_function_size(function_size, PATCH_SIZE) {
            Err(e) => {
                return Err(e);
            },
            Ok(_) => {},
        }
        let src_addr = src.as_ptr();
        let target_addr = target.as_ptr();
        let target_word: u32 = target_addr as u32;
        let is_src_thumb = src_addr % 2 != 0;
        let src_ptr: usize = Self::patch_address(&src);
        if !is_src_thumb && src_ptr % 4 != 0 {
            return Err(PatchError::MisalignedAddress { address: src_addr });
        }
        if target_addr % 2 == 0 && target_addr % 4 != 0 {
            return Err(PatchError::MisalignedAddress { address: target_addr });
        }
        let mut patch: Vec<u8> = Vec::with_capacity(PATCH_SIZE);
        if !is_src_thumb {
            extend_le_u32(&mut patch, A32_LOAD);
            extend_le_u32(&mut patch, A32_BRANCH);
            // .word target
            extend_le_u32(&mut patch, target_word);
        } else if src_ptr % 4 == 0 {
            extend_le_u32(&mut patch, THUMB_LOAD_AND_BRANCH);
            // .word target
            extend_le_u32(&mut patch, target_word);
            // .word anything (unused)
            extend_le_u32(&mut patch, 0x00000000);
        } else {
            // In thumb mode, if the source is not aligned on 32 bit, add a NOP to align
            // it, so that the target address is also aligned on 32 bit. Without it the
            // load would pick up the bx instruction in place of the target.
            patch.push(0xC0);
            patch.push(0x46);
            extend_le_u32(&mut patch, THUMB_LOAD_AND_BRANCH);
            extend_le_u32(&mut patch, target_word);
            patch.push(0x00);
            patch.push(0x00);
        }
        assert(patch@ =~= redirect_patch(src@ as int, target@ as int));

        // No JIT memory needed for ARM
        let guard = PatchGuard::new(src_ptr, original_bytes, PATCH_SIZE, 0, 0);
        Ok(PatchPlan { jit_code: Vec::new(), patch, guard })
    }

    /// Plans the patch that makes the function at `src` return `value` at
    /// once, by sending it to one of two functions that do nothing else:
    /// `return_true` where `value` is set, `return_false` where it is not.
    pub fn replace_function_return_boolean(
        src: FuncPtrInternal,
        value: bool,
        return_true: FuncPtrInternal,
        return_false: FuncPtrInternal,
        function_size: FunctionSize,
        original_bytes: Vec<u8>,
    ) -> (plan: Result<PatchPlan, PatchError>)
        requires
            src@ <= u32::MAX,
            return_true@ <= u32::MAX,
            return_false@ <= u32::MAX,
            original_bytes@.len() == PATCH_SIZE,
            src@ + PATCH_SIZE <= usize::MAX,
        ensures
            plan is Ok <==> patch_verdict(
                function_size,
                src@,
                if value {
                    return_true@
                } else {
                    return_false@
                },
            ) is Ok,
            plan matches Err(e) ==> Err::<(), PatchError>(e) == patch_verdict(
                function_size,
                src@,
                if value {
                    return_true@
                } else {
                    return_false@
                },
            ),
            plan matches Ok(p) ==> {
                &&& p.jit_code@ == Seq::<u8>::empty()
                &&& p.patch@ == redirect_patch(
                    src@ as int,
                    if value {
                        return_true@ as int
                    } else {
                        return_false@ as int
                    },
                )
                &&& p.guard@ == (PatchGuardView {
                    func_ptr: code_address(src@ as int) as usize,
                    original_bytes: original_bytes@,
                    patch_size: PATCH_SIZE,
                    jit_memory: 0,
                    jit_size: 0,
                    armed: true,
                })
            },
    {
        Self::replace_function_with_other_function(
            src,
            if value {
                return_true
            } else {
                return_false
            },
            function_size,
            original_bytes,
        )
    }
}

/// The function that a patched function is sent to in order to return `true`.
pub fn return_true() -> (value: bool)
    ensures
        value,
{
    true
}

/// The function that a patched function is sent to in order to return `false`.
pub fn return_false() -> (value: bool)
    ensures
        !value,
{
    false
}

} // verus!
