//! The patch strategy for x86-64.
//!
//! The first five bytes of the target are replaced with a `jmp rel32` into a
//! trampoline block, and the trampoline either jumps on to the replacement or
//! loads a boolean into `rax` and returns. The jump out of the trampoline is
//! again `jmp rel32` where the distance fits 32 bits, and `mov rax, imm64; jmp
//! rax` otherwise.
use crate::injector_core::common::{
    bytes_to_vec, check_function_size, extend_le_u32, extend_le_u64, le_bytes_u32, le_bytes_u64,
    size_verdict, FuncPtrInternal, FunctionSize, PatchError, PatchGuard, PatchGuardView,
    PatchPlan,
};
use crate::injector_core::jit_memory::{
    in_window, max_range_of, Architecture, OperatingSystem,
};
use crate::injector_core::patch_trait::PatchTrait;
use vstd::prelude::*;

verus! {

/// Opcode of `jmp rel32`.
pub const JMP_REL_OPCODE: u8 = 0xE9;

/// The bytes that a patch overwrites at the start of the target: one `jmp
/// rel32`.
pub const PATCH_SIZE: usize = 5;

/// The size of a trampoline that jumps to a replacement function.
pub const JIT_SIZE_WILL_EXECUTE: usize = 12;

/// The size of a trampoline that returns a boolean.
pub const JIT_SIZE_WILL_RETURN_BOOLEAN: usize = 8;

/// The displacement that `jmp rel32` at `ori_func` needs to reach
/// `target_func`: it counts from the end of the five-byte instruction.
pub open spec fn rel32_displacement(ori_func: int, target_func: int) -> int {
    target_func - (ori_func + 5)
}

/// Whether that displacement fits the signed 32-bit immediate.
pub open spec fn rel32_reaches(ori_func: int, target_func: int) -> bool {
    -0x8000_0000 <= rel32_displacement(ori_func, target_func) <= 0x7fff_ffff
}

/// The jump from `ori_func` to `target_func`: `E9` and the displacement in
/// two's complement where it fits, and otherwise `48 B8` with the absolute
/// address, followed by `FF E0`.
pub open spec fn jump_code(ori_func: int, target_func: int) -> Seq<u8> {
    if rel32_reaches(ori_func, target_func) {
        seq![0xE9u8] + le_bytes_u32(rel32_displacement(ori_func, target_func) % 0x1_0000_0000)
    } else {
        seq![0x48u8, 0xB8u8] + le_bytes_u64(target_func) + seq![0xFFu8, 0xE0u8]
    }
}

/// The length of that jump: 5 bytes for the relative form, 12 for the
/// absolute one.
pub open spec fn jump_size(ori_func: int, target_func: int) -> nat {
    if rel32_reaches(ori_func, target_func) {
        5
    } else {
        12
    }
}

/// Where `jmp rel32` at `ori_func` with the immediate `imm32` jumps to: the
/// immediate is a signed distance from the end of the instruction.
pub open spec fn rel32_target(ori_func: int, imm32: int) -> int {
    if imm32 < 0x8000_0000 {
        ori_func + 5 + imm32
    } else {
        ori_func + 5 + (imm32 - 0x1_0000_0000)
    }
}

/// The immediate of a relative jump encoded for a target within reach leads
/// from the jump to that target, forward or backward.
pub proof fn lemma_rel32_reaches_target(ori_func: int, target_func: int)
    requires
        rel32_reaches(ori_func, target_func),
    ensures
        rel32_target(ori_func, rel32_displacement(ori_func, target_func) % 0x1_0000_0000)
            == target_func,
{
    let displacement = rel32_displacement(ori_func, target_func);
    if displacement >= 0 {
        vstd::arithmetic::div_mod::lemma_small_mod(displacement as nat, 0x1_0000_0000);
    } else {
        vstd::arithmetic::div_mod::lemma_fundamental_div_mod_converse(
            displacement,
            0x1_0000_0000,
            -1,
            displacement + 0x1_0000_0000,
        );
    }
}

/// The trampoline that returns `value`: `mov rax, imm32` and `ret`.
pub open spec fn return_boolean_code(value: bool) -> Seq<u8> {
    seq![0x48u8, 0xC7u8, 0xC0u8, if value { 1u8 } else { 0u8 }, 0x00u8, 0x00u8, 0x00u8, 0xC3u8]
}

/// Generates a jump from `ori_func` to `target_func`.
pub fn generate_branch_to_target_function(ori_func: usize, target_func: usize) -> (branch_code:
    Vec<u8>)
    ensures
        branch_code@ == jump_code(ori_func as int, target_func as int),
        branch_code@.len() == jump_size(ori_func as int, target_func as int),
{
    let offset: i128 = target_func as i128 - (ori_func as i128 + 5);

    if offset >= -0x8000_0000 && offset <= 0x7fff_ffff {
        let mut branch_code: Vec<u8> = Vec::with_capacity(5);
        branch_code.push(JMP_REL_OPCODE);
        let displacement: u32 = #[verifier::truncate] (offset as u32);
        assert(displacement == offset % 0x1_0000_0000) by (bit_vector)
            requires
                displacement == offset as u32,
        ;
        extend_le_u32(&mut branch_code, displacement);
        assert(branch_code@ =~= jump_code(ori_func as int, target_func as int));
        branch_code
    } else {
        let mut branch_code: Vec<u8> = Vec::with_capacity(13);
        branch_code.push(0x48);
        branch_code.push(0xB8);
        extend_le_u64(&mut branch_code, target_func as u64);
        branch_code.push(0xFF);
        branch_code.push(0xE0);
        assert(branch_code@ =~= jump_code(ori_func as int, target_func as int));
        branch_code
    }
}

/// Generates the return-boolean JIT sequence.
pub fn generate_will_return_boolean_jit_code(value: bool) -> (asm_code: [u8; 8])
    ensures
        asm_code@ == return_boolean_code(value),
{
    let mut asm_code: [u8; 8] = [
        0x48,
        0xC7,
        0xC0,  // mov rax, imm32
        0x00,
        0x00,
        0x00,
        0x00,  // imm32
        0xC3,  // ret
    ];

    asm_code[3] = if value {
        1
    } else {
        0
    };
    assert(asm_code@ =~= return_boolean_code(value));
    asm_code
}

/// Whether the function at `src`, of the given size, can be patched to jump
/// to a trampoline at `jit_memory`, and if not, why. The size is judged first,
/// then the distance to the trampoline.
pub open spec fn patch_verdict(size: FunctionSize, src: usize, jit_memory: usize) -> Result<
    (),
    PatchError,
> {
    if size_verdict(size, PATCH_SIZE) is Err {
        size_verdict(size, PATCH_SIZE)
    } else if !rel32_reaches(src as int, jit_memory as int) {
        Err(
            PatchError::OutOfBranchRange {
                offset: rel32_displacement(src as int, jit_memory as int) as i128,
            },
        )
    } else {
        Ok(())
    }
}

/// The allocator and the strategy agree: a block that a search accepts with
/// the range of this architecture is within reach of the jump, on every
/// operating system. So no patch is refused for the distance to its
/// trampoline.
pub proof fn lemma_window_is_within_reach(os: OperatingSystem, src: usize, jit_memory: usize)
    requires
        max_range_of(Architecture::X86_64, os) matches Some(range) && in_window(
            src as int,
            range as int,
            jit_memory as int,
        ),
    ensures
        rel32_reaches(src as int, jit_memory as int),
{
}

/// Builds the jump that sends the function at `src` to the trampoline at
/// `jit_memory`, and the guard that holds the bytes it overwrites.
///
/// The trampoline has to be within reach of a relative jump: the allocator is
/// expected to find memory there, so a failure here means that the two do not
/// agree.
pub fn patch_and_guard(
    src: &FuncPtrInternal,
    jit_memory: usize,
    jit_size: usize,
    original_bytes: Vec<u8>,
) -> (applied: Result<(Vec<u8>, PatchGuard), PatchError>)
    requires
        original_bytes@.len() == PATCH_SIZE,
        src@ + PATCH_SIZE <= usize::MAX,
    ensures
        applied is Ok <==> patch_verdict(FunctionSize::Unchecked, src@, jit_memory) is Ok,
        applied matches Err(e) ==> Err::<(), PatchError>(e) == patch_verdict(
            FunctionSize::Unchecked,
            src@,
            jit_memory,
        ),
        applied matches Ok(done) ==> {
            &&& done.0@ == jump_code(src@ as int, jit_memory as int)
            &&& done.0@.len() == PATCH_SIZE
            &&& done.1@ == (PatchGuardView {
                func_ptr: src@,
                original_bytes: original_bytes@,
                patch_size: PATCH_SIZE,
                jit_memory,
                jit_size,
                armed: true,
            })
        },
{
    let func_addr = src.as_ptr();
    let jit_addr = jit_memory;

    let offset: i128 = jit_addr as i128 - (func_addr as i128 + 5);
    if offset < -0x8000_0000 || offset > 0x7fff_ffff {
        return Err(PatchError::OutOfBranchRange { offset });
    }
    let branch_code = generate_branch_to_target_function(func_addr, jit_addr);
    let patch_size = branch_code.len();

    let guard = PatchGuard::new(func_addr, original_bytes, patch_size, jit_memory, jit_size);
    Ok((branch_code, guard))
}

/// Patch implementation for AMD64 (x86_64) architecture.
pub struct PatchAmd64;

impl PatchTrait for PatchAmd64 {
    open spec fn patch_len() -> usize {
        PATCH_SIZE
    }

    open spec fn will_execute_jit_len() -> usize {
        JIT_SIZE_WILL_EXECUTE
    }

    open spec fn will_return_boolean_jit_len() -> usize {
        JIT_SIZE_WILL_RETURN_BOOLEAN
    }

    open spec fn verdict(
        size: FunctionSize,
        src: usize,
        target: usize,
        jit_memory: usize,
    ) -> Result<(), PatchError> {
        patch_verdict(size, src, jit_memory)
    }

    fn patch_size() -> (size: usize) {
        PATCH_SIZE
    }

    fn will_execute_jit_size() -> (size: usize) {
        JIT_SIZE_WILL_EXECUTE
    }

    fn will_return_boolean_jit_size() -> (size: usize) {
        JIT_SIZE_WILL_RETURN_BOOLEAN
    }

    /// Plans the patch that makes the function at `src` run `target` instead.
    ///
    /// `function_size` is what the platform reports of the function,
    /// `original_bytes` are its first [`PATCH_SIZE`] bytes, and `jit_memory` is
    /// a block of [`JIT_SIZE_WILL_EXECUTE`] bytes for the trampoline. A function
    /// of unknown or insufficient size is refused, and so is a trampoline out
    /// of reach; in each case nothing is to be written.
    fn replace_function_with_other_function(
        src: FuncPtrInternal,
        target: FuncPtrInternal,
        function_size: FunctionSize,
        original_bytes: Vec<u8>,
        jit_memory: usize,
    ) -> (plan: Result<PatchPlan, PatchError>)
        ensures
            plan matches Ok(p) ==> {
                &&& p.jit_code@ == jump_code(jit_memory as int, target@ as int)
                &&& p.patch@ == jump_code(src@ as int, jit_memory as int)
            },
    {
        match check_function_size(function_size, PATCH_SIZE) {
            Err(e) => {
                return Err(e);
            },
            Ok(_) => {},
        }
        let target_addr = target.as_ptr();
        let jit_addr = jit_memory;

        let jit_code = generate_branch_to_target_function(jit_addr, target_addr);
        match patch_and_guard(&src, jit_memory, JIT_SIZE_WILL_EXECUTE, original_bytes) {
            Ok((patch, guard)) => Ok(PatchPlan { jit_code, patch, guard }),
            Err(e) => Err(e),
        }
    }

    /// Plans the patch that makes the function at `src` return `value` at
    /// once. The inputs are those of the redirection, with a trampoline block of
    /// [`JIT_SIZE_WILL_RETURN_BOOLEAN`] bytes, and so are the refusals.
    fn replace_function_return_boolean(
        src: FuncPtrInternal,
        value: bool,
        function_size: FunctionSize,
        original_bytes: Vec<u8>,
        jit_memory: usize,
    ) -> (plan: Result<PatchPlan, PatchError>)
        ensures
            plan matches Ok(p) ==> {
                &&& p.jit_code@ == return_boolean_code(value)
                &&& p.patch@ == jump_code(src@ as int, jit_memory as int)
            },
    {
        match check_function_size(function_size, PATCH_SIZE) {
            Err(e) => {
                return Err(e);
            },
            Ok(_) => {},
        }
        let code = generate_will_return_boolean_jit_code(value);
        let jit_code = bytes_to_vec(&code);
        match patch_and_guard(&src, jit_memory, JIT_SIZE_WILL_RETURN_BOOLEAN, original_bytes) {
            Ok((patch, guard)) => Ok(PatchPlan { jit_code, patch, guard }),
            Err(e) => Err(e),
        }
    }
}

} // verus!
