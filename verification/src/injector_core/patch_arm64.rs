//! The patch strategy for AArch64.
//!
//! The first three instructions of the target are replaced with a `B` into a
//! trampoline block and two `NOP`s. The trampoline either loads the address of
//! the replacement into `x9` and branches to it, or puts a boolean into `x0` and
//! returns.
use crate::injector_core::arm64_codegenerator::{
    absolute_jump_words, b_word, emit_absolute_jump, emit_movz, emit_ret_x30, move_wide_word,
    opc_movz, ret_word,
};
use crate::injector_core::common::{
    bytes_to_vec, check_function_size, extend_le_u32, le_bytes_of_words, le_bytes_u32,
    lemma_le_bytes, size_verdict, FuncPtrInternal, FunctionSize, PatchError, PatchGuard,
    PatchGuardView, PatchPlan,
};
use crate::injector_core::jit_memory::{
    in_window, max_range_of, Architecture, OperatingSystem,
};
use crate::injector_core::patch_trait::PatchTrait;
use crate::injector_core::utils::{bits_value, bool_array_to_u32, u8_to_bits};
use vstd::arithmetic::power2::{lemma2_to64, pow2};
use vstd::prelude::*;
use vstd::slice::slice_to_vec;

verus! {

/// The bytes that a patch overwrites at the start of the target: three
/// instructions.
pub const PATCH_SIZE: usize = 12;

/// The size of a trampoline that jumps to a replacement function.
pub const JIT_SIZE_WILL_EXECUTE: usize = 20;

/// The size of a trampoline that returns a boolean.
pub const JIT_SIZE_WILL_RETURN_BOOLEAN: usize = 8;

/// The `NOP` instruction.
pub const NOP: u32 = 0xd503201f;

/// The trampoline that jumps to `target`, whatever the distance: the jump by
/// absolute address through `x9`.
pub open spec fn absolute_jump_code(target: nat) -> Seq<u8> {
    le_bytes_of_words(absolute_jump_words(target, 9))
}

/// The trampoline that returns `value`: `movz x0, #value` and `ret`.
pub open spec fn return_boolean_code(value: bool) -> Seq<u8> {
    le_bytes_u32(move_wide_word(opc_movz(), true, 0, if value { 1 } else { 0 }, 0) as int)
        + le_bytes_u32(ret_word(30) as int)
}

/// The bytes written over the target at `func` to send it to the trampoline at
/// `jit`: a `B` across the distance between them and two `NOP`s.
pub open spec fn branch_patch(func: int, jit: int) -> Seq<u8> {
    le_bytes_u32(b_word(jit - func)) + le_bytes_u32(NOP as int) + le_bytes_u32(NOP as int)
}

/// Whether a `B` at `func` reaches `jit`: the offset in words fits the signed
/// 26-bit immediate.
pub open spec fn within_branch_range(func: int, jit: int) -> bool {
    -0x200_0000 <= (jit - func) / 4 <= 0x1ff_ffff
}

/// Whether the function at `func`, of the given size, can be patched to branch
/// to a trampoline at `jit` that leads on to `target` (0 where the trampoline
/// leads nowhere), and if not, why. The size is judged first, then the
/// alignment of the addresses, then the distance to the trampoline.
pub open spec fn patch_verdict(
    size: FunctionSize,
    func: usize,
    target: usize,
    jit: usize,
) -> Result<(), PatchError> {
    if size_verdict(size, PATCH_SIZE) is Err {
        size_verdict(size, PATCH_SIZE)
    } else if func % 4 != 0 {
        Err(PatchError::MisalignedAddress { address: func })
    } else if target % 4 != 0 {
        Err(PatchError::MisalignedAddress { address: target })
    } else if jit % 4 != 0 {
        Err(PatchError::MisalignedAddress { address: jit })
    } else if !within_branch_range(func as int, jit as int) {
        Err(PatchError::OutOfBranchRange { offset: ((jit - func) / 4) as i128 })
    } else {
        Ok(())
    }
}

/// The allocator and the strategy agree: a block that a search accepts with
/// the range of this architecture is within branch range of the function, on
/// every operating system. So of two aligned addresses, no patch is refused
/// for the distance between them.
pub proof fn lemma_window_is_within_branch_range(os: OperatingSystem, func: usize, jit: usize)
    requires
        func % 4 == 0,
        jit % 4 == 0,
        max_range_of(Architecture::Aarch64, os) matches Some(range) && in_window(
            func as int,
            range as int,
            jit as int,
        ),
    ensures
        within_branch_range(func as int, jit as int),
{
}

/// Writes `instruction` into `buf` at `cursor`, least significant byte first,
/// and moves the cursor past it. The four bytes have to lie within the buffer.
pub fn write_instruction(buf: &mut [u8], cursor: &mut usize, instruction: u32)
    requires
        *old(cursor) + 4 <= old(buf)@.len(),
    ensures
        *final(cursor) == *old(cursor) + 4,
        final(buf)@ == old(buf)@.subrange(0, *old(cursor) as int) + le_bytes_u32(
            instruction as int,
        ) + old(buf)@.subrange(*old(cursor) + 4, old(buf)@.len() as int),
{
    let at: usize = *cursor;
    let b0: u8 = (instruction & 0xff) as u8;
    let b1: u8 = ((instruction >> 8) & 0xff) as u8;
    let b2: u8 = ((instruction >> 16) & 0xff) as u8;
    let b3: u8 = ((instruction >> 24) & 0xff) as u8;
    proof {
        lemma_le_bytes(instruction, b0, b1, b2, b3);
    }
    buf[at] = b0;
    buf[at + 1] = b1;
    buf[at + 2] = b2;
    buf[at + 3] = b3;
    *cursor = at + 4;
    assert(buf@ =~= old(buf)@.subrange(0, at as int) + le_bytes_u32(instruction as int) + old(
        buf,
    )@.subrange(at + 4, old(buf)@.len() as int));
}

/// Appends `instruction` to `asm_code`, least significant byte first.
pub fn append_instruction(asm_code: &mut Vec<u8>, instruction: u32)
    ensures
        final(asm_code)@ == old(asm_code)@ + le_bytes_u32(instruction as int),
{
    extend_le_u32(asm_code, instruction);
}

/// Generates the 20-byte JIT code block that loads the absolute address
/// `target` into register X9 (a MOVZ and three MOVK instructions) and then
/// branches to X9. This avoids branch-range limitations.
pub fn generate_will_execute_jit_code_abs(target: u64) -> (asm_code: Vec<u8>)
    ensures
        asm_code@ == absolute_jump_code(target as nat),
        asm_code@.len() == JIT_SIZE_WILL_EXECUTE,
{
    // x9
    let words = emit_absolute_jump(target, 9);

    let mut asm_code: Vec<u8> = Vec::with_capacity(JIT_SIZE_WILL_EXECUTE);
    let mut i: usize = 0;
    while i < 5
        invariant
            i <= 5,
            words@.len() == 5,
            asm_code@ == le_bytes_of_words(words@.take(i as int)),
            asm_code@.len() == 4 * i,
        decreases 5 - i,
    {
        assert(words@.take(i + 1).drop_last() =~= words@.take(i as int));
        append_instruction(&mut asm_code, words[i]);
        i += 1;
    }
    assert(words@.take(5) =~= words@);
    asm_code
}

/// Generates the 8-byte JIT code block that returns the specified boolean.
/// The code moves the immediate into x0 and then returns.
pub fn generate_will_return_boolean_jit_code(value: bool) -> (asm_code: [u8; 8])
    ensures
        asm_code@ == return_boolean_code(value),
{
    let mut asm_code = [0u8; 8];  // 2 instructions = 2 * 4
    let mut cursor: usize = 0;

    let mut value_bits = [false; 16];
    value_bits[0] = value;
    proof {
        lemma2_to64();
        assert(pow2(5) == 32 && pow2(2) == 4);
        lemma_single_bit(value_bits@, value);
    }
    let hw = u8_to_bits::<2>(0);
    let register_name = u8_to_bits::<5>(0);

    let movz = emit_movz(value_bits, true, hw, register_name);
    let ret = emit_ret_x30();

    write_instruction(&mut asm_code, &mut cursor, bool_array_to_u32(movz));
    write_instruction(&mut asm_code, &mut cursor, bool_array_to_u32(ret));
    assert(asm_code@ =~= return_boolean_code(value));
    asm_code
}

/// Sixteen bits of which at most the lowest is set denote 0 or 1.
proof fn lemma_single_bit(bits: Seq<bool>, value: bool)
    requires
        bits.len() == 16,
        bits[0] == value,
        forall|i: int| 1 <= i < 16 ==> !bits[i],
    ensures
        bits_value(bits) == if value { 1nat } else { 0nat },
{
    let n: nat = if value { 1 } else { 0 };
    lemma2_to64();
    assert forall|i: int| 0 <= i < 16 implies bits[i] == crate::injector_core::utils::bit_of(
        n,
        i as nat,
    ) by {
        vstd::arithmetic::power2::lemma_pow2_pos(i as nat);
        if i > 0 {
            vstd::arithmetic::power2::lemma_pow2_strictly_increases(0, i as nat);
            vstd::arithmetic::div_mod::lemma_basic_div(n as int, pow2(i as nat) as int);
        }
    }
    crate::injector_core::utils::lemma_bits_value_of_number(bits, n);
}

/// Builds the patch that sends the function at `src` to the trampoline at
/// `jit_memory`, and the guard that holds `original_bytes` to undo it.
///
/// Both addresses have to sit on an instruction boundary, and the trampoline
/// has to be within branch range of the function: the allocator is expected to
/// find memory there, so a failure here means that the two do not agree.
pub fn apply_branch_patch(
    src: &FuncPtrInternal,
    jit_memory: usize,
    jit_size: usize,
    original_bytes: &[u8],
) -> (applied: Result<(Vec<u8>, PatchGuard), PatchError>)
    requires
        original_bytes@.len() == PATCH_SIZE,
        src@ + PATCH_SIZE <= usize::MAX,
    ensures
        applied is Ok <==> patch_verdict(FunctionSize::Unchecked, src@, 0, jit_memory) is Ok,
        applied matches Err(e) ==> Err::<(), PatchError>(e) == patch_verdict(
            FunctionSize::Unchecked,
            src@,
            0,
            jit_memory,
        ),
        applied matches Ok(done) ==> {
            &&& done.0@ == branch_patch(src@ as int, jit_memory as int)
            &&& done.0@.len() == PATCH_SIZE
            &&& done.1@ == (PatchGuardView {
                func_ptr: src@,
                original_bytes: original_bytes@,
                patch_size: PATCH_SIZE,
                jit_memory,
                jit_size,
                armed: true,
            })
        },
{
    let func_addr = src.as_ptr();
    let jit_addr = jit_memory;
    if func_addr % 4 != 0 {
        return Err(PatchError::MisalignedAddress { address: func_addr });
    }
    if jit_addr % 4 != 0 {
        return Err(PatchError::MisalignedAddress { address: jit_addr });
    }
    let distance: i128 = jit_addr as i128 - func_addr as i128;
    let offset: i128 = distance / 4;
    assert(offset == (jit_addr - func_addr) / 4) by {
        assert((jit_addr - func_addr) % 4 == 0);
    }

    // ±32M instructions
    if offset < -0x200_0000 || offset > 0x1ff_ffff {
        return Err(PatchError::OutOfBranchRange { offset });
    }
    let branch_instr: u32 = 0x14000000 | ((#[verifier::truncate] (offset as u32)) & 0x03FF_FFFF);
    assert(branch_instr == 0x1400_0000 + offset % 0x400_0000) by (bit_vector)
        requires
            branch_instr == 0x14000000u32 | ((offset as u32) & 0x03FF_FFFF),
    ;

    let mut patch: Vec<u8> = Vec::with_capacity(PATCH_SIZE);
    append_instruction(&mut patch, branch_instr);
    append_instruction(&mut patch, NOP);
    append_instruction(&mut patch, NOP);

    let guard = PatchGuard::new(
        func_addr,
        slice_to_vec(original_bytes),
        PATCH_SIZE,
        jit_memory,
        jit_size,
    );
    Ok((patch, guard))
}

/// The AArch64 strategy.
pub struct PatchArm64;

impl PatchTrait for PatchArm64 {
    open spec fn patch_len() -> usize {
        PATCH_SIZE
    }

    open spec fn will_execute_jit_len() -> usize {
        JIT_SIZE_WILL_EXECUTE
    }

    open spec fn will_return_boolean_jit_len() -> usize {
        JIT_SIZE_WILL_RETURN_BOOLEAN
    }

    open spec fn verdict(
        size: FunctionSize,
        src: usize,
        target: usize,
        jit_memory: usize,
    ) -> Result<(), PatchError> {
        patch_verdict(size, src, target, jit_memory)
    }

    fn patch_size() -> (size: usize) {
        PATCH_SIZE
    }

    fn will_execute_jit_size() -> (size: usize) {
        JIT_SIZE_WILL_EXECUTE
    }

    fn will_return_boolean_jit_size() -> (size: usize) {
        JIT_SIZE_WILL_RETURN_BOOLEAN
    }

    /// Plans the patch that makes the function at `src` run `target` instead.
    ///
    /// `function_size` is what the platform reports of the function,
    /// `original_bytes` are its first [`PATCH_SIZE`] bytes, and `jit_memory` is
    /// a block of [`JIT_SIZE_WILL_EXECUTE`] bytes for the trampoline. A function
    /// of unknown or insufficient size is refused, and so are a misaligned
    /// address and a trampoline out of branch range; in each case nothing is
    /// to be written.
    fn replace_function_with_other_function(
        src: FuncPtrInternal,
        target: FuncPtrInternal,
        function_size: FunctionSize,
        original_bytes: Vec<u8>,
        jit_memory: usize,
    ) -> (plan: Result<PatchPlan, PatchError>)
        ensures
            plan matches Ok(p) ==> {
                &&& p.jit_code@ == absolute_jump_code(target@ as nat)
                &&& p.patch@ == branch_patch(src@ as int, jit_memory as int)
            },
    {
        match check_function_size(function_size, PATCH_SIZE) {
            Err(e) => {
                return Err(e);
            },
            Ok(_) => {},
        }
        let src_addr = src.as_ptr();
        let target_addr = target.as_ptr();
        if src_addr % 4 != 0 {
            return Err(PatchError::MisalignedAddress { address: src_addr });
        }
        if target_addr % 4 != 0 {
            return Err(PatchError::MisalignedAddress { address: target_addr });
        }
        let jit_code = generate_will_execute_jit_code_abs(target_addr as u64);
        match apply_branch_patch(
            &src,
            jit_memory,
            JIT_SIZE_WILL_EXECUTE,
            original_bytes.as_slice(),
        ) {
            Ok((patch, guard)) => Ok(PatchPlan { jit_code, patch, guard }),
            Err(e) => Err(e),
        }
    }

    /// Plans the patch that makes the function at `src` return `value` at
    /// once.
    ///
    /// The inputs are those of the redirection, with a trampoline block of
    /// [`JIT_SIZE_WILL_RETURN_BOOLEAN`] bytes, and so are the refusals.
    fn replace_function_return_boolean(
        src: FuncPtrInternal,
        value: bool,
        function_size: FunctionSize,
        original_bytes: Vec<u8>,
        jit_memory: usize,
    ) -> (plan: Result<PatchPlan, PatchError>)
        ensures
            plan matches Ok(p) ==> {
                &&& p.jit_code@ == return_boolean_code(value)
                &&& p.patch@ == branch_patch(src@ as int, jit_memory as int)
            },
    {
        match check_function_size(function_size, PATCH_SIZE) {
            Err(e) => {
                return Err(e);
            },
            Ok(_) => {},
        }
        let code = generate_will_return_boolean_jit_code(value);
        let jit_code = bytes_to_vec(&code);
        match apply_branch_patch(
            &src,
            jit_memory,
            JIT_SIZE_WILL_RETURN_BOOLEAN,
            original_bytes.as_slice(),
        ) {
            Ok((patch, guard)) => Ok(PatchPlan { jit_code, patch, guard }),
            Err(e) => Err(e),
        }
    }
}

} // verus!
