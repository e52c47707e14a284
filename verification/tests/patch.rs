use injectorpp::injector_core::common::{
    check_function_size, page_start, FuncPtrInternal, FunctionSize, PatchError,
};
use injectorpp::injector_core::internal::WhenCalled;
use injectorpp::injector_core::patch_amd64::{
    generate_branch_to_target_function, patch_and_guard, PatchAmd64,
};
use injectorpp::injector_core::patch_arm::{return_false, return_true, PatchArm};
use injectorpp::injector_core::patch_arm64::{
    append_instruction, apply_branch_patch, generate_will_execute_jit_code_abs,
    generate_will_return_boolean_jit_code, write_instruction, PatchArm64,
};
use injectorpp::injector_core::patch_trait::PatchTrait;

fn ptr(address: usize) -> FuncPtrInternal {
    FuncPtrInternal::new(address).unwrap()
}

fn original() -> Vec<u8> {
    vec![1, 2, 3, 4, 5, 6, 7, 8, 9, 10, 11, 12]
}

#[test]
fn null_is_no_function_address() {
    assert!(FuncPtrInternal::new(0).is_none());
    assert_eq!(ptr(1).as_ptr(), 1);
    assert_eq!(ptr(usize::MAX).as_ptr(), usize::MAX);
}

#[test]
fn function_size_verdicts() {
    assert_eq!(check_function_size(FunctionSize::Unchecked, 12), Ok(()));
    assert_eq!(
        check_function_size(FunctionSize::Unknown, 12),
        Err(PatchError::UnknownFunctionSize)
    );
    assert_eq!(
        check_function_size(FunctionSize::Known(0), 12),
        Err(PatchError::ZeroFunctionSize)
    );
    assert_eq!(
        check_function_size(FunctionSize::Known(4), 12),
        Err(PatchError::FunctionTooSmall { size: 4, required: 12 })
    );
    assert_eq!(
        check_function_size(FunctionSize::Known(11), 12),
        Err(PatchError::FunctionTooSmall { size: 11, required: 12 })
    );
    assert_eq!(check_function_size(FunctionSize::Known(12), 12), Ok(()));
    assert_eq!(check_function_size(FunctionSize::Known(4096), 12), Ok(()));
}

#[test]
fn page_start_rounds_down() {
    assert_eq!(page_start(0x1234, 0x1000), 0x1000);
    assert_eq!(page_start(0x1000, 0x1000), 0x1000);
    assert_eq!(page_start(0x0fff, 0x1000), 0);
    assert_eq!(page_start(0x7f12_3456_7abc, 0x4000), 0x7f12_3456_4000);
    assert_eq!(page_start(usize::MAX, 0x1000), usize::MAX - 0xfff);
    assert_eq!(page_start(17, 1), 17);
}

#[test]
fn instructions_are_written_little_endian() {
    let mut code = vec![0xaa];
    append_instruction(&mut code, 0xd503_201f);
    assert_eq!(code, vec![0xaa, 0x1f, 0x20, 0x03, 0xd5]);

    let mut buf = [0xeeu8; 8];
    let mut cursor = 0;
    write_instruction(&mut buf, &mut cursor, 0x1234_5678);
    assert_eq!(cursor, 4);
    assert_eq!(buf, [0x78, 0x56, 0x34, 0x12, 0xee, 0xee, 0xee, 0xee]);
    write_instruction(&mut buf, &mut cursor, 0xd65f_03c0);
    assert_eq!(cursor, 8);
    assert_eq!(buf, [0x78, 0x56, 0x34, 0x12, 0xc0, 0x03, 0x5f, 0xd6]);
}

#[test]
fn arm64_absolute_jump_trampoline() {
    let code = generate_will_execute_jit_code_abs(0x1122_3344_5566_7788);
    assert_eq!(
        code,
        vec![
            0x09, 0xf1, 0x8e, 0xd2, // movz x9, #0x7788
            0xc9, 0xac, 0xaa, 0xf2, // movk x9, #0x5566, lsl #16
            0x89, 0x68, 0xc6, 0xf2, // movk x9, #0x3344, lsl #32
            0x49, 0x24, 0xe2, 0xf2, // movk x9, #0x1122, lsl #48
            0x20, 0x01, 0x1f, 0xd6, // br x9
        ]
    );
    assert_eq!(generate_will_execute_jit_code_abs(0).len(), 20);
}

#[test]
fn arm64_absolute_jump_loads_the_whole_address() {
    for target in [0u64, 1, 0xffff, 0x1_0000, 0xdead_beef_cafe_f00d, u64::MAX] {
        let code = generate_will_execute_jit_code_abs(target);
        let mut register = 0u64;
        for (index, chunk) in code.chunks(4).take(4).enumerate() {
            let word = u32::from_le_bytes([chunk[0], chunk[1], chunk[2], chunk[3]]);
            let hw = (word >> 21) & 3;
            assert_eq!(hw as usize, index);
            assert_eq!(word & 0x1f, 9);
            let imm = ((word >> 5) & 0xffff) as u64;
            if index == 0 {
                register = imm;
            } else {
                register = (register & !(0xffffu64 << (16 * hw))) | (imm << (16 * hw));
            }
        }
        assert_eq!(register, target);
    }
}

#[test]
fn arm64_return_boolean_trampoline() {
    assert_eq!(
        generate_will_return_boolean_jit_code(true),
        [0x20, 0x00, 0x80, 0xd2, 0xc0, 0x03, 0x5f, 0xd6]
    );
    assert_eq!(
        generate_will_return_boolean_jit_code(false),
        [0x00, 0x00, 0x80, 0xd2, 0xc0, 0x03, 0x5f, 0xd6]
    );
}

#[test]
fn arm64_branch_patch_forward_and_backward() {
    let (patch, guard) = apply_branch_patch(&ptr(0x40_0000), 0x40_1000, 20, &original()).unwrap();
    assert_eq!(
        patch,
        vec![0x00, 0x04, 0x00, 0x14, 0x1f, 0x20, 0x03, 0xd5, 0x1f, 0x20, 0x03, 0xd5]
    );
    assert!(guard.is_armed());
    assert_eq!(guard.func_ptr(), 0x40_0000);
    assert_eq!(guard.patch_size(), 12);
    assert_eq!(guard.jit_memory(), 0x40_1000);
    assert_eq!(guard.jit_size(), 20);

    let (patch, _) = apply_branch_patch(&ptr(0x40_0008), 0x40_0000, 8, &original()).unwrap();
    assert_eq!(&patch[..4], &[0xfe, 0xff, 0xff, 0x17]);
}

#[test]
fn arm64_branch_range_boundary() {
    let func = 0x1000_0000usize;
    // the last word a branch reaches forward, and the first it does not
    let (patch, _) = apply_branch_patch(&ptr(func), func + (1 << 27) - 4, 20, &original()).unwrap();
    assert_eq!(&patch[..4], &[0xff, 0xff, 0xff, 0x15]);
    assert_eq!(
        apply_branch_patch(&ptr(func), func + (1 << 27), 20, &original()).err(),
        Some(PatchError::OutOfBranchRange { offset: 0x200_0000 })
    );
    // and the same backward
    let (patch, _) = apply_branch_patch(&ptr(func), func - (1 << 27), 20, &original()).unwrap();
    assert_eq!(&patch[..4], &[0x00, 0x00, 0x00, 0x16]);
    assert_eq!(
        apply_branch_patch(&ptr(func), func - (1 << 27) - 4, 20, &original()).err(),
        Some(PatchError::OutOfBranchRange { offset: -0x200_0001 })
    );
}

#[test]
fn arm64_misaligned_addresses_are_refused() {
    assert_eq!(
        apply_branch_patch(&ptr(0x40_0002), 0x40_1000, 20, &original()).err(),
        Some(PatchError::MisalignedAddress { address: 0x40_0002 })
    );
    assert_eq!(
        apply_branch_patch(&ptr(0x40_0000), 0x40_1001, 20, &original()).err(),
        Some(PatchError::MisalignedAddress { address: 0x40_1001 })
    );
}

#[test]
fn arm64_misaligned_replacement_is_refused() {
    let refused = PatchArm64::replace_function_with_other_function(
        ptr(0x40_0000),
        ptr(0x50_0002),
        FunctionSize::Known(64),
        original(),
        0x40_1000,
    );
    assert_eq!(
        refused.err(),
        Some(PatchError::MisalignedAddress { address: 0x50_0002 })
    );
    let refused = PatchArm64::replace_function_with_other_function(
        ptr(0x40_0001),
        ptr(0x50_0002),
        FunctionSize::Known(64),
        original(),
        0x40_1000,
    );
    assert_eq!(
        refused.err(),
        Some(PatchError::MisalignedAddress { address: 0x40_0001 })
    );
}

#[test]
fn arm64_redirect_plan() {
    let plan = PatchArm64::replace_function_with_other_function(
        ptr(0x40_0000),
        ptr(0x1122_3344_5566_7788),
        FunctionSize::Known(64),
        original(),
        0x40_1000,
    )
    .ok()
    .unwrap();
    assert_eq!(plan.jit_code, generate_will_execute_jit_code_abs(0x1122_3344_5566_7788));
    assert_eq!(
        plan.patch,
        vec![0x00, 0x04, 0x00, 0x14, 0x1f, 0x20, 0x03, 0xd5, 0x1f, 0x20, 0x03, 0xd5]
    );
    assert_eq!(plan.guard.func_ptr(), 0x40_0000);
    assert_eq!(plan.guard.jit_memory(), 0x40_1000);
    assert_eq!(plan.guard.jit_size(), 20);
    assert_eq!(plan.guard.patch_size(), 12);
}

#[test]
fn arm64_return_boolean_plan() {
    let plan = PatchArm64::replace_function_return_boolean(
        ptr(0x40_0000),
        true,
        FunctionSize::Unchecked,
        original(),
        0x3f_f000,
    )
    .ok()
    .unwrap();
    assert_eq!(plan.jit_code, vec![0x20, 0x00, 0x80, 0xd2, 0xc0, 0x03, 0x5f, 0xd6]);
    assert_eq!(&plan.patch[..4], &[0x00, 0xfc, 0xff, 0x17]);
    assert_eq!(plan.guard.jit_size(), 8);
}

#[test]
fn arm64_too_small_target_is_refused_before_anything_else() {
    // a function that is a single `ret`
    let refused = PatchArm64::replace_function_with_other_function(
        ptr(0x40_0000),
        ptr(0x50_0000),
        FunctionSize::Known(4),
        original(),
        0x40_1000,
    );
    assert_eq!(
        refused.err(),
        Some(PatchError::FunctionTooSmall { size: 4, required: 12 })
    );
    // the size is judged first, whatever else is wrong
    let refused = PatchArm64::replace_function_return_boolean(
        ptr(0x40_0001),
        true,
        FunctionSize::Known(8),
        original(),
        0x7000_0000_0000,
    );
    assert_eq!(
        refused.err(),
        Some(PatchError::FunctionTooSmall { size: 8, required: 12 })
    );
    let refused = PatchArm64::replace_function_return_boolean(
        ptr(0x40_0000),
        false,
        FunctionSize::Known(0),
        original(),
        0x40_1000,
    );
    assert_eq!(refused.err(), Some(PatchError::ZeroFunctionSize));
    let refused = PatchArm64::replace_function_with_other_function(
        ptr(0x40_0000),
        ptr(0x50_0000),
        FunctionSize::Unknown,
        original(),
        0x40_1000,
    );
    assert_eq!(refused.err(), Some(PatchError::UnknownFunctionSize));
}

#[test]
fn amd64_jump_encodings() {
    assert_eq!(
        generate_branch_to_target_function(0x1000, 0x2000),
        vec![0xe9, 0xfb, 0x0f, 0x00, 0x00]
    );
    assert_eq!(
        generate_branch_to_target_function(0x2000, 0x1000),
        vec![0xe9, 0xfb, 0xef, 0xff, 0xff]
    );
    assert_eq!(
        generate_branch_to_target_function(0x1000, 0x7f11_2233_4455),
        vec![0x48, 0xb8, 0x55, 0x44, 0x33, 0x22, 0x11, 0x7f, 0x00, 0x00, 0xff, 0xe0]
    );
}

#[test]
fn amd64_rel32_boundary() {
    // displacement i32::MAX is the last that the relative jump takes
    assert_eq!(
        generate_branch_to_target_function(0x1000, 0x8000_1004),
        vec![0xe9, 0xff, 0xff, 0xff, 0x7f]
    );
    assert_eq!(
        generate_branch_to_target_function(0x1000, 0x8000_1005),
        vec![0x48, 0xb8, 0x05, 0x10, 0x00, 0x80, 0x00, 0x00, 0x00, 0x00, 0xff, 0xe0]
    );
    // and i32::MIN the first
    assert_eq!(
        generate_branch_to_target_function(0x1_0000_0000, 0x8000_0005),
        vec![0xe9, 0x00, 0x00, 0x00, 0x80]
    );
    assert_eq!(
        generate_branch_to_target_function(0x1_0000_0000, 0x8000_0004),
        vec![0x48, 0xb8, 0x04, 0x00, 0x00, 0x80, 0x00, 0x00, 0x00, 0x00, 0xff, 0xe0]
    );
}

#[test]
fn amd64_return_boolean_trampoline() {
    let amd64_code = injectorpp::injector_core::patch_amd64::generate_will_return_boolean_jit_code;
    assert_eq!(amd64_code(true), [0x48, 0xc7, 0xc0, 0x01, 0x00, 0x00, 0x00, 0xc3]);
    assert_eq!(amd64_code(false), [0x48, 0xc7, 0xc0, 0x00, 0x00, 0x00, 0x00, 0xc3]);
}

#[test]
fn amd64_plans() {
    let saved = vec![0x55, 0x48, 0x89, 0xe5, 0x90];
    let (patch, guard) = patch_and_guard(&ptr(0x1000), 0x2000, 12, saved.clone()).unwrap();
    assert_eq!(patch, vec![0xe9, 0xfb, 0x0f, 0x00, 0x00]);
    assert_eq!(guard.patch_size(), 5);
    assert_eq!(guard.func_ptr(), 0x1000);

    let plan = PatchAmd64::replace_function_with_other_function(
        ptr(0x1000),
        ptr(0x7f11_2233_4455),
        FunctionSize::Unchecked,
        saved.clone(),
        0x2000,
    )
    .ok()
    .unwrap();
    assert_eq!(
        plan.jit_code,
        vec![0x48, 0xb8, 0x55, 0x44, 0x33, 0x22, 0x11, 0x7f, 0x00, 0x00, 0xff, 0xe0]
    );
    assert_eq!(plan.patch, vec![0xe9, 0xfb, 0x0f, 0x00, 0x00]);
    assert_eq!(plan.guard.jit_memory(), 0x2000);
    assert_eq!(plan.guard.jit_size(), 12);

    let plan = PatchAmd64::replace_function_return_boolean(
        ptr(0x1000),
        true,
        FunctionSize::Known(5),
        saved.clone(),
        0x2000,
    )
    .ok()
    .unwrap();
    assert_eq!(plan.jit_code, vec![0x48, 0xc7, 0xc0, 0x01, 0x00, 0x00, 0x00, 0xc3]);
    assert_eq!(plan.patch, vec![0xe9, 0xfb, 0x0f, 0x00, 0x00]);
    assert_eq!(plan.guard.jit_size(), 8);

    // a function shorter than the jump is refused
    let refused = PatchAmd64::replace_function_return_boolean(
        ptr(0x1000),
        true,
        FunctionSize::Known(4),
        saved.clone(),
        0x2000,
    );
    assert_eq!(
        refused.err(),
        Some(PatchError::FunctionTooSmall { size: 4, required: 5 })
    );
    let refused = PatchAmd64::replace_function_with_other_function(
        ptr(0x1000),
        ptr(0x3000),
        FunctionSize::Unknown,
        saved,
        0x2000,
    );
    assert_eq!(refused.err(), Some(PatchError::UnknownFunctionSize));
}

#[test]
fn amd64_trampoline_out_of_reach_is_refused() {
    let saved = vec![0x55, 0x48, 0x89, 0xe5, 0x90];
    // displacement i32::MAX is the last that the jump into the trampoline takes
    let (patch, _) = patch_and_guard(&ptr(0x1000), 0x8000_1004, 12, saved.clone()).unwrap();
    assert_eq!(patch, vec![0xe9, 0xff, 0xff, 0xff, 0x7f]);
    assert_eq!(
        patch_and_guard(&ptr(0x1000), 0x8000_1005, 12, saved.clone()).err(),
        Some(PatchError::OutOfBranchRange { offset: 0x8000_0000 })
    );
    // and i32::MIN the first
    let (patch, _) = patch_and_guard(&ptr(0x1_0000_0000), 0x8000_0005, 12, saved.clone()).unwrap();
    assert_eq!(patch, vec![0xe9, 0x00, 0x00, 0x00, 0x80]);
    assert_eq!(
        patch_and_guard(&ptr(0x1_0000_0000), 0x8000_0004, 12, saved.clone()).err(),
        Some(PatchError::OutOfBranchRange { offset: -0x8000_0001 })
    );
    // the size is judged first
    let refused = PatchAmd64::replace_function_with_other_function(
        ptr(0x1000),
        ptr(0x3000),
        FunctionSize::Known(3),
        saved.clone(),
        0x7f00_0000_0000,
    );
    assert_eq!(
        refused.err(),
        Some(PatchError::FunctionTooSmall { size: 3, required: 5 })
    );
    let refused = PatchAmd64::replace_function_return_boolean(
        ptr(0x1000),
        false,
        FunctionSize::Known(5),
        saved,
        0x7f00_0000_0000,
    );
    assert_eq!(
        refused.err(),
        Some(PatchError::OutOfBranchRange { offset: 0x7f00_0000_0000 - 0x1005 })
    );
}

#[test]
fn arm_a32_patch() {
    let plan = PatchArm::replace_function_with_other_function(
        ptr(0x1_0000),
        ptr(0x2_0001),
        FunctionSize::Unchecked,
        original(),
    )
    .ok()
    .unwrap();
    assert_eq!(
        plan.patch,
        vec![
            0x00, 0x90, 0x1f, 0xe5, // ldr r9, [pc, #-0]
            0x19, 0xff, 0x2f, 0xe1, // bx r9
            0x01, 0x00, 0x02, 0x00, // .word target
        ]
    );
    assert!(plan.jit_code.is_empty());
    assert_eq!(plan.guard.func_ptr(), 0x1_0000);
    assert_eq!(plan.guard.jit_memory(), 0);
    assert_eq!(plan.guard.jit_size(), 0);
    assert_eq!(plan.guard.patch_size(), 12);
}

#[test]
fn arm_thumb_patch_on_a_word_boundary() {
    let plan = PatchArm::replace_function_with_other_function(
        ptr(0x1_0001),
        ptr(0x1234_5679),
        FunctionSize::Unchecked,
        original(),
    )
    .ok()
    .unwrap();
    assert_eq!(
        plan.patch,
        vec![
            0x00, 0x4f, // ldr r7, [pc, #0]
            0x38, 0x47, // bx r7
            0x79, 0x56, 0x34, 0x12, // .word target
            0x00, 0x00, 0x00, 0x00,
        ]
    );
    assert_eq!(plan.guard.func_ptr(), 0x1_0000);
}

#[test]
fn arm_thumb_patch_on_a_half_word_boundary() {
    let plan = PatchArm::replace_function_with_other_function(
        ptr(0x1_0003),
        ptr(0x1234_5679),
        FunctionSize::Unchecked,
        original(),
    )
    .ok()
    .unwrap();
    assert_eq!(
        plan.patch,
        vec![
            0xc0, 0x46, // nop
            0x00, 0x4f, // ldr r7, [pc, #0]
            0x38, 0x47, // bx r7
            0x79, 0x56, 0x34, 0x12, // .word target
            0x00, 0x00,
        ]
    );
    assert_eq!(plan.guard.func_ptr(), 0x1_0002);
}

#[test]
fn arm_misaligned_a32_code_is_refused() {
    let refused =
        PatchArm::replace_function_with_other_function(
        ptr(0x1_0002),
        ptr(0x2_0000),
        FunctionSize::Unchecked,
        original(),
    );
    assert_eq!(
        refused.err(),
        Some(PatchError::MisalignedAddress { address: 0x1_0002 })
    );
}

#[test]
fn arm_misaligned_a32_replacement_is_refused() {
    let refused =
        PatchArm::replace_function_with_other_function(
        ptr(0x1_0000),
        ptr(0x2_0002),
        FunctionSize::Unchecked,
        original(),
    );
    assert_eq!(
        refused.err(),
        Some(PatchError::MisalignedAddress { address: 0x2_0002 })
    );
    // a Thumb replacement may sit on any half-word
    assert!(
        PatchArm::replace_function_with_other_function(
        ptr(0x1_0000),
        ptr(0x2_0003),
        FunctionSize::Unchecked,
        original(),
    )
            .is_ok()
    );
}

#[test]
fn arm_too_small_target_is_refused() {
    let refused = PatchArm::replace_function_with_other_function(
        ptr(0x1_0002),
        ptr(0x2_0002),
        FunctionSize::Known(8),
        original(),
    );
    assert_eq!(
        refused.err(),
        Some(PatchError::FunctionTooSmall { size: 8, required: 12 })
    );
    assert!(PatchArm::replace_function_with_other_function(
        ptr(0x1_0000),
        ptr(0x2_0000),
        FunctionSize::Known(12),
        original(),
    )
    .is_ok());
}

#[test]
fn arm_return_boolean_picks_the_target() {
    let plan = PatchArm::replace_function_return_boolean(
        ptr(0x1_0000),
        true,
        ptr(0xaaaa_0000),
        ptr(0xbbbb_0000),
        FunctionSize::Unchecked,
        original(),
    )
    .ok()
    .unwrap();
    assert_eq!(&plan.patch[8..], &[0x00, 0x00, 0xaa, 0xaa]);
    let plan = PatchArm::replace_function_return_boolean(
        ptr(0x1_0000),
        false,
        ptr(0xaaaa_0000),
        ptr(0xbbbb_0000),
        FunctionSize::Unchecked,
        original(),
    )
    .ok()
    .unwrap();
    assert_eq!(&plan.patch[8..], &[0x00, 0x00, 0xbb, 0xbb]);
    assert!(return_true());
    assert!(!return_false());
}

#[test]
fn amd64_relative_jump_leads_to_its_target() {
    for (origin, target) in [
        (0x1000usize, 0x2000usize),
        (0x2000, 0x1000),
        (0x7f00_0000_0000, 0x7f00_7fff_0000),
        (0x7f00_7fff_0000, 0x7f00_0000_0000),
        (0x1000, 0x8000_1004),
        (0x1_0000_0000, 0x8000_0005),
    ] {
        let code = generate_branch_to_target_function(origin, target);
        assert_eq!(code.len(), 5);
        assert_eq!(code[0], 0xe9);
        let displacement = i32::from_le_bytes([code[1], code[2], code[3], code[4]]);
        assert_eq!(origin as i64 + 5 + displacement as i64, target as i64);
    }
}

#[test]
fn amd64_absolute_jump_carries_the_whole_address() {
    for (origin, target) in [(0x1000usize, 0x7f11_2233_4455usize), (0x7f11_2233_4455, 0x1000)] {
        let code = generate_branch_to_target_function(origin, target);
        assert_eq!(code.len(), 12);
        assert_eq!(&code[..2], &[0x48, 0xb8]);
        let mut address = [0u8; 8];
        address.copy_from_slice(&code[2..10]);
        assert_eq!(u64::from_le_bytes(address), target as u64);
        assert_eq!(&code[10..], &[0xff, 0xe0]);
    }
}

#[test]
fn strategies_name_their_sizes() {
    assert_eq!(PatchArm64::patch_size(), 12);
    assert_eq!(PatchArm64::will_execute_jit_size(), 20);
    assert_eq!(PatchArm64::will_return_boolean_jit_size(), 8);
    assert_eq!(PatchAmd64::patch_size(), 5);
    assert_eq!(PatchAmd64::will_execute_jit_size(), 12);
    assert_eq!(PatchAmd64::will_return_boolean_jit_size(), 8);
}

#[test]
fn builder_plans_by_the_strategy_it_is_given() {
    let saved = vec![0x55, 0x48, 0x89, 0xe5, 0x90];
    let plan = WhenCalled::new(ptr(0x1000))
        .will_execute_guard::<PatchAmd64>(ptr(0x3000), FunctionSize::Known(16), saved, 0x2000)
        .ok()
        .unwrap();
    assert_eq!(plan.patch, vec![0xe9, 0xfb, 0x0f, 0x00, 0x00]);
    assert_eq!(plan.jit_code, vec![0xe9, 0xfb, 0x0f, 0x00, 0x00]);
    assert_eq!(plan.guard.func_ptr(), 0x1000);

    let plan = WhenCalled::new(ptr(0x40_0000))
        .will_return_boolean_guard::<PatchArm64>(false, FunctionSize::Unchecked, original(), 0x40_1000)
        .ok()
        .unwrap();
    assert_eq!(plan.jit_code, vec![0x00, 0x00, 0x80, 0xd2, 0xc0, 0x03, 0x5f, 0xd6]);
    assert_eq!(&plan.patch[..4], &[0x00, 0x04, 0x00, 0x14]);

    let refused = WhenCalled::new(ptr(0x40_0000)).will_execute_guard::<PatchArm64>(
        ptr(0x50_0000),
        FunctionSize::Known(4),
        original(),
        0x40_1000,
    );
    assert_eq!(
        refused.err(),
        Some(PatchError::FunctionTooSmall { size: 4, required: 12 })
    );
}
