use injectorpp::injector_core::common::{FuncPtrInternal, FunctionSize, PatchGuard};
use injectorpp::injector_core::patch_amd64::{PatchAmd64, PATCH_SIZE};
use injectorpp::injector_core::patch_arm64::PatchArm64;
use injectorpp::injector_core::patch_trait::PatchTrait;

#[test]
fn guard_releases_once() {
    let mut guard = PatchGuard::new(0x1000, vec![1, 2, 3, 4, 5], 5, 0x9000, 12);
    assert!(guard.is_armed());
    let restoration = guard.release().unwrap();
    assert_eq!(restoration.func_ptr, 0x1000);
    assert_eq!(restoration.original_bytes, vec![1, 2, 3, 4, 5]);
    assert_eq!(restoration.jit_memory, 0x9000);
    assert_eq!(restoration.jit_size, 12);
    assert!(!guard.is_armed());

    // a second release, and any after it, asks for nothing
    assert!(guard.release().is_none());
    assert!(guard.release().is_none());
    assert!(!guard.is_armed());
    assert_eq!(guard.func_ptr(), 0x1000);
    assert_eq!(guard.patch_size(), 5);
}

#[test]
fn guard_without_trampoline() {
    let mut guard = PatchGuard::new(0x2000, vec![9; 12], 12, 0, 0);
    let restoration = guard.release().unwrap();
    assert_eq!(restoration.jit_memory, 0);
    assert_eq!(restoration.jit_size, 0);
    assert_eq!(restoration.original_bytes, vec![9; 12]);
}

#[test]
fn empty_patch_guard() {
    let mut guard = PatchGuard::new(usize::MAX, Vec::new(), 0, 0, 0);
    assert_eq!(guard.release().unwrap().original_bytes, Vec::<u8>::new());
    assert!(guard.release().is_none());
}

fn write(memory: &mut [u8], base: usize, address: usize, bytes: &[u8]) {
    memory[address - base..address - base + bytes.len()].copy_from_slice(bytes);
}

#[test]
fn patch_then_restore_leaves_memory_as_it_was() {
    let base = 0x40_0000usize;
    let mut memory: Vec<u8> = (0..64u8).map(|i| i.wrapping_mul(37)).collect();
    let before = memory.clone();
    let func = base + 16;

    let plan = PatchArm64::replace_function_with_other_function(
        FuncPtrInternal::new(func).unwrap(),
        FuncPtrInternal::new(0x7f00_0000_1000).unwrap(),
        FunctionSize::Known(48),
        memory[16..28].to_vec(),
        base + 0x1000,
    )
    .ok()
    .unwrap();
    let mut guard = plan.guard;
    write(&mut memory, base, guard.func_ptr(), &plan.patch);
    assert_ne!(memory, before);
    assert_eq!(&memory[..16], &before[..16]);
    assert_eq!(&memory[28..], &before[28..]);

    let restoration = guard.release().unwrap();
    write(&mut memory, base, restoration.func_ptr, &restoration.original_bytes);
    assert_eq!(memory, before);
    assert!(guard.release().is_none());
}

#[test]
fn amd64_patch_then_restore() {
    let base = 0x1000usize;
    let mut memory: Vec<u8> = (0..32u8).collect();
    let before = memory.clone();
    let func = base + 3;
    let jit = 0x4000_0000usize;
    let size = PATCH_SIZE;
    assert_eq!(size, 5);

    let plan = PatchAmd64::replace_function_return_boolean(
        FuncPtrInternal::new(func).unwrap(),
        true,
        FunctionSize::Known(29),
        memory[3..3 + size].to_vec(),
        jit,
    )
    .ok()
    .unwrap();
    let mut guard = plan.guard;
    write(&mut memory, base, guard.func_ptr(), &plan.patch);
    assert_ne!(memory, before);
    let restoration = guard.release().unwrap();
    write(&mut memory, base, restoration.func_ptr, &restoration.original_bytes);
    assert_eq!(memory, before);
}
