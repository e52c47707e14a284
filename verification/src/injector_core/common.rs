//! What every patch strategy shares: validated code addresses, the errors a
//! patch can end in, page arithmetic, a byte-level picture of memory, and the
//! guard that undoes a patch exactly once.
use vstd::prelude::*;

verus! {

/// The address of a function: never null.
pub struct FuncPtrInternal {
    address: usize,
}

impl FuncPtrInternal {
    #[verifier::type_invariant]
    spec fn non_null(self) -> bool {
        self.address != 0
    }

    /// The address as a number.
    pub closed spec fn view(&self) -> usize {
        self.address
    }

    /// Accepts every address but null.
    pub fn new(address: usize) -> (ptr: Option<Self>)
        ensures
            address == 0 <==> ptr is None,
            ptr is Some ==> ptr->0@ == address,
    {
        if address == 0 {
            None
        } else {
            Some(FuncPtrInternal { address })
        }
    }

    /// Returns the address of the function.
    pub fn as_ptr(&self) -> (address: usize)
        ensures
            address == self@,
            address != 0,
    {
        proof {
            use_type_invariant(self);
        }
        self.address
    }
}

/// Why a patch was refused. Every one of these is detected before a single byte
/// of the target function is written.
#[derive(Debug, Clone, Copy, PartialEq, Eq, Structural)]
pub enum PatchError {
    /// An address does not sit on an instruction boundary of the architecture.
    MisalignedAddress { address: usize },
    /// The size of the target function could not be determined.
    UnknownFunctionSize,
    /// The target function is reported with size zero.
    ZeroFunctionSize,
    /// The target function is shorter than the bytes the patch overwrites.
    FunctionTooSmall { size: usize, required: usize },
    /// The trampoline lies further from the target than a branch reaches;
    /// `offset` is the distance in the unit of the branch: instruction words on
    /// AArch64, bytes from the end of the jump on x86-64.
    OutOfBranchRange { offset: i128 },
}

/// What is known of the size of the function to patch.
#[derive(Debug, Clone, Copy, PartialEq, Eq, Structural)]
pub enum FunctionSize {
    /// The platform offers no way to ask; the patch goes ahead unchecked.
    Unchecked,
    /// The platform was asked and had no answer.
    Unknown,
    /// The size in bytes that the platform reports.
    Known(usize),
}

/// Whether a function of the given size may be overwritten with `required`
/// bytes.
pub open spec fn size_verdict(size: FunctionSize, required: usize) -> Result<(), PatchError> {
    match size {
        FunctionSize::Unchecked => Ok(()),
        FunctionSize::Unknown => Err(PatchError::UnknownFunctionSize),
        FunctionSize::Known(bytes) => if bytes == 0 {
            Err(PatchError::ZeroFunctionSize)
        } else if bytes < required {
            Err(PatchError::FunctionTooSmall { size: bytes, required })
        } else {
            Ok(())
        },
    }
}

/// Refuses a target whose size is unknown, zero or below the `required` patch
/// size, so that a patch never runs over the end of a function.
pub fn check_function_size(size: FunctionSize, required: usize) -> (verdict: Result<
    (),
    PatchError,
>)
    ensures
        verdict == size_verdict(size, required),
{
    match size {
        FunctionSize::Unchecked => Ok(()),
        FunctionSize::Unknown => Err(PatchError::UnknownFunctionSize),
        FunctionSize::Known(bytes) => {
            if bytes == 0 {
                Err(PatchError::ZeroFunctionSize)
            } else if bytes < required {
                Err(PatchError::FunctionTooSmall { size: bytes, required })
            } else {
                Ok(())
            }
        },
    }
}

/// The start of the page that holds `address`: the last multiple of the page
/// size that is not above it.
pub fn page_start(address: usize, page_size: usize) -> (start: usize)
    requires
        page_size > 0,
    ensures
        start % page_size == 0,
        start <= address < start + page_size,
{
    let within = address % page_size;
    proof {
        vstd::arithmetic::div_mod::lemma_mod_bound(address as int, page_size as int);
        vstd::arithmetic::div_mod::lemma_fundamental_div_mod(address as int, page_size as int);
        vstd::arithmetic::div_mod::lemma_div_pos_is_pos(address as int, page_size as int);
        vstd::arithmetic::mul::lemma_mul_nonnegative(
            page_size as int,
            address as int / page_size as int,
        );
        vstd::arithmetic::div_mod::lemma_mod_multiples_basic(
            address as int / page_size as int,
            page_size as int,
        );
        vstd::arithmetic::mul::lemma_mul_is_commutative(
            address as int / page_size as int,
            page_size as int,
        );
    }
    address - within
}

/// The four bytes of a 32-bit word, least significant first.
pub open spec fn le_bytes_u32(word: int) -> Seq<u8> {
    seq![
        (word % 0x100) as u8,
        (word / 0x100 % 0x100) as u8,
        (word / 0x1_0000 % 0x100) as u8,
        (word / 0x100_0000 % 0x100) as u8,
    ]
}

/// The eight bytes of a 64-bit word, least significant first.
pub open spec fn le_bytes_u64(word: int) -> Seq<u8> {
    le_bytes_u32(word % 0x1_0000_0000) + le_bytes_u32(word / 0x1_0000_0000 % 0x1_0000_0000)
}

/// The bytes of a sequence of 32-bit words, each least significant byte first.
pub open spec fn le_bytes_of_words(words: Seq<u32>) -> Seq<u8>
    decreases words.len(),
{
    if words.len() == 0 {
        Seq::empty()
    } else {
        le_bytes_of_words(words.drop_last()) + le_bytes_u32(words.last() as int)
    }
}

/// Masking and shifting a word yields its bytes.
pub proof fn lemma_le_bytes(word: u32, b0: u8, b1: u8, b2: u8, b3: u8)
    requires
        b0 == (word & 0xff) as u8,
        b1 == ((word >> 8) & 0xff) as u8,
        b2 == ((word >> 16) & 0xff) as u8,
        b3 == ((word >> 24) & 0xff) as u8,
    ensures
        le_bytes_u32(word as int) == seq![b0, b1, b2, b3],
{
    assert(b0 == word % 0x100 && b1 == word / 0x100 % 0x100 && b2 == word / 0x1_0000 % 0x100 && b3
        == word / 0x100_0000 % 0x100) by (bit_vector)
        requires
            b0 == (word & 0xff) as u8,
            b1 == ((word >> 8) & 0xff) as u8,
            b2 == ((word >> 16) & 0xff) as u8,
            b3 == ((word >> 24) & 0xff) as u8,
    ;
}

/// Appends the four bytes of `word`, least significant first.
pub fn extend_le_u32(code: &mut Vec<u8>, word: u32)
    ensures
        final(code)@ == old(code)@ + le_bytes_u32(word as int),
{
    let b0: u8 = (word & 0xff) as u8;
    let b1: u8 = ((word >> 8) & 0xff) as u8;
    let b2: u8 = ((word >> 16) & 0xff) as u8;
    let b3: u8 = ((word >> 24) & 0xff) as u8;
    proof {
        lemma_le_bytes(word, b0, b1, b2, b3);
    }
    code.push(b0);
    code.push(b1);
    code.push(b2);
    code.push(b3);
    assert(code@ =~= old(code)@ + le_bytes_u32(word as int));
}

/// Appends the eight bytes of `word`, least significant first.
pub fn extend_le_u64(code: &mut Vec<u8>, word: u64)
    ensures
        final(code)@ == old(code)@ + le_bytes_u64(word as int),
{
    let low: u32 = (word & 0xffff_ffff) as u32;
    let high: u32 = (word >> 32) as u32;
    assert(low == word % 0x1_0000_0000 && high == word / 0x1_0000_0000 % 0x1_0000_0000)
        by (bit_vector)
        requires
            low == (word & 0xffff_ffff) as u32,
            high == (word >> 32) as u32,
    ;
    extend_le_u32(code, low);
    extend_le_u32(code, high);
    assert(code@ =~= old(code)@ + le_bytes_u64(word as int));
}

/// The bytes of an array as a vector.
pub fn bytes_to_vec<const N: usize>(bytes: &[u8; N]) -> (copy: Vec<u8>)
    ensures
        copy@ == bytes@,
{
    let mut copy: Vec<u8> = Vec::with_capacity(N);
    let mut i: usize = 0;
    while i < N
        invariant
            i <= N,
            copy@ == bytes@.subrange(0, i as int),
        decreases N - i,
    {
        copy.push(bytes[i]);
        i += 1;
        assert(copy@ =~= bytes@.subrange(0, i as int));
    }
    assert(copy@ =~= bytes@);
    copy
}

/// Memory after `bytes` have been written at `address`.
pub open spec fn write_bytes(memory: Map<int, u8>, address: int, bytes: Seq<u8>) -> Map<int, u8> {
    Map::new(
        |a: int| memory.dom().contains(a) || address <= a < address + bytes.len(),
        |a: int|
            if address <= a < address + bytes.len() {
                bytes[a - address]
            } else {
                memory[a]
            },
    )
}

/// The `len` bytes of memory that start at `address`.
pub open spec fn read_bytes(memory: Map<int, u8>, address: int, len: nat) -> Seq<u8> {
    Seq::new(len, |i: int| memory[address + i])
}

/// A patch guard as a plain value.
pub ghost struct PatchGuardView {
    /// Where the patch was written.
    pub func_ptr: usize,
    /// The bytes that stood there before.
    pub original_bytes: Seq<u8>,
    /// How many bytes the patch overwrote.
    pub patch_size: usize,
    /// The trampoline block, or 0 where the patch needs none.
    pub jit_memory: usize,
    /// The size of the trampoline block.
    pub jit_size: usize,
    /// Whether the patch is still in place.
    pub armed: bool,
}

/// What undoing a patch consists of, as a plain value.
pub ghost struct RestorationView {
    pub func_ptr: usize,
    pub original_bytes: Seq<u8>,
    pub jit_memory: usize,
    pub jit_size: usize,
}

impl PatchGuardView {
    /// What a release of this guard asks for: everything that undoes the
    /// patch while the guard is armed, nothing afterwards.
    pub open spec fn restoration(self) -> Option<RestorationView> {
        if self.armed {
            Some(
                RestorationView {
                    func_ptr: self.func_ptr,
                    original_bytes: self.original_bytes,
                    jit_memory: self.jit_memory,
                    jit_size: self.jit_size,
                },
            )
        } else {
            None
        }
    }

    /// The guard after a release.
    pub open spec fn released(self) -> PatchGuardView {
        PatchGuardView { armed: false, ..self }
    }
}

/// What has to be done to undo a patch: write `original_bytes` back at
/// `func_ptr`, free the trampoline block unless `jit_memory` is 0, and flush the
/// instruction cache over the bytes written.
pub struct Restoration {
    pub func_ptr: usize,
    pub original_bytes: Vec<u8>,
    pub jit_memory: usize,
    pub jit_size: usize,
}

impl View for Restoration {
    type V = RestorationView;

    open spec fn view(&self) -> RestorationView {
        RestorationView {
            func_ptr: self.func_ptr,
            original_bytes: self.original_bytes@,
            jit_memory: self.jit_memory,
            jit_size: self.jit_size,
        }
    }
}

/// A guard that stores the original bytes of a patched function and the
/// allocated JIT memory. It is armed from the moment the patch is applied.
/// Releasing it hands out, once, what restores the function and frees the
/// memory; every later release hands out nothing.
pub struct PatchGuard {
    func_ptr: usize,
    original_bytes: Vec<u8>,
    patch_size: usize,
    jit_memory: usize,
    jit_size: usize,
    armed: bool,
}

impl View for PatchGuard {
    type V = PatchGuardView;

    closed spec fn view(&self) -> PatchGuardView {
        PatchGuardView {
            func_ptr: self.func_ptr,
            original_bytes: self.original_bytes@,
            patch_size: self.patch_size,
            jit_memory: self.jit_memory,
            jit_size: self.jit_size,
            armed: self.armed,
        }
    }
}

impl PatchGuard {
    #[verifier::type_invariant]
    spec fn well_formed(self) -> bool {
        &&& self.original_bytes@.len() == self.patch_size
        &&& self.func_ptr + self.patch_size <= usize::MAX
    }

    /// An armed guard for a patch of `patch_size` bytes at `func_ptr`. The
    /// saved bytes are exactly as long as the patch, and the patch lies within
    /// the address space.
    pub fn new(
        func_ptr: usize,
        original_bytes: Vec<u8>,
        patch_size: usize,
        jit_memory: usize,
        jit_size: usize,
    ) -> (guard: Self)
        requires
            original_bytes@.len() == patch_size,
            func_ptr + patch_size <= usize::MAX,
        ensures
            guard@ == (PatchGuardView {
                func_ptr,
                original_bytes: original_bytes@,
                patch_size,
                jit_memory,
                jit_size,
                armed: true,
            }),
    {
        Self { func_ptr, original_bytes, patch_size, jit_memory, jit_size, armed: true }
    }

    /// Where the patch was written.
    pub fn func_ptr(&self) -> (address: usize)
        ensures
            address == self@.func_ptr,
    {
        self.func_ptr
    }

    /// How many bytes the patch overwrote.
    pub fn patch_size(&self) -> (size: usize)
        ensures
            size == self@.patch_size,
            self@.original_bytes.len() == size,
            self@.func_ptr + size <= usize::MAX,
    {
        proof {
            use_type_invariant(self);
        }
        self.patch_size
    }

    /// The trampoline block, or 0 where the patch has none.
    pub fn jit_memory(&self) -> (address: usize)
        ensures
            address == self@.jit_memory,
    {
        self.jit_memory
    }

    /// The size of the trampoline block.
    pub fn jit_size(&self) -> (size: usize)
        ensures
            size == self@.jit_size,
    {
        self.jit_size
    }

    /// Whether the patch is still in place.
    pub fn is_armed(&self) -> (armed: bool)
        ensures
            armed == self@.armed,
    {
        self.armed
    }

    /// Disarms the guard. The first release returns what has to be done to
    /// undo the patch; any further release returns `None` and changes nothing.
    pub fn release(&mut self) -> (restoration: Option<Restoration>)
        ensures
            final(self)@ == old(self)@.released(),
            restoration is Some <==> old(self)@.armed,
            restoration is Some ==> Some(restoration->0@) == old(self)@.restoration(),
            final(self)@.original_bytes.len() == final(self)@.patch_size,
            final(self)@.func_ptr + final(self)@.patch_size <= usize::MAX,
    {
        proof {
            use_type_invariant(&*self);
        }
        if !self.armed {
            return None;
        }
        let original_bytes = self.original_bytes.clone();
        assert(original_bytes@ =~= self.original_bytes@);
        self.armed = false;
        Some(
            Restoration {
                func_ptr: self.func_ptr,
                original_bytes,
                jit_memory: self.jit_memory,
                jit_size: self.jit_size,
            },
        )
    }
}

/// Everything that applying a patch consists of: the code to put into the
/// trampoline block at `guard.jit_memory()` (empty where there is none), the
/// bytes to write over the function at `guard.func_ptr()`, and the guard that
/// undoes the patch.
pub struct PatchPlan {
    pub jit_code: Vec<u8>,
    pub patch: Vec<u8>,
    pub guard: PatchGuard,
}

/// Releasing a guard twice undoes the patch once: the second release asks for
/// nothing, neither a write nor a free, and leaves the guard as it is.
pub proof fn lemma_release_is_idempotent(guard: PatchGuardView)
    ensures
        guard.released().restoration() is None,
        guard.released().released() == guard.released(),
        guard.armed ==> guard.restoration() is Some,
{
}

/// A patch followed by the restoration that its guard hands out leaves memory
/// byte for byte as it was: the guard was made from the bytes that stood at the
/// patched address, and the patch is as long as they are.
pub proof fn lemma_patch_then_restore(memory: Map<int, u8>, guard: PatchGuardView, patch: Seq<u8>)
    requires
        guard.armed,
        patch.len() == guard.patch_size,
        guard.original_bytes == read_bytes(memory, guard.func_ptr as int, guard.patch_size as nat),
        forall|a: int|
            guard.func_ptr <= a < guard.func_ptr + guard.patch_size ==> memory.dom().contains(a),
    ensures
        guard.restoration() is Some,
        write_bytes(
            write_bytes(memory, guard.func_ptr as int, patch),
            guard.restoration()->0.func_ptr as int,
            guard.restoration()->0.original_bytes,
        ) == memory,
{
    let patched = write_bytes(memory, guard.func_ptr as int, patch);
    let restored = write_bytes(patched, guard.func_ptr as int, guard.original_bytes);
    assert(restored =~= memory);
}

} // verus!
