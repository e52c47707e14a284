//! A function address together with the signature it was taken with.
use crate::injector_core::common::FuncPtrInternal;
use vstd::prelude::*;

verus! {

/// The address of a function and the name of its type.
///
/// `FuncPtr` stands for both the original functions to be mocked and their
/// replacements. The signature is what the two are compared by before one is
/// put in place of the other; it is empty where the caller opted out of that
/// check.
pub struct FuncPtr {
    func_ptr_internal: FuncPtrInternal,
    signature: &'static str,
}

impl FuncPtr {
    /// The address of the function.
    pub closed spec fn address(&self) -> usize {
        self.func_ptr_internal@
    }

    /// The signature of the function.
    pub closed spec fn signature(&self) -> Seq<char> {
        self.signature@
    }

    /// Creates a new `FuncPtr` from the address of a function, which is not
    /// null.
    pub fn new(address: usize, signature: &'static str) -> (func: Self)
        requires
            address != 0,
        ensures
            func.address() == address,
            func.signature() == signature@,
    {
        match FuncPtrInternal::new(address) {
            Some(func_ptr_internal) => Self { func_ptr_internal, signature },
            None => vstd::pervasive::unreached(),
        }
    }

    /// Creates a `FuncPtr` from any address, or `None` from null.
    pub fn try_new(address: usize, signature: &'static str) -> (func: Option<Self>)
        ensures
            func is None <==> address == 0,
            func matches Some(f) ==> f.address() == address && f.signature() == signature@,
    {
        match FuncPtrInternal::new(address) {
            Some(func_ptr_internal) => Some(Self { func_ptr_internal, signature }),
            None => None,
        }
    }

    /// The signature that the function was taken with.
    pub fn signature_text(&self) -> (signature: &'static str)
        ensures
            signature@ == self.signature(),
    {
        self.signature
    }

    /// Gives up the signature and keeps the address.
    pub fn into_internal(self) -> (ptr: FuncPtrInternal)
        ensures
            ptr@ == self.address(),
    {
        self.func_ptr_internal
    }
}

} // verus!
