//! Placement of trampoline memory near the function it serves.
//!
//! A short branch reaches only so far, so the block that a patched function
//! jumps into has to lie within a fixed distance of it. The search walks the
//! window around the function page by page. At each step it names the address
//! at which a mapping should be requested and then judges where the mapping
//! landed: inside the window it is accepted, outside it has to be released,
//! and the search moves on. Once the window is used up, the search ends
//! without a result.
use vstd::prelude::*;

verus! {

/// The processor that the patch is made for.
#[derive(Debug, Clone, Copy, PartialEq, Eq, Structural)]
pub enum Architecture {
    Aarch64,
    X86_64,
    Arm,
}

/// The operating system that maps the memory.
#[derive(Debug, Clone, Copy, PartialEq, Eq, Structural)]
pub enum OperatingSystem {
    Linux,
    MacOs,
    Windows,
}

/// How far from a function its trampoline may lie on AArch64: a `B` reaches
/// 128MB backward and one instruction less forward, and the window is the same
/// on both sides.
pub const AARCH64_RANGE: u64 = 0x7ff_fffc;

/// How far from a function its trampoline may lie on x86-64: a `jmp rel32`
/// reaches 2GB either way from its own end, five bytes into the function.
pub const X86_64_RANGE: u64 = 0x7fff_fffb;

/// The range that x86-64 keeps to on Linux: 128MB.
pub const X86_64_LINUX_RANGE: u64 = 0x800_0000;

/// The greatest distance allowed between a function and its trampoline, or
/// `None` where the architecture jumps by absolute address and the block may lie
/// anywhere.
pub open spec fn max_range_of(arch: Architecture, os: OperatingSystem) -> Option<u64> {
    match (arch, os) {
        (Architecture::Arm, _) => None,
        (Architecture::Aarch64, _) => Some(AARCH64_RANGE),
        (Architecture::X86_64, OperatingSystem::Linux) => Some(X86_64_LINUX_RANGE),
        (Architecture::X86_64, _) => Some(X86_64_RANGE),
    }
}

/// The greatest distance allowed between a function and its trampoline on the
/// given platform.
pub fn max_range(arch: Architecture, os: OperatingSystem) -> (range: Option<u64>)
    ensures
        range == max_range_of(arch, os),
{
    match arch {
        Architecture::Arm => None,
        Architecture::Aarch64 => Some(AARCH64_RANGE),
        Architecture::X86_64 => match os {
            OperatingSystem::Linux => Some(X86_64_LINUX_RANGE),
            OperatingSystem::MacOs => Some(X86_64_RANGE),
            OperatingSystem::Windows => Some(X86_64_RANGE),
        },
    }
}

/// Whether `address` lies within `max_range` of `reference`.
pub open spec fn in_window(reference: int, max_range: int, address: int) -> bool {
    reference - max_range <= address <= reference + max_range
}

/// What the search makes of one mapping attempt.
#[derive(Debug, Clone, Copy, PartialEq, Eq, Structural)]
pub enum JitVerdict {
    /// The mapping lies inside the window: it is the trampoline block.
    Accept(u64),
    /// The mapping landed outside the window. It has to be released before the
    /// search goes on.
    Release(u64),
    /// Nothing was mapped; the search goes on.
    Retry,
}

/// A search as a plain value.
pub ghost struct JitSearchView {
    /// The address of the function that the trampoline serves.
    pub reference: int,
    /// The greatest distance allowed between the two.
    pub max_range: int,
    /// The distance between two candidates.
    pub page_size: int,
    /// The address at which the next mapping is requested.
    pub candidate: int,
}

impl JitSearchView {
    /// The last candidate worth trying: the upper end of the window, or of the
    /// address space where the window reaches beyond it.
    pub open spec fn limit(self) -> int {
        if self.reference + self.max_range <= u64::MAX {
            self.reference + self.max_range
        } else {
            u64::MAX as int
        }
    }

    /// The address at which to request the next mapping, or `None` once the
    /// window is used up.
    pub open spec fn next_hint(self) -> Option<u64> {
        if 0 <= self.candidate <= self.limit() {
            Some(self.candidate as u64)
        } else {
            None
        }
    }

    /// How many more mappings the search may request.
    pub open spec fn attempts_left(self) -> nat {
        if 0 <= self.candidate <= self.limit() && self.page_size > 0 {
            ((self.limit() - self.candidate) / self.page_size + 1) as nat
        } else {
            0
        }
    }

    /// The judgement on a mapping attempt that ended at `mapped`.
    pub open spec fn verdict(self, mapped: Option<u64>) -> JitVerdict {
        match mapped {
            Some(address) => if in_window(self.reference, self.max_range, address as int) {
                JitVerdict::Accept(address)
            } else {
                JitVerdict::Release(address)
            },
            None => JitVerdict::Retry,
        }
    }

    /// The search after a mapping attempt: unchanged once a block is accepted,
    /// one page further otherwise.
    pub open spec fn after(self, mapped: Option<u64>) -> JitSearchView {
        if self.verdict(mapped) is Accept {
            self
        } else {
            JitSearchView { candidate: self.candidate + self.page_size, ..self }
        }
    }

    /// The block that the search ends with when the mapping attempts end as
    /// `replies` say, one after the other: the first that lies inside the
    /// window, if the window is not used up before it comes.
    pub open spec fn outcome(self, replies: Seq<Option<u64>>) -> Option<u64>
        decreases replies.len(),
    {
        if replies.len() == 0 || self.next_hint() is None {
            None
        } else {
            match self.verdict(replies[0]) {
                JitVerdict::Accept(address) => Some(address),
                _ => self.after(replies[0]).outcome(replies.drop_first()),
            }
        }
    }
}

/// The search for a trampoline block within reach of a function.
pub struct JitSearch {
    reference: u64,
    max_range: u64,
    page_size: u64,
    candidate: u128,
}

impl View for JitSearch {
    type V = JitSearchView;

    closed spec fn view(&self) -> JitSearchView {
        JitSearchView {
            reference: self.reference as int,
            max_range: self.max_range as int,
            page_size: self.page_size as int,
            candidate: self.candidate as int,
        }
    }
}

impl JitSearch {
    #[verifier::type_invariant]
    spec fn well_formed(self) -> bool {
        &&& self.page_size > 0
        &&& self.candidate <= self.reference + self.max_range + self.page_size
    }

    /// Starts a search at the lower end of the window around `reference`, or at
    /// address 0 where the window reaches below it.
    pub fn new(reference: u64, max_range: u64, page_size: u64) -> (search: Self)
        requires
            page_size > 0,
        ensures
            search@ == (JitSearchView {
                reference: reference as int,
                max_range: max_range as int,
                page_size: page_size as int,
                candidate: if reference >= max_range {
                    reference - max_range
                } else {
                    0
                },
            }),
    {
        let start: u64 = if reference >= max_range {
            reference - max_range
        } else {
            0
        };
        JitSearch { reference, max_range, page_size, candidate: start as u128 }
    }

    /// The address at which to request the next mapping, or `None` once the
    /// window is used up: then no block within reach could be had.
    pub fn next_hint(&self) -> (hint: Option<u64>)
        ensures
            hint == self@.next_hint(),
            hint is Some <==> self@.attempts_left() > 0,
            self@.page_size > 0,
    {
        proof {
            use_type_invariant(self);
        }
        let window_end: u128 = self.reference as u128 + self.max_range as u128;
        let limit: u128 = if window_end <= u64::MAX as u128 {
            window_end
        } else {
            u64::MAX as u128
        };
        if self.candidate <= limit {
            proof {
                vstd::arithmetic::div_mod::lemma_div_pos_is_pos(
                    limit - self.candidate,
                    self.page_size as int,
                );
            }
            Some(self.candidate as u64)
        } else {
            None
        }
    }

    /// Judges a mapping that was requested at the current hint and ended at
    /// `mapped` (`None` where nothing was mapped). A block inside the window is
    /// accepted. Otherwise the search moves one page on, with one attempt
    /// fewer left.
    pub fn observe(&mut self, mapped: Option<u64>) -> (verdict: JitVerdict)
        requires
            old(self)@.next_hint() is Some,
        ensures
            verdict == old(self)@.verdict(mapped),
            final(self)@ == old(self)@.after(mapped),
            verdict matches JitVerdict::Accept(address) ==> in_window(
                old(self)@.reference,
                old(self)@.max_range,
                address as int,
            ),
            !(verdict is Accept) ==> final(self)@.attempts_left() + 1 == old(self)@.attempts_left(),
    {
        proof {
            use_type_invariant(&*self);
        }
        let low: u128 = if self.reference >= self.max_range {
            (self.reference - self.max_range) as u128
        } else {
            0
        };
        let high: u128 = self.reference as u128 + self.max_range as u128;
        match mapped {
            Some(address) => {
                if low <= address as u128 && address as u128 <= high {
                    return JitVerdict::Accept(address);
                }
                proof {
                    lemma_one_attempt_fewer(self@);
                }
                self.candidate = self.candidate + self.page_size as u128;
                JitVerdict::Release(address)
            },
            None => {
                proof {
                    lemma_one_attempt_fewer(self@);
                }
                self.candidate = self.candidate + self.page_size as u128;
                JitVerdict::Retry
            },
        }
    }
}

/// Moving one page on costs one attempt.
proof fn lemma_one_attempt_fewer(search: JitSearchView)
    requires
        search.page_size > 0,
        search.next_hint() is Some,
    ensures
        (JitSearchView { candidate: search.candidate + search.page_size, ..search }).attempts_left()
            + 1 == search.attempts_left(),
{
    let room = search.limit() - search.candidate;
    let page = search.page_size;
    if room >= page {
        vstd::arithmetic::div_mod::lemma_div_plus_one(room - page, page);
        vstd::arithmetic::div_mod::lemma_div_pos_is_pos(room - page, page);
    } else {
        vstd::arithmetic::div_mod::lemma_basic_div(room, page);
    }
}

/// Whatever the mapping attempts end in, a block that the search ends with
/// lies within `max_range` of the reference address.
pub proof fn lemma_outcome_in_window(search: JitSearchView, replies: Seq<Option<u64>>)
    ensures
        search.outcome(replies) matches Some(address) ==> in_window(
            search.reference,
            search.max_range,
            address as int,
        ),
    decreases replies.len(),
{
    if replies.len() > 0 && search.next_hint() is Some {
        if !(search.verdict(replies[0]) is Accept) {
            lemma_outcome_in_window(search.after(replies[0]), replies.drop_first());
        }
    }
}

/// Where no mapping attempt ends inside the window, the search ends without a
/// block: it never settles for one out of reach.
pub proof fn lemma_exhausted_window_fails(search: JitSearchView, replies: Seq<Option<u64>>)
    requires
        forall|i: int|
            0 <= i < replies.len() ==> (#[trigger] replies[i] matches Some(address) ==> !in_window(
                search.reference,
                search.max_range,
                address as int,
            )),
    ensures
        search.outcome(replies) is None,
    decreases replies.len(),
{
    if replies.len() > 0 && search.next_hint() is Some {
        let rest = replies.drop_first();
        assert forall|i: int| 0 <= i < rest.len() implies (#[trigger] rest[i] matches Some(
            address,
        ) ==> !in_window(search.reference, search.max_range, address as int)) by {
            assert(rest[i] == replies[i + 1]);
        }
        lemma_exhausted_window_fails(search.after(replies[0]), rest);
    }
}

/// The search asks for no more mappings than it has attempts left: with at
/// least that many replies, none of them inside the window, the window is used
/// up at the end.
pub proof fn lemma_search_ends(search: JitSearchView, replies: Seq<Option<u64>>)
    requires
        search.page_size > 0,
        replies.len() >= search.attempts_left(),
    ensures
        search.outcome(replies) is None ==> search.final_state(replies).next_hint() is None,
    decreases replies.len(),
{
    if replies.len() > 0 && search.next_hint() is Some {
        if !(search.verdict(replies[0]) is Accept) {
            lemma_one_attempt_fewer(search);
            lemma_search_ends(search.after(replies[0]), replies.drop_first());
        }
    }
}

impl JitSearchView {
    /// The search after the mapping attempts that `replies` describe, up to the
    /// first accepted block or the end of the window.
    pub open spec fn final_state(self, replies: Seq<Option<u64>>) -> JitSearchView
        decreases replies.len(),
    {
        if replies.len() == 0 || self.next_hint() is None || self.verdict(replies[0]) is Accept {
            self
        } else {
            self.after(replies[0]).final_state(replies.drop_first())
        }
    }
}

} // verus!
