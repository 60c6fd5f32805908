//! The transfer from supervisor mode into user mode.
//!
//! The processor changes instruction pointer, stack pointer, segment state and
//! privilege level in one step when it executes a trap return. What it loads is
//! a frame of five machine words on the stack. This module builds that frame
//! and the page span that has to be opened to user code; the kernel binary
//! pushes the words and executes the instruction.

use vstd::prelude::*;
use x86_64::structures::paging::{Page, PageTableFlags, Size4KiB};
use x86_64::VirtAddr;

verus! {

/// Address at which the user payload is placed and entered.
pub const USER_ENTRY: u64 = 0x4444_4444_0000;

/// Number of payload bytes copied to `USER_ENTRY`.
pub const PAYLOAD_LEN: usize = 0x100;

/// Size in bytes of the stack handed to user code.
pub const USER_STACK_SIZE: u64 = 4096 * 5;

/// Length in bytes of the region that is opened to user code.
pub const USER_REGION_LEN: u64 = 0x1000;

/// Size in bytes of a page.
pub const PAGE_SIZE: u64 = 4096;

/// The processor flag that enables maskable interrupts.
pub const INTERRUPT_FLAG: u64 = 0x200;

/// Mask of the requested privilege level in a segment selector.
pub const RPL_MASK: u16 = 3;

/// Requested privilege level of user code.
pub const USER_RPL: u16 = 3;

/// An address is canonical if bits 48 to 63 repeat bit 47.
pub open spec fn is_canonical(addr: u64) -> bool {
    addr < 0x8000_0000_0000 || addr >= 0xffff_8000_0000_0000
}

/// Whether `base + offset` is an address that the machine accepts.
pub open spec fn offset_is_canonical(base: u64, offset: u64) -> bool {
    &&& is_canonical(base)
    &&& base + offset <= u64::MAX
    &&& is_canonical((base + offset) as u64)
}

/// Start of the page that holds `addr`.
pub open spec fn page_floor(addr: u64) -> u64 {
    (addr - addr % PAGE_SIZE) as u64
}

/// Calls `x86_64::VirtAddr::try_new` and reports whether it accepted `addr`.
/// It accepts exactly the addresses whose upper sixteen bits are a sign
/// extension of bit 47.
#[verifier::external_body]
fn canonical(addr: u64) -> (accepted: bool)
    ensures
        accepted == is_canonical(addr),
{
    VirtAddr::try_new(addr).is_ok()
}

/// Calls `+` of `x86_64::VirtAddr` with a `u64`: a checked addition that
/// panics on overflow and on a sum that is not canonical.
#[verifier::external_body]
fn address_plus(base: u64, offset: u64) -> (sum: u64)
    requires
        offset_is_canonical(base, offset),
    ensures
        sum == base + offset,
{
    (VirtAddr::new(base) + offset).as_u64()
}

/// Calls `-` of `x86_64::VirtAddr` with a `u64`: a checked subtraction that
/// panics on underflow and on a difference that is not canonical.
#[verifier::external_body]
fn address_minus(base: u64, offset: u64) -> (difference: u64)
    requires
        is_canonical(base),
        offset <= base,
        is_canonical((base - offset) as u64),
    ensures
        difference == base - offset,
{
    (VirtAddr::new(base) - offset).as_u64()
}

/// Calls `x86_64::structures::paging::Page::containing_address` for 4 KiB
/// pages and returns the start address of the page: `addr` rounded down to a
/// multiple of the page size.
#[verifier::external_body]
fn containing_page(addr: u64) -> (start: u64)
    requires
        is_canonical(addr),
    ensures
        start == page_floor(addr),
{
    Page::<Size4KiB>::containing_address(VirtAddr::new(addr)).start_address().as_u64()
}

/// A protection flag of a page table entry.
#[derive(Clone, Copy, Debug, PartialEq, Eq, Structural)]
pub enum PageFlag {
    Present,
    Writable,
    UserAccessible,
}

impl PageFlag {
    /// The bit of the flag in a page table entry.
    pub open spec fn mask(self) -> u64 {
        match self {
            PageFlag::Present => 1,
            PageFlag::Writable => 2,
            PageFlag::UserAccessible => 4,
        }
    }
}

/// Calls `bits` on the constant of `x86_64::structures::paging::PageTableFlags`
/// that stands for `flag`: bit 0 for present, bit 1 for writable, bit 2 for
/// user accessible.
#[verifier::external_body]
fn flag_bits(flag: PageFlag) -> (bits: u64)
    ensures
        bits == flag.mask(),
{
    match flag {
        PageFlag::Present => PageTableFlags::PRESENT.bits(),
        PageFlag::Writable => PageTableFlags::WRITABLE.bits(),
        PageFlag::UserAccessible => PageTableFlags::USER_ACCESSIBLE.bits(),
    }
}

/// The pages of a region together with the protection they are to get.
#[derive(Clone, Copy, Debug, PartialEq, Eq, Structural)]
pub struct PageSpan {
    /// Start address of the first page.
    pub first_page: u64,
    /// Start address of the last page.
    pub last_page: u64,
    /// Bits of the page table flags to set on every page from the first to the
    /// last.
    pub flags: u64,
}

/// The span that `user_region` gives for a region that starts at `start`.
pub open spec fn user_span(start: u64) -> PageSpan {
    PageSpan {
        first_page: page_floor(start),
        last_page: page_floor((start + USER_REGION_LEN - 1) as u64),
        flags: 7,
    }
}

/// Protection of a page that user code may read and write: present, writable
/// and user accessible.
pub fn user_page_flags() -> (bits: u64)
    ensures
        bits == 7,
        bits == PageFlag::Present.mask() | PageFlag::Writable.mask()
            | PageFlag::UserAccessible.mask(),
{
    let present: u64 = flag_bits(PageFlag::Present);
    let writable: u64 = flag_bits(PageFlag::Writable);
    let user: u64 = flag_bits(PageFlag::UserAccessible);
    assert(1u64 | 2u64 | 4u64 == 7u64) by (bit_vector);
    present | writable | user
}

/// The pages that hold the `USER_REGION_LEN` bytes from `start` on, with the
/// flags that open them to user code.
///
/// There is a span exactly if `start` and the end of the region are canonical
/// addresses.
pub fn user_region(start: u64) -> (span: Option<PageSpan>)
    ensures
        span.is_some() == offset_is_canonical(start, USER_REGION_LEN),
        span.is_some() ==> span.unwrap() == user_span(start),
{
    if !canonical(start) {
        return None;
    }
    if start > u64::MAX - USER_REGION_LEN {
        return None;
    }
    if !canonical(start + USER_REGION_LEN) {
        return None;
    }
    let limit: u64 = address_plus(start, USER_REGION_LEN);
    let end: u64 = address_minus(limit, 1);
    let first_page: u64 = containing_page(start);
    let last_page: u64 = containing_page(end);
    Some(PageSpan { first_page, last_page, flags: user_page_flags() })
}

/// A span from `user_region` covers the region, and every page of it holds a
/// byte of the region.
pub proof fn lemma_user_span_covers_region(start: u64)
    requires
        offset_is_canonical(start, USER_REGION_LEN),
    ensures
        user_span(start).first_page % PAGE_SIZE == 0,
        user_span(start).last_page % PAGE_SIZE == 0,
        user_span(start).first_page <= start < user_span(start).first_page + PAGE_SIZE,
        user_span(start).last_page <= start + USER_REGION_LEN - 1 < user_span(start).last_page
            + PAGE_SIZE,
        user_span(start).last_page == user_span(start).first_page || user_span(start).last_page
            == user_span(start).first_page + PAGE_SIZE,
        start % PAGE_SIZE == 0 ==> user_span(start).last_page == user_span(start).first_page,
{
}

/// The code and data segment selectors of user mode, as the segment provider
/// hands them out: descriptor index and requested privilege level in one
/// word.
#[derive(Clone, Copy, Debug, PartialEq, Eq, Structural)]
pub struct UserSelectors {
    pub code: u16,
    pub data: u16,
}

impl UserSelectors {
    /// Whether both selectors request the user privilege level.
    pub open spec fn spec_request_user(&self) -> bool {
        self.code & RPL_MASK == USER_RPL && self.data & RPL_MASK == USER_RPL
    }

    /// Whether both selectors request the user privilege level. The processor
    /// rejects a trap return into user mode through any other selector.
    #[verifier::when_used_as_spec(spec_request_user)]
    pub fn request_user(&self) -> (user: bool)
        ensures
            user == self.spec_request_user(),
    {
        self.code & RPL_MASK == USER_RPL && self.data & RPL_MASK == USER_RPL
    }
}

/// A segment register that holds a data selector.
#[derive(Clone, Copy, Debug, PartialEq, Eq, Structural)]
pub enum SegmentRegister {
    Ds,
    Es,
    Fs,
    Gs,
}

/// One write of a selector to a segment register.
#[derive(Clone, Copy, Debug, PartialEq, Eq, Structural)]
pub struct SegmentLoad {
    pub register: SegmentRegister,
    pub selector: u16,
}

/// The five words that a trap return pops.
#[derive(Clone, Copy, Debug, PartialEq, Eq, Structural)]
pub struct TrapFrame {
    pub stack_segment: u64,
    pub stack_pointer: u64,
    pub flags: u64,
    pub code_segment: u64,
    pub instruction_pointer: u64,
}

impl TrapFrame {
    /// The words in the order in which they are pushed.
    pub open spec fn spec_words(&self) -> Seq<u64> {
        seq![
            self.stack_segment,
            self.stack_pointer,
            self.flags,
            self.code_segment,
            self.instruction_pointer,
        ]
    }

    /// The words in the order in which they are pushed: stack segment, stack
    /// pointer, flags, code segment, instruction pointer. The last one pushed
    /// is the first one the trap return pops.
    pub fn words(&self) -> (words: [u64; 5])
        ensures
            words@ == self.spec_words(),
    {
        let words: [u64; 5] = [
            self.stack_segment,
            self.stack_pointer,
            self.flags,
            self.code_segment,
            self.instruction_pointer,
        ];
        words
    }

    /// Whether the frame returns into user mode with interrupts enabled: both
    /// segment words request the user privilege level and the interrupt flag is
    /// set.
    pub open spec fn spec_targets_user(&self) -> bool {
        &&& self.stack_segment & 3 == 3
        &&& self.code_segment & 3 == 3
        &&& self.flags & INTERRUPT_FLAG == INTERRUPT_FLAG
    }

    /// Whether the frame returns into user mode with interrupts enabled.
    #[verifier::when_used_as_spec(spec_targets_user)]
    pub fn targets_user(&self) -> (user: bool)
        ensures
            user == self.spec_targets_user(),
    {
        self.stack_segment & 3 == 3 && self.code_segment & 3 == 3 && self.flags & INTERRUPT_FLAG
            == INTERRUPT_FLAG
    }
}

/// Everything the processor is given for one entry into user mode.
#[derive(Clone, Copy, Debug)]
pub struct Transition {
    /// The segment registers to load before the frame is pushed, in order.
    pub segment_loads: [SegmentLoad; 4],
    /// The frame to push directly before the trap return.
    pub frame: TrapFrame,
}

/// The segment loads of a transition with data selector `data`.
pub open spec fn user_segment_loads(data: u16) -> Seq<SegmentLoad> {
    seq![
        SegmentLoad { register: SegmentRegister::Ds, selector: data },
        SegmentLoad { register: SegmentRegister::Es, selector: data },
        SegmentLoad { register: SegmentRegister::Fs, selector: data },
        SegmentLoad { register: SegmentRegister::Gs, selector: data },
    ]
}

/// The frame of a transition to `entry_address` on the stack below
/// `user_stack_top`.
pub open spec fn user_frame(
    entry_address: u64,
    user_stack_top: u64,
    selectors: UserSelectors,
    current_flags: u64,
) -> TrapFrame {
    TrapFrame {
        stack_segment: selectors.data as u64,
        stack_pointer: user_stack_top,
        flags: current_flags | INTERRUPT_FLAG,
        code_segment: selectors.code as u64,
        instruction_pointer: entry_address,
    }
}

/// Plans the entry into user code at `entry_address` with the stack pointer at
/// `user_stack_top`.
///
/// All four data segment registers get the user data selector. The frame
/// holds the user data selector as stack segment, the stack top, the current
/// flags with the interrupt flag set, the user code selector and the entry
/// address. The frame returns into user mode exactly if both selectors
/// request the user privilege level.
pub fn enter_user(
    entry_address: u64,
    user_stack_top: u64,
    selectors: UserSelectors,
    current_flags: u64,
) -> (transition: Transition)
    ensures
        transition.segment_loads@ == user_segment_loads(selectors.data),
        transition.frame == user_frame(entry_address, user_stack_top, selectors, current_flags),
        transition.frame.spec_targets_user() == selectors.spec_request_user(),
{
    let data: u16 = selectors.data;
    let code: u16 = selectors.code;
    let segment_loads: [SegmentLoad; 4] = [
        SegmentLoad { register: SegmentRegister::Ds, selector: data },
        SegmentLoad { register: SegmentRegister::Es, selector: data },
        SegmentLoad { register: SegmentRegister::Fs, selector: data },
        SegmentLoad { register: SegmentRegister::Gs, selector: data },
    ];
    let frame = TrapFrame {
        stack_segment: data as u64,
        stack_pointer: user_stack_top,
        flags: current_flags | INTERRUPT_FLAG,
        code_segment: code as u64,
        instruction_pointer: entry_address,
    };
    proof {
        lemma_user_frame_targets_user(entry_address, user_stack_top, selectors, current_flags);
    }
    Transition { segment_loads, frame }
}

/// The frame built from user selectors returns into user mode with interrupts
/// enabled, whatever the flags were before; from any other selectors it does
/// not.
pub proof fn lemma_user_frame_targets_user(
    entry_address: u64,
    user_stack_top: u64,
    selectors: UserSelectors,
    current_flags: u64,
)
    ensures
        user_frame(entry_address, user_stack_top, selectors, current_flags).spec_targets_user()
            == selectors.spec_request_user(),
        user_frame(entry_address, user_stack_top, selectors, current_flags).flags
            & INTERRUPT_FLAG == INTERRUPT_FLAG,
{
    let code: u16 = selectors.code;
    let data: u16 = selectors.data;
    assert(((code as u64) & 3 == 3) == (code & 3 == 3)) by (bit_vector);
    assert(((data as u64) & 3 == 3) == (data & 3 == 3)) by (bit_vector);
    assert((current_flags | 0x200) & 0x200 == 0x200) by (bit_vector);
}

/// Plans the entry into the payload at `USER_ENTRY` on the stack of
/// `USER_STACK_SIZE` bytes that starts at `stack_start`. The stack pointer
/// starts at the end of that stack.
///
/// There is a plan exactly if the stack's start and end are canonical
/// addresses.
pub fn jump_to_user(stack_start: u64, selectors: UserSelectors, current_flags: u64) -> (transition:
    Option<Transition>)
    ensures
        transition.is_some() == offset_is_canonical(stack_start, USER_STACK_SIZE),
        transition.is_some() ==> {
            let t = transition.unwrap();
            &&& t.segment_loads@ == user_segment_loads(selectors.data)
            &&& t.frame == user_frame(
                USER_ENTRY,
                (stack_start + USER_STACK_SIZE) as u64,
                selectors,
                current_flags,
            )
            &&& t.frame.spec_targets_user() == selectors.spec_request_user()
        },
{
    if !canonical(stack_start) {
        return None;
    }
    if stack_start > u64::MAX - USER_STACK_SIZE {
        return None;
    }
    if !canonical(stack_start + USER_STACK_SIZE) {
        return None;
    }
    let stack_end: u64 = address_plus(stack_start, USER_STACK_SIZE);
    Some(enter_user(USER_ENTRY, stack_end, selectors, current_flags))
}

} // verus!
