//! Boot and MMU bring-up logic.
//!
//! This module holds the computational core of bring-up: construction of
//! the two-level boot page table, kernel image relocation, CPU identity
//! derivation, the image header record consumed by bootloaders, the early
//! hex formatter for the boot serial line, and the boot sequencing state
//! machines for the primary and the secondary CPUs.  The memory the real
//! hardware walks is modelled as plain vectors of descriptor words and
//! bytes; installing translation registers, barriers and the actual jump
//! are the caller's actions, taken after these functions have decided
//! exactly what to write and where to continue.

use vstd::bytes::spec_u64_to_le_bytes_open;
use vstd::prelude::*;

verus! {

/// Size in bytes of the statically reserved primary boot stack.
pub const BOOT_STACK_SIZE: usize = 0x40000;

/// Fixed offset that rebases physical/low addresses into the kernel's
/// high-half virtual window once translation is on.  The boot page table
/// encodes exactly this translation.
pub const PHYS_VIRT_OFFSET: u64 = 0xffff_0000_0000_0000;

/// Number of translation entries in one 4K table.
pub const TABLE_ENTRIES: usize = 512;

// Stage-1 VMSAv8-64 descriptor attribute constants.
//
// A block or table descriptor is the output address (bits 47:12) combined
// with attribute bits.  The attribute values below follow the VMSAv8-64
// long-descriptor format: bit 0 VALID, bit 1 selects table/page over
// block, bits 4:2 the MAIR attribute index (0 = device, 1 = normal),
// bits 9:8 shareability, bit 10 the access flag, bit 53 PXN and bit 54
// UXN.

/// Attributes of a valid device-memory block: VALID | AF | PXN | UXN,
/// MAIR index 0 (device), read/write, never executable.
pub const PTE_DEVICE_BLOCK_ATTRS: u64 = 0x0060_0000_0000_0401;

/// Attributes of a valid normal-memory block: VALID | attribute index 1
/// (normal) | inner shareable | AF | UXN; read/write and privileged
/// executable.
pub const PTE_NORMAL_BLOCK_ATTRS: u64 = 0x0040_0000_0000_0705;

/// Attributes of a next-level table descriptor: VALID | TABLE.
pub const PTE_TABLE_ATTRS: u64 = 0x3;

/// Mask selecting the output-address bits 47:12 of a descriptor.
pub const PTE_PADDR_MASK: u64 = 0x0000_ffff_ffff_f000;

/// Output-address field of a descriptor for physical address `paddr`.
pub open spec fn pte_paddr_bits(paddr: u64) -> u64 {
    paddr & PTE_PADDR_MASK
}

/// Descriptor pointing at a next-level table placed at `paddr`.
pub open spec fn pte_table_desc(paddr: u64) -> u64 {
    pte_paddr_bits(paddr) | PTE_TABLE_ATTRS
}

/// Read/write device-memory block descriptor covering `paddr`.
pub open spec fn pte_device_block_desc(paddr: u64) -> u64 {
    pte_paddr_bits(paddr) | PTE_DEVICE_BLOCK_ATTRS
}

/// Read/write/execute normal-memory block descriptor covering `paddr`.
pub open spec fn pte_normal_block_desc(paddr: u64) -> u64 {
    pte_paddr_bits(paddr) | PTE_NORMAL_BLOCK_ATTRS
}

/// A table of `TABLE_ENTRIES` empty descriptors.
pub open spec fn zero_table() -> Seq<u64> {
    Seq::new(TABLE_ENTRIES as nat, |i: int| 0u64)
}

/// Root-level contents after the builder ran over previous contents
/// `root`: slot 0 points at the next-level table, everything else keeps
/// what it held.
pub open spec fn built_root(root: Seq<u64>, next_paddr: u64) -> Seq<u64> {
    root.update(0, pte_table_desc(next_paddr))
}

/// Next-level contents after the builder ran over previous contents
/// `next`: slot 0 maps physical 0 as a device block, slots 1 to 3 map the
/// three following 1 GiB regions as normal memory, everything else keeps
/// what it held.
pub open spec fn built_next(next: Seq<u64>) -> Seq<u64> {
    next.update(0, pte_device_block_desc(0))
        .update(1, pte_normal_block_desc(0x4000_0000))
        .update(2, pte_normal_block_desc(0x8000_0000))
        .update(3, pte_normal_block_desc(0xC000_0000))
}

/// The two-level boot translation table: one root-level table whose slot
/// 0 points at one next-level table of gigabyte block mappings.
pub struct BootPageTable {
    root: Vec<u64>,
    next: Vec<u64>,
}

impl BootPageTable {
    /// Both levels hold exactly `TABLE_ENTRIES` descriptors.
    pub closed spec fn wf(&self) -> bool {
        &&& self.root@.len() == TABLE_ENTRIES
        &&& self.next@.len() == TABLE_ENTRIES
    }

    /// Root-level descriptor words.
    pub closed spec fn root_entries(&self) -> Seq<u64> {
        self.root@
    }

    /// Next-level descriptor words.
    pub closed spec fn next_entries(&self) -> Seq<u64> {
        self.next@
    }

    /// Reserves the backing memory of both levels, zeroed, as the kernel
    /// image's zero-initialised data section provides it.
    pub fn new() -> (pt: Self)
        ensures
            pt.wf(),
            pt.root_entries() == zero_table(),
            pt.next_entries() == zero_table(),
    {
        let mut root: Vec<u64> = Vec::new();
        let mut next: Vec<u64> = Vec::new();
        for i in 0..TABLE_ENTRIES
            invariant
                root@.len() == i,
                next@.len() == i,
                forall|j: int| 0 <= j < i ==> root@[j] == 0u64 && next@[j] == 0u64,
        {
            root.push(0);
            next.push(0);
        }
        proof {
            assert(root@ =~= zero_table());
            assert(next@ =~= zero_table());
        }
        BootPageTable { root, next }
    }

    /// Populates the table: root slot 0 points at the next-level table,
    /// whose physical address the caller supplies, and next-level slots 0
    /// to 3 map the first four gigabytes.  Writes the same values to the
    /// same slots on every invocation, so building twice over the same
    /// backing memory leaves a bit-identical table.
    pub fn init_boot_page_table(&mut self, next_paddr: u64)
        requires
            old(self).wf(),
        ensures
            final(self).wf(),
            final(self).root_entries() == built_root(old(self).root_entries(), next_paddr),
            final(self).next_entries() == built_next(old(self).next_entries()),
    {
        self.root.set(0, (next_paddr & PTE_PADDR_MASK) | PTE_TABLE_ATTRS);
        self.next.set(0, (0 & PTE_PADDR_MASK) | PTE_DEVICE_BLOCK_ATTRS);
        self.next.set(1, (0x4000_0000 & PTE_PADDR_MASK) | PTE_NORMAL_BLOCK_ATTRS);
        self.next.set(2, (0x8000_0000 & PTE_PADDR_MASK) | PTE_NORMAL_BLOCK_ATTRS);
        self.next.set(3, (0xC000_0000 & PTE_PADDR_MASK) | PTE_NORMAL_BLOCK_ATTRS);
    }

    /// One root-level descriptor word.
    pub fn root_entry(&self, i: usize) -> (r: u64)
        requires
            self.wf(),
            i < TABLE_ENTRIES,
        ensures
            r == self.root_entries()[i as int],
    {
        self.root[i]
    }

    /// One next-level descriptor word.
    pub fn next_entry(&self, i: usize) -> (r: u64)
        requires
            self.wf(),
            i < TABLE_ENTRIES,
        ensures
            r == self.next_entries()[i as int],
    {
        self.next[i]
    }
}

/// Building the boot page table is idempotent: running the builder over a
/// table it already built changes nothing.
pub proof fn lemma_boot_page_table_idempotent(root: Seq<u64>, next: Seq<u64>, next_paddr: u64)
    requires
        root.len() == TABLE_ENTRIES,
        next.len() == TABLE_ENTRIES,
    ensures
        built_root(built_root(root, next_paddr), next_paddr) == built_root(root, next_paddr),
        built_next(built_next(next)) == built_next(next),
{
    assert(built_root(built_root(root, next_paddr), next_paddr) =~= built_root(
        root,
        next_paddr,
    ));
    assert(built_next(built_next(next)) =~= built_next(next));
}

/// Built over fresh zeroed memory, the table maps physical 0 as device
/// memory and each of the three following 1 GiB regions as executable
/// normal memory, and no slot of either level besides root slot 0 and
/// next-level slots 0 to 3 is populated.
pub proof fn lemma_fresh_boot_page_table(next_paddr: u64)
    ensures
        built_root(zero_table(), next_paddr)[0] == pte_table_desc(next_paddr),
        forall|i: int|
            1 <= i < TABLE_ENTRIES ==> built_root(zero_table(), next_paddr)[i] == 0u64,
        built_next(zero_table())[0] == pte_device_block_desc(0),
        built_next(zero_table())[1] == pte_normal_block_desc(0x4000_0000),
        built_next(zero_table())[2] == pte_normal_block_desc(0x8000_0000),
        built_next(zero_table())[3] == pte_normal_block_desc(0xC000_0000),
        forall|i: int| 4 <= i < TABLE_ENTRIES ==> built_next(zero_table())[i] == 0u64,
{
}

/// What the relocator decided: where execution continues, the preserved
/// boot argument, and whether the image was copied.  After a copy the
/// caller must flush the instruction cache and issue barriers before it
/// jumps, and the jump discards the old stack.
pub struct RelocateOutcome {
    /// Address execution continues at.
    pub entry: usize,
    /// The boot argument, handed on unchanged.
    pub boot_arg: u64,
    /// Whether the image bytes were copied to a new load address.
    pub copied: bool,
}

/// Relocates the kernel image inside physical memory `mem` from
/// `current` to `target`, both `size` bytes.  Equal addresses are a
/// no-op: nothing is copied and execution continues in place.  Otherwise
/// every image byte is copied to the target region, the rest of memory is
/// untouched, and execution continues at `target`.  The regions must not
/// overlap; the boot argument rides through unchanged either way.
pub fn relocate(
    mem: &mut Vec<u8>,
    current: usize,
    size: usize,
    target: usize,
    boot_arg: u64,
) -> (r: RelocateOutcome)
    requires
        current + size <= old(mem)@.len(),
        target + size <= old(mem)@.len(),
        target != current ==> current + size <= target || target + size <= current,
    ensures
        final(mem)@.len() == old(mem)@.len(),
        r.entry == target,
        r.boot_arg == boot_arg,
        r.copied == (target != current),
        target == current ==> final(mem)@ == old(mem)@,
        target != current ==> forall|i: int|
            0 <= i < size ==> #[trigger] final(mem)@[target + i] == old(mem)@[current + i],
        target != current ==> forall|k: int|
            0 <= k < old(mem)@.len() && !(target <= k < target + size)
                ==> #[trigger] final(mem)@[k] == old(mem)@[k],
{
    if target == current {
        return RelocateOutcome { entry: target, boot_arg, copied: false };
    }
    let mem_len = mem.len();
    for i in 0..size
        invariant
            mem@.len() == mem_len,
            current + size <= mem@.len(),
            target + size <= mem@.len(),
            current + size <= target || target + size <= current,
            target != current,
            mem@.len() == old(mem)@.len(),
            forall|j: int| 0 <= j < i ==> #[trigger] mem@[target + j] == old(mem)@[current + j],
            forall|k: int|
                0 <= k < mem@.len() && !(target <= k < target + i)
                    ==> #[trigger] mem@[k] == old(mem)@[k],
    {
        let byte = mem[current + i];
        mem.set(target + i, byte);
    }
    RelocateOutcome { entry: target, boot_arg, copied: true }
}

/// Current CPU identity: the low 24 affinity bits of the multiprocessor
/// affinity register value, used only as an opaque identifier.
pub fn cpu_id_from_mpidr(mpidr: u64) -> (r: u64)
    ensures
        r == mpidr & 0xffffff,
{
    mpidr & 0xffffff
}

/// ASCII for one hexadecimal digit value, lower case.
pub open spec fn hex_digit(d: int) -> u8 {
    if d < 10 {
        (0x30 + d) as u8
    } else {
        (0x57 + d) as u8
    }
}

/// Hexadecimal digits of `n`, most significant first, no leading zeros;
/// empty for zero.
pub open spec fn hex_digits(n: nat) -> Seq<u8>
    decreases n,
{
    if n == 0 {
        Seq::empty()
    } else {
        hex_digits(n / 16).push(hex_digit((n % 16) as int))
    }
}

/// The byte sequence the boot serial line shows for `num`: a `0x` prefix,
/// the hexadecimal digits (a single zero for zero), and CR LF.
pub open spec fn spec_boot_usize_line(num: usize) -> Seq<u8> {
    seq![0x30u8, 0x78u8] + (if num == 0 {
        seq![0x30u8]
    } else {
        hex_digits(num as nat)
    }) + seq![0x0Du8, 0x0Au8]
}

/// Formats `num` exactly as the early boot console prints it.  The caller
/// sends the returned bytes to the serial port.
pub fn format_boot_usize(num: usize) -> (out: Vec<u8>)
    ensures
        out@ == spec_boot_usize_line(num),
{
    let mut out: Vec<u8> = Vec::new();
    out.push(0x30);
    out.push(0x78);
    if num == 0 {
        out.push(0x30);
    } else {
        let mut msg: Vec<u8> = Vec::new();
        let mut n = num;
        while n != 0
            invariant
                hex_digits(num as nat) == hex_digits(n as nat) + msg@.reverse(),
            decreases n,
        {
            let d: u8 = (n % 16) as u8;
            let ch: u8 = if d < 10 {
                0x30 + d
            } else {
                0x57 + d
            };
            proof {
                assert(ch == hex_digit((n % 16) as int));
                assert(hex_digits(n as nat) == hex_digits((n as nat) / 16).push(
                    hex_digit(((n as nat) % 16) as int),
                ));
                assert(msg@.push(ch).reverse() =~= seq![ch] + msg@.reverse());
                assert(hex_digits((n as nat) / 16) + msg@.push(ch).reverse() =~= hex_digits(
                    n as nat,
                ) + msg@.reverse());
                assert((n as nat) / 16 == (n / 16) as nat);
            }
            msg.push(ch);
            n = n / 16;
        }
        proof {
            assert(hex_digits(num as nat) =~= msg@.reverse());
        }
        let cnt = msg.len();
        for i in 0..cnt
            invariant
                cnt == msg@.len(),
                out@.len() == 2 + i,
                out@.subrange(0, 2) =~= seq![0x30u8, 0x78u8],
                out@.subrange(2, out@.len() as int) =~= msg@.reverse().take(i as int),
        {
            let ch = msg[cnt - 1 - i];
            proof {
                assert(msg@.reverse()[i as int] == msg@[cnt - 1 - i]);
                assert(out@.push(ch).subrange(2, out@.len() as int + 1) =~= msg@.reverse().take(
                    i + 1,
                ));
                assert(out@.push(ch).subrange(0, 2) =~= seq![0x30u8, 0x78u8]);
            }
            out.push(ch);
        }
        proof {
            assert(msg@.reverse().take(cnt as int) =~= msg@.reverse());
            assert(out@ =~= seq![0x30u8, 0x78u8] + hex_digits(num as nat));
        }
    }
    out.push(0x0D);
    out.push(0x0A);
    proof {
        assert(out@ =~= spec_boot_usize_line(num));
    }
    out
}

/// The label printed on the boot serial line for a stage number, to
/// tell boot phases apart in early output.
pub open spec fn spec_boot_stage_message(stage: usize) -> Seq<char> {
    if stage == 1 {
        "\r\n[EL2->EL1] before switch_to_el1\r\n"@
    } else if stage == 2 {
        "\r\n[EL1] after switch_to_el1\r\n"@
    } else if stage == 3 {
        "\r\n[EL1] after init_mmu\r\n"@
    } else if stage == 4 {
        "\r\n[EL2->EL1 secondary] before switch_to_el1\r\n"@
    } else {
        "\r\n[stage]\r\n"@
    }
}

/// The stage label the boot console prints for `stage`.
pub fn boot_stage_message(stage: usize) -> (s: &'static str)
    ensures
        s@ == spec_boot_stage_message(stage),
{
    match stage {
        1 => "\r\n[EL2->EL1] before switch_to_el1\r\n",
        2 => "\r\n[EL1] after switch_to_el1\r\n",
        3 => "\r\n[EL1] after init_mmu\r\n",
        4 => "\r\n[EL2->EL1 secondary] before switch_to_el1\r\n",
        _ => "\r\n[stage]\r\n",
    }
}

/// Image-header flags quad: little-endian kernel, 4K pages, loadable
/// anywhere in RAM.
pub const KERNEL_IMAGE_FLAGS: u64 = 0b1010;

/// The 64-byte kernel image header a bootloader reads at the start of the
/// image: the entry code quad, the image load offset (zero), the
/// effective image size, the flags quad, three reserved zero quads, the
/// 4-byte ASCII magic `ARM` followed by 0x64, and a reserved zero word,
/// all quads little-endian.
pub open spec fn spec_image_header(code: u64, image_size: u64) -> Seq<u8> {
    spec_u64_to_le_bytes_open(code) + spec_u64_to_le_bytes_open(0) + spec_u64_to_le_bytes_open(
        image_size,
    ) + spec_u64_to_le_bytes_open(KERNEL_IMAGE_FLAGS) + spec_u64_to_le_bytes_open(0)
        + spec_u64_to_le_bytes_open(0) + spec_u64_to_le_bytes_open(0) + seq![
        0x41u8,
        0x52u8,
        0x4Du8,
        0x64u8,
        0u8,
        0u8,
        0u8,
        0u8,
    ]
}

/// Appends the little-endian bytes of `x`.
fn push_u64_le(out: &mut Vec<u8>, x: u64)
    ensures
        final(out)@ == old(out)@ + spec_u64_to_le_bytes_open(x),
{
    out.push((x & 0xff) as u8);
    out.push(((x >> 8) & 0xff) as u8);
    out.push(((x >> 16) & 0xff) as u8);
    out.push(((x >> 24) & 0xff) as u8);
    out.push(((x >> 32) & 0xff) as u8);
    out.push(((x >> 40) & 0xff) as u8);
    out.push(((x >> 48) & 0xff) as u8);
    out.push(((x >> 56) & 0xff) as u8);
    proof {
        assert(out@ =~= old(out)@ + spec_u64_to_le_bytes_open(x));
    }
}

/// Builds the kernel image header record.  `code` is the quad holding the
/// two entry instructions; `image_size` is the distance between the
/// link-time start and end of the loaded image.
pub fn image_header(code: u64, image_size: u64) -> (h: Vec<u8>)
    ensures
        h@ == spec_image_header(code, image_size),
        h@.len() == 64,
{
    let mut h: Vec<u8> = Vec::new();
    push_u64_le(&mut h, code);
    push_u64_le(&mut h, 0);
    push_u64_le(&mut h, image_size);
    push_u64_le(&mut h, KERNEL_IMAGE_FLAGS);
    push_u64_le(&mut h, 0);
    push_u64_le(&mut h, 0);
    push_u64_le(&mut h, 0);
    h.push(0x41);
    h.push(0x52);
    h.push(0x4D);
    h.push(0x64);
    h.push(0);
    h.push(0);
    h.push(0);
    h.push(0);
    proof {
        assert(h@ =~= spec_image_header(code, image_size));
    }
    h
}

/// The strictly ordered stages a CPU passes through during bring-up.
/// No transition goes backward, and each stage is entered once per boot.
#[derive(Clone, Copy, Debug, PartialEq, Eq, Structural)]
pub enum BootStage {
    /// Entered from the bootloader or the CPU spin table.
    ResetEntry,
    /// The image sits at its intended load address.
    Relocated,
    /// The CPU identifier was derived from the affinity register.
    CpuIdDerived,
    /// The stack pointer was installed.
    StackAssigned,
    /// The exception level was lowered to the kernel's operating level.
    ExceptionLevelLowered,
    /// FP/SIMD traps were configured (or the step was skipped).
    FpEnabled,
    /// The boot page table was written in full.
    PageTableBuilt,
    /// Translation and caches are on.
    MmuEnabled,
    /// The stack pointer was rebased into the high half.
    StackRebased,
    /// Control was handed to the kernel's main entry point.
    HandoffDone,
}

/// Boot sequencing state machine of the primary CPU.  It pins the order
/// of the bring-up steps: each step requires the stage its predecessor
/// established, so no step can be skipped or reordered, and the values
/// saved at entry (boot argument, CPU identifier, stack pointer) ride
/// through to the handoff unchanged.
pub struct PrimaryBootSequencer {
    stage: BootStage,
    cpu_id: u64,
    boot_arg: u64,
    sp: u64,
    fp_on: bool,
    tt_root: u64,
}

impl PrimaryBootSequencer {
    /// Current stage.
    pub closed spec fn stage(&self) -> BootStage {
        self.stage
    }

    /// Derived CPU identifier.
    pub closed spec fn cpu_id(&self) -> u64 {
        self.cpu_id
    }

    /// Boot argument (device-tree pointer) saved at entry.
    pub closed spec fn boot_arg(&self) -> u64 {
        self.boot_arg
    }

    /// Current stack pointer.
    pub closed spec fn sp(&self) -> u64 {
        self.sp
    }

    /// Whether FP/SIMD was enabled.
    pub closed spec fn fp_on(&self) -> bool {
        self.fp_on
    }

    /// Physical address programmed as translation-table root.
    pub closed spec fn tt_root(&self) -> u64 {
        self.tt_root
    }

    /// Enters at reset with the boot argument register saved.
    pub fn start(boot_arg: u64) -> (s: Self)
        ensures
            s.stage() == BootStage::ResetEntry,
            s.boot_arg() == boot_arg,
    {
        PrimaryBootSequencer {
            stage: BootStage::ResetEntry,
            cpu_id: 0,
            boot_arg,
            sp: 0,
            fp_on: false,
            tt_root: 0,
        }
    }

    /// Records that the image sits at its load address, either because it
    /// already did or after the relocator copied it and re-entered.
    pub fn mark_relocated(&mut self)
        requires
            old(self).stage() == BootStage::ResetEntry,
        ensures
            final(self).stage() == BootStage::Relocated,
            unchanged_but_stage(*old(self), *final(self)),
    {
        self.stage = BootStage::Relocated;
    }

    /// Derives the CPU identifier from the affinity register value.
    pub fn derive_cpu_id(&mut self, mpidr: u64)
        requires
            old(self).stage() == BootStage::Relocated,
        ensures
            final(self).stage() == BootStage::CpuIdDerived,
            final(self).cpu_id() == mpidr & 0xffffff,
            final(self).boot_arg() == old(self).boot_arg(),
            final(self).sp() == old(self).sp(),
            final(self).fp_on() == old(self).fp_on(),
            final(self).tt_root() == old(self).tt_root(),
    {
        self.stage = BootStage::CpuIdDerived;
        self.cpu_id = cpu_id_from_mpidr(mpidr);
    }

    /// Installs the boot stack: the stack pointer starts at the top of
    /// the statically reserved region.
    pub fn assign_stack(&mut self, stack_base: u64)
        requires
            old(self).stage() == BootStage::CpuIdDerived,
            stack_base + BOOT_STACK_SIZE <= u64::MAX,
        ensures
            final(self).stage() == BootStage::StackAssigned,
            final(self).sp() == stack_base + BOOT_STACK_SIZE,
            final(self).cpu_id() == old(self).cpu_id(),
            final(self).boot_arg() == old(self).boot_arg(),
            final(self).fp_on() == old(self).fp_on(),
            final(self).tt_root() == old(self).tt_root(),
    {
        self.stage = BootStage::StackAssigned;
        self.sp = stack_base + (BOOT_STACK_SIZE as u64);
    }

    /// Records the switch to the kernel's exception level.
    pub fn lower_exception_level(&mut self)
        requires
            old(self).stage() == BootStage::StackAssigned,
        ensures
            final(self).stage() == BootStage::ExceptionLevelLowered,
            unchanged_but_stage(*old(self), *final(self)),
    {
        self.stage = BootStage::ExceptionLevelLowered;
    }

    /// Records FP/SIMD enablement; when the build-time capability is off
    /// the step is skipped, not failed.
    pub fn enable_fp(&mut self, fp_simd: bool)
        requires
            old(self).stage() == BootStage::ExceptionLevelLowered,
        ensures
            final(self).stage() == BootStage::FpEnabled,
            final(self).fp_on() == fp_simd,
            final(self).cpu_id() == old(self).cpu_id(),
            final(self).boot_arg() == old(self).boot_arg(),
            final(self).sp() == old(self).sp(),
            final(self).tt_root() == old(self).tt_root(),
    {
        self.stage = BootStage::FpEnabled;
        self.fp_on = fp_simd;
    }

    /// Builds the boot page table in place and records its root.
    pub fn build_page_table(&mut self, pt: &mut BootPageTable, root_paddr: u64, next_paddr: u64)
        requires
            old(self).stage() == BootStage::FpEnabled,
            old(pt).wf(),
        ensures
            final(self).stage() == BootStage::PageTableBuilt,
            final(self).tt_root() == root_paddr,
            final(pt).wf(),
            final(pt).root_entries() == built_root(old(pt).root_entries(), next_paddr),
            final(pt).next_entries() == built_next(old(pt).next_entries()),
            final(self).cpu_id() == old(self).cpu_id(),
            final(self).boot_arg() == old(self).boot_arg(),
            final(self).sp() == old(self).sp(),
            final(self).fp_on() == old(self).fp_on(),
    {
        pt.init_boot_page_table(next_paddr);
        self.stage = BootStage::PageTableBuilt;
        self.tt_root = root_paddr;
    }

    /// Records that translation registers were installed with the built
    /// table root and the MMU and caches were turned on.
    pub fn enable_mmu(&mut self)
        requires
            old(self).stage() == BootStage::PageTableBuilt,
        ensures
            final(self).stage() == BootStage::MmuEnabled,
            unchanged_but_stage(*old(self), *final(self)),
    {
        self.stage = BootStage::MmuEnabled;
    }

    /// Rebases the stack pointer into the high-half virtual window.
    pub fn rebase_stack(&mut self)
        requires
            old(self).stage() == BootStage::MmuEnabled,
            old(self).sp() + PHYS_VIRT_OFFSET <= u64::MAX,
        ensures
            final(self).stage() == BootStage::StackRebased,
            final(self).sp() == old(self).sp() + PHYS_VIRT_OFFSET,
            final(self).cpu_id() == old(self).cpu_id(),
            final(self).boot_arg() == old(self).boot_arg(),
            final(self).fp_on() == old(self).fp_on(),
            final(self).tt_root() == old(self).tt_root(),
    {
        self.stage = BootStage::StackRebased;
        self.sp = self.sp + PHYS_VIRT_OFFSET;
    }

    /// Terminal transition: hands the CPU identifier and the original
    /// boot argument to the kernel's main entry point.  The jump itself
    /// never returns; the caller performs it with the returned pair.
    pub fn handoff(&mut self) -> (r: (u64, u64))
        requires
            old(self).stage() == BootStage::StackRebased,
        ensures
            final(self).stage() == BootStage::HandoffDone,
            r.0 == old(self).cpu_id(),
            r.1 == old(self).boot_arg(),
    {
        self.stage = BootStage::HandoffDone;
        (self.cpu_id, self.boot_arg)
    }
}

/// Everything of a primary sequencer except the stage is unchanged.
pub open spec fn unchanged_but_stage(a: PrimaryBootSequencer, b: PrimaryBootSequencer) -> bool {
    &&& a.cpu_id() == b.cpu_id()
    &&& a.boot_arg() == b.boot_arg()
    &&& a.sp() == b.sp()
    &&& a.fp_on() == b.fp_on()
    &&& a.tt_root() == b.tt_root()
}

/// Boot sequencing state machine of a secondary CPU.  It receives its
/// stack pointer from its caller, performs no relocation and builds no
/// page table: it reuses the table the primary CPU built, which is
/// read-only by the time any secondary CPU runs.
pub struct SecondaryBootSequencer {
    stage: BootStage,
    cpu_id: u64,
    sp: u64,
    fp_on: bool,
    tt_root: u64,
}

impl SecondaryBootSequencer {
    /// Current stage.
    pub closed spec fn stage(&self) -> BootStage {
        self.stage
    }

    /// Derived CPU identifier.
    pub closed spec fn cpu_id(&self) -> u64 {
        self.cpu_id
    }

    /// Current stack pointer.
    pub closed spec fn sp(&self) -> u64 {
        self.sp
    }

    /// Whether FP/SIMD was enabled.
    pub closed spec fn fp_on(&self) -> bool {
        self.fp_on
    }

    /// Physical address programmed as translation-table root.
    pub closed spec fn tt_root(&self) -> u64 {
        self.tt_root
    }

    /// Enters with the pre-assigned stack pointer for this CPU.
    pub fn start(stack_ptr: u64) -> (s: Self)
        ensures
            s.stage() == BootStage::ResetEntry,
            s.sp() == stack_ptr,
    {
        SecondaryBootSequencer {
            stage: BootStage::ResetEntry,
            cpu_id: 0,
            sp: stack_ptr,
            fp_on: false,
            tt_root: 0,
        }
    }

    /// Derives the CPU identifier from the affinity register value.
    pub fn derive_cpu_id(&mut self, mpidr: u64)
        requires
            old(self).stage() == BootStage::ResetEntry,
        ensures
            final(self).stage() == BootStage::CpuIdDerived,
            final(self).cpu_id() == mpidr & 0xffffff,
            final(self).sp() == old(self).sp(),
            final(self).fp_on() == old(self).fp_on(),
            final(self).tt_root() == old(self).tt_root(),
    {
        self.stage = BootStage::CpuIdDerived;
        self.cpu_id = cpu_id_from_mpidr(mpidr);
    }

    /// Records the switch to the kernel's exception level.
    pub fn lower_exception_level(&mut self)
        requires
            old(self).stage() == BootStage::CpuIdDerived,
        ensures
            final(self).stage() == BootStage::ExceptionLevelLowered,
            final(self).cpu_id() == old(self).cpu_id(),
            final(self).sp() == old(self).sp(),
            final(self).fp_on() == old(self).fp_on(),
            final(self).tt_root() == old(self).tt_root(),
    {
        self.stage = BootStage::ExceptionLevelLowered;
    }

    /// Records FP/SIMD enablement, or its skip.
    pub fn enable_fp(&mut self, fp_simd: bool)
        requires
            old(self).stage() == BootStage::ExceptionLevelLowered,
        ensures
            final(self).stage() == BootStage::FpEnabled,
            final(self).fp_on() == fp_simd,
            final(self).cpu_id() == old(self).cpu_id(),
            final(self).sp() == old(self).sp(),
            final(self).tt_root() == old(self).tt_root(),
    {
        self.stage = BootStage::FpEnabled;
        self.fp_on = fp_simd;
    }

    /// Records that translation was enabled with the shared table root
    /// the primary CPU built.  The table is only read here.
    pub fn enable_mmu(&mut self, root_paddr: u64, pt: &BootPageTable)
        requires
            old(self).stage() == BootStage::FpEnabled,
            pt.wf(),
        ensures
            final(self).stage() == BootStage::MmuEnabled,
            final(self).tt_root() == root_paddr,
            final(self).cpu_id() == old(self).cpu_id(),
            final(self).sp() == old(self).sp(),
            final(self).fp_on() == old(self).fp_on(),
    {
        self.stage = BootStage::MmuEnabled;
        self.tt_root = root_paddr;
    }

    /// Rebases the stack pointer into the high-half virtual window.
    pub fn rebase_stack(&mut self)
        requires
            old(self).stage() == BootStage::MmuEnabled,
            old(self).sp() + PHYS_VIRT_OFFSET <= u64::MAX,
        ensures
            final(self).stage() == BootStage::StackRebased,
            final(self).sp() == old(self).sp() + PHYS_VIRT_OFFSET,
            final(self).cpu_id() == old(self).cpu_id(),
            final(self).fp_on() == old(self).fp_on(),
            final(self).tt_root() == old(self).tt_root(),
    {
        self.stage = BootStage::StackRebased;
        self.sp = self.sp + PHYS_VIRT_OFFSET;
    }

    /// Terminal transition: hands the CPU identifier to the kernel's
    /// secondary main entry point.
    pub fn handoff(&mut self) -> (r: u64)
        requires
            old(self).stage() == BootStage::StackRebased,
        ensures
            final(self).stage() == BootStage::HandoffDone,
            r == old(self).cpu_id(),
    {
        self.stage = BootStage::HandoffDone;
        self.cpu_id
    }
}

} // verus!
