//! The descriptor table shared by all cores, each core's task-state record, and
//! the statically reserved per-core stacks.
use vstd::prelude::*;
use x86_64::registers::segmentation::SegmentSelector;
use x86_64::PrivilegeLevel;

verus! {

/// Most cores the tables are built for.
pub const MAX_CPUS: usize = 9;

/// Bytes of each core's kernel stack.
pub const KERNEL_STACK_SIZE: usize = 1000 * 1024;

/// Bytes of each core's double-fault stack.
pub const DF_STACK_SIZE: usize = 16 * 1024;

/// Alignment of a stack top.
pub const STACK_ALIGN: u64 = 16;

/// Interrupt-stack-table slot of the double-fault handler.
pub const DOUBLE_FAULT_IST_INDEX: u16 = 0;

/// Slots of the shared descriptor table, the null slot included.
pub const GDT_CAPACITY: usize = 32;

/// Relies on x86_64's `SegmentSelector::new` at privilege level 0: the selector
/// of table slot `index` is `index << 3`.
#[verifier::external_body]
fn ring0_selector(index: u16) -> (r: u16)
    requires
        index < 8192,
    ensures
        r == index * 8,
{
    SegmentSelector::new(index, PrivilegeLevel::Ring0).0
}

/// One entry of the shared descriptor table.
#[derive(PartialEq, Eq, Structural, Debug, Clone, Copy)]
pub enum Descriptor {
    KernelCode,
    KernelData,
    /// The task-state segment of core `core`; it takes two slots.
    TaskState { core: usize },
}

/// Slots that a descriptor takes in the table.
pub open spec fn slots_of(d: Descriptor) -> nat {
    match d {
        Descriptor::TaskState { .. } => 2,
        _ => 1,
    }
}

/// Selector of the task-state segment of core `i` in a table laid out as code,
/// data, then one task-state segment per core.
pub open spec fn tss_selector(i: int) -> u16 {
    ((3 + 2 * i) * 8) as u16
}

/// Selector of the kernel code segment.
pub const KERNEL_CODE_SELECTOR: u16 = 8;

/// Selector of the kernel data segment.
pub const KERNEL_DATA_SELECTOR: u16 = 16;

/// The per-core task-state record: the stacks the processor switches to.
#[derive(Debug, Clone, Copy)]
pub struct TaskState {
    pub privilege_stack_table: [u64; 3],
    pub interrupt_stack_table: [u64; 7],
}

impl TaskState {
    /// A record with every stack slot zero.
    pub fn new() -> (r: TaskState)
        ensures
            forall|i: int| 0 <= i < 3 ==> r.privilege_stack_table@[i] == 0,
            forall|i: int| 0 <= i < 7 ==> r.interrupt_stack_table@[i] == 0,
    {
        TaskState { privilege_stack_table: [0u64; 3], interrupt_stack_table: [0u64; 7] }
    }
}

/// Layout of the shared table for `n` cores: code, data, then one task-state
/// segment per core in core order.
pub open spec fn gdt_layout(n: nat) -> Seq<Descriptor> {
    seq![Descriptor::KernelCode, Descriptor::KernelData] + Seq::new(
        n,
        |i: int| Descriptor::TaskState { core: i as usize },
    )
}

/// The table laid out for `n` cores holds exactly `n` task-state descriptors,
/// one per core in core order, after the code and data descriptors.
pub proof fn lemma_layout_has_one_task_state_per_core(n: nat)
    ensures
        gdt_layout(n).len() == n + 2,
        gdt_layout(n)[0] == Descriptor::KernelCode,
        gdt_layout(n)[1] == Descriptor::KernelData,
        forall|i: int| 0 <= i < n ==> #[trigger] gdt_layout(n)[i + 2] == (Descriptor::TaskState { core: i as usize }),
        forall|i: int| 0 <= i < n + 2 ==> ((#[trigger] gdt_layout(n)[i]) is TaskState <==> i >= 2),
{
    let l = gdt_layout(n);
    assert forall|i: int| 0 <= i < n implies #[trigger] gdt_layout(n)[i + 2] == (Descriptor::TaskState { core: i as usize }) by {
        assert(l[i + 2] == Seq::new(n, |k: int| Descriptor::TaskState { core: k as usize })[i]);
    }
    assert forall|i: int| 0 <= i < n + 2 implies ((#[trigger] gdt_layout(n)[i]) is TaskState <==> i >= 2) by {
        if i >= 2 {
            assert(l[i] == Seq::new(n, |k: int| Descriptor::TaskState { core: k as usize })[i - 2]);
        }
    }
}

/// The shared descriptor table together with each core's task-state record and
/// selector.
pub struct DescriptorTables {
    gdt: Vec<Descriptor>,
    gdt_slots: usize,
    tss: Vec<TaskState>,
    tss_selectors: Vec<u16>,
}

/// Appends `d` to a table that uses `slots` slots and returns its selector,
/// as a table with `GDT_CAPACITY` slots does.
fn append(gdt: &mut Vec<Descriptor>, slots: &mut usize, d: Descriptor) -> (sel: u16)
    requires
        1 <= *old(slots),
        *old(slots) + slots_of(d) <= GDT_CAPACITY,
    ensures
        final(gdt)@ == old(gdt)@.push(d),
        *final(slots) == *old(slots) + slots_of(d),
        sel == *old(slots) * 8,
{
    let index = *slots;
    gdt.push(d);
    match d {
        Descriptor::TaskState { .. } => {
            *slots = index + 2;
        },
        _ => {
            *slots = index + 1;
        },
    }
    ring0_selector(index as u16)
}

impl DescriptorTables {
    /// Descriptors of the shared table, the null slot left out.
    pub closed spec fn descriptors(&self) -> Seq<Descriptor> {
        self.gdt@
    }

    /// Slots of the shared table in use, the null slot included.
    pub closed spec fn slots(&self) -> nat {
        self.gdt_slots as nat
    }

    /// Task-state record of each core.
    pub closed spec fn task_states(&self) -> Seq<TaskState> {
        self.tss@
    }

    /// Task-state selector of each core.
    pub closed spec fn selectors(&self) -> Seq<u16> {
        self.tss_selectors@
    }

    /// Number of cores the tables were built for.
    pub open spec fn core_count(&self) -> nat {
        self.task_states().len()
    }

    pub open spec fn wf(&self) -> bool {
        &&& self.core_count() <= MAX_CPUS
        &&& self.selectors().len() == self.core_count()
        &&& self.descriptors() == gdt_layout(self.core_count())
        &&& self.slots() == 3 + 2 * self.core_count()
        &&& forall|i: int| 0 <= i < self.core_count() ==> #[trigger] self.selectors()[i] == tss_selector(i)
    }

    /// Builds the tables for `num_cpus` cores: a fresh task-state record for each,
    /// and one table holding code, data and a task-state segment per core. The
    /// table is then loaded on the calling core, whose registers are `regs`.
    pub fn init_percpu_gdt(num_cpus: usize, regs: &mut CoreRegisters) -> (r: Self)
        requires
            num_cpus <= MAX_CPUS,
        ensures
            r.wf(),
            *final(regs) == r.with_gdt_loaded(*old(regs)),
            r.core_count() == num_cpus,
            forall|i: int, j: int| 0 <= i < num_cpus && 0 <= j < 3 ==>
                #[trigger] r.task_states()[i].privilege_stack_table@[j] == 0,
            forall|i: int, j: int| 0 <= i < num_cpus && 0 <= j < 7 ==>
                #[trigger] r.task_states()[i].interrupt_stack_table@[j] == 0,
    {
        let mut tss: Vec<TaskState> = Vec::new();
        let mut i: usize = 0;
        while i < num_cpus
            invariant
                i <= num_cpus <= MAX_CPUS,
                tss@.len() == i,
                forall|k: int, j: int| 0 <= k < i && 0 <= j < 3 ==>
                    #[trigger] tss@[k].privilege_stack_table@[j] == 0,
                forall|k: int, j: int| 0 <= k < i && 0 <= j < 7 ==>
                    #[trigger] tss@[k].interrupt_stack_table@[j] == 0,
            decreases num_cpus - i,
        {
            tss.push(TaskState::new());
            i = i + 1;
        }
        let mut gdt: Vec<Descriptor> = Vec::new();
        let mut slots: usize = 1;
        let _code = append(&mut gdt, &mut slots, Descriptor::KernelCode);
        let _data = append(&mut gdt, &mut slots, Descriptor::KernelData);
        let mut selectors: Vec<u16> = Vec::new();
        let mut c: usize = 0;
        while c < num_cpus
            invariant
                c <= num_cpus <= MAX_CPUS,
                slots == 3 + 2 * c,
                gdt@ == gdt_layout(c as nat),
                selectors@.len() == c,
                forall|k: int| 0 <= k < c ==> #[trigger] selectors@[k] == tss_selector(k),
            decreases num_cpus - c,
        {
            let sel = append(&mut gdt, &mut slots, Descriptor::TaskState { core: c });
            selectors.push(sel);
            assert(gdt@ =~= gdt_layout((c + 1) as nat));
            c = c + 1;
        }
        let tables = DescriptorTables { gdt, gdt_slots: slots, tss, tss_selectors: selectors };
        tables.load_gdt(regs);
        tables
    }

    /// How many cores the tables were built for.
    pub fn initialized_cpus(&self) -> (r: usize)
        ensures
            r == self.core_count(),
    {
        self.tss.len()
    }

    /// Descriptors of the shared table in slot order, the null slot left out.
    pub fn descriptors_in_order(&self) -> (r: Vec<Descriptor>)
        ensures
            r@ == self.descriptors(),
    {
        let mut r: Vec<Descriptor> = Vec::new();
        let mut i: usize = 0;
        while i < self.gdt.len()
            invariant
                i <= self.gdt@.len(),
                r@ == self.gdt@.take(i as int),
            decreases self.gdt@.len() - i,
        {
            r.push(self.gdt[i]);
            assert(r@ =~= self.gdt@.take(i + 1));
            i = i + 1;
        }
        assert(self.gdt@.take(i as int) =~= self.gdt@);
        r
    }

    /// Task-state record of core `i`.
    pub fn task_state(&self, i: usize) -> (r: TaskState)
        requires
            i < self.core_count(),
        ensures
            r == self.task_states()[i as int],
    {
        self.tss[i]
    }

    /// Task-state selector of core `i`.
    pub fn tss_selector_of(&self, i: usize) -> (r: u16)
        requires
            self.wf(),
            i < self.core_count(),
        ensures
            r == tss_selector(i as int),
    {
        self.tss_selectors[i]
    }

    /// Sets the stack that core `cpu_index` switches to on entering the kernel.
    pub fn set_stack_for_cpu(&mut self, cpu_index: usize, stack_top: u64)
        requires
            old(self).wf(),
            cpu_index < old(self).core_count(),
        ensures
            final(self).wf(),
            final(self).core_count() == old(self).core_count(),
            final(self).task_states()[cpu_index as int].privilege_stack_table@ == old(
                self,
            ).task_states()[cpu_index as int].privilege_stack_table@.update(0, stack_top),
            final(self).task_states()[cpu_index as int].interrupt_stack_table@ == old(
                self,
            ).task_states()[cpu_index as int].interrupt_stack_table@,
            forall|j: int| 0 <= j < old(self).core_count() && j != cpu_index ==>
                #[trigger] final(self).task_states()[j] == old(self).task_states()[j],
    {
        let mut t = self.tss[cpu_index];
        t.privilege_stack_table[0] = stack_top;
        self.tss.set(cpu_index, t);
    }

    /// Sets slot `ist_index` of core `cpu_index`'s interrupt stack table.
    pub fn set_ist_for_cpu(&mut self, cpu_index: usize, ist_index: usize, ist_top: u64)
        requires
            old(self).wf(),
            cpu_index < old(self).core_count(),
            ist_index < 7,
        ensures
            final(self).wf(),
            final(self).core_count() == old(self).core_count(),
            final(self).task_states()[cpu_index as int].interrupt_stack_table@ == old(
                self,
            ).task_states()[cpu_index as int].interrupt_stack_table@.update(ist_index as int, ist_top),
            final(self).task_states()[cpu_index as int].privilege_stack_table@ == old(
                self,
            ).task_states()[cpu_index as int].privilege_stack_table@,
            forall|j: int| 0 <= j < old(self).core_count() && j != cpu_index ==>
                #[trigger] final(self).task_states()[j] == old(self).task_states()[j],
    {
        let mut t = self.tss[cpu_index];
        t.interrupt_stack_table[ist_index] = ist_top;
        self.tss.set(cpu_index, t);
    }
}

/// Where the statically reserved stacks lie: `MAX_CPUS` kernel stacks of
/// `KERNEL_STACK_SIZE` bytes from `kernel_base` on, and `MAX_CPUS`
/// double-fault stacks of `DF_STACK_SIZE` bytes from `df_base` on.
#[derive(PartialEq, Eq, Structural, Debug, Clone, Copy)]
pub struct StackLayout {
    pub kernel_base: u64,
    pub df_base: u64,
}

impl StackLayout {
    /// Both arrays fit below the top of the address space and the kernel
    /// stacks start 16-byte aligned.
    pub open spec fn wf(&self) -> bool {
        &&& self.kernel_base % 16 == 0
        &&& self.kernel_base + MAX_CPUS * KERNEL_STACK_SIZE <= u64::MAX
        &&& self.df_base + MAX_CPUS * DF_STACK_SIZE <= u64::MAX
    }

    /// Lowest address of core `i`'s kernel stack.
    pub open spec fn kernel_region_start(&self, i: int) -> int {
        self.kernel_base + i * KERNEL_STACK_SIZE
    }

    /// Lowest address of core `i`'s double-fault stack.
    pub open spec fn df_region_start(&self, i: int) -> int {
        self.df_base + i * DF_STACK_SIZE
    }

    /// Top of core `i`'s kernel stack: the end of its region.
    pub open spec fn kernel_top(&self, i: int) -> int {
        self.kernel_region_start(i) + KERNEL_STACK_SIZE
    }

    /// Top of core `i`'s double-fault stack: the end of its region, rounded
    /// down to 16 bytes.
    pub open spec fn df_top(&self, i: int) -> int {
        let end = self.df_region_start(i) + DF_STACK_SIZE;
        end - end % 16
    }
}

/// Top of core `cpu_index`'s kernel stack.
pub fn kernel_stack_top(layout: &StackLayout, cpu_index: usize) -> (r: u64)
    requires
        layout.wf(),
        cpu_index < MAX_CPUS,
    ensures
        r == layout.kernel_top(cpu_index as int),
{
    let base = layout.kernel_base + (cpu_index as u64) * (KERNEL_STACK_SIZE as u64);
    base + KERNEL_STACK_SIZE as u64
}

/// Top of core `cpu_index`'s double-fault stack, 16-byte aligned.
pub fn df_stack_top_for(layout: &StackLayout, cpu_index: usize) -> (r: u64)
    requires
        layout.wf(),
        cpu_index < MAX_CPUS,
    ensures
        r == layout.df_top(cpu_index as int),
{
    let base = layout.df_base + (cpu_index as u64) * (DF_STACK_SIZE as u64);
    let top = base + DF_STACK_SIZE as u64;
    let aligned = top & !(STACK_ALIGN - 1);
    assert(top & !15u64 == top - top % 16) by (bit_vector);
    aligned
}

/// Every core's stack tops lie in that core's own reserved regions (a top is
/// the end of its region at most) and are 16-byte aligned.
pub proof fn lemma_stack_tops_in_regions(layout: StackLayout, i: int)
    requires
        layout.wf(),
        0 <= i < MAX_CPUS,
    ensures
        layout.kernel_region_start(i) < layout.kernel_top(i) <= layout.kernel_region_start(i)
            + KERNEL_STACK_SIZE,
        layout.kernel_top(i) % 16 == 0,
        layout.df_region_start(i) < layout.df_top(i) <= layout.df_region_start(i) + DF_STACK_SIZE,
        layout.df_top(i) % 16 == 0,
{
    let end = layout.df_region_start(i) + DF_STACK_SIZE;
    assert((end - end % 16) % 16 == 0) by {
        vstd::arithmetic::div_mod::lemma_fundamental_div_mod(end, 16);
        vstd::arithmetic::div_mod::lemma_fundamental_div_mod_converse(end - end % 16, 16, end / 16, 0);
    }
    let kb = layout.kernel_base as int;
    assert((kb + i * KERNEL_STACK_SIZE + KERNEL_STACK_SIZE) % 16 == 0) by {
        vstd::arithmetic::div_mod::lemma_fundamental_div_mod(kb, 16);
        vstd::arithmetic::div_mod::lemma_fundamental_div_mod_converse(
            kb + i * KERNEL_STACK_SIZE + KERNEL_STACK_SIZE,
            16,
            kb / 16 + (i + 1) * 64000,
            0,
        );
    }
}

/// What the boot core sets up before it releases the other cores.
pub struct BootPlan {
    /// The tables, with every core's kernel stack and double-fault stack set.
    pub tables: DescriptorTables,
    /// Kernel stack top to publish to each core, in core order.
    pub stack_tops: Vec<u64>,
    /// Cores to release, in order: all but the boot core.
    pub released: Vec<usize>,
}

/// Bring-up of `num_cpus` cores: builds the tables, gives every core its kernel
/// stack and its double-fault stack, and lists the stack top to publish to each
/// core and the cores to release afterwards (every one but the boot core, 0).
/// The boot core, whose registers are `regs`, ends with the shared table and
/// its own task-state segment loaded.
pub fn init_gdt(num_cpus: usize, layout: &StackLayout, regs: &mut CoreRegisters) -> (r: BootPlan)
    requires
        0 < num_cpus <= MAX_CPUS,
        layout.wf(),
    ensures
        *final(regs) == r.tables.with_tss_loaded(r.tables.with_gdt_loaded(*old(regs)), 0),
        r.tables.wf(),
        r.tables.core_count() == num_cpus,
        r.tables.descriptors() == gdt_layout(num_cpus as nat),
        forall|i: int| 0 <= i < num_cpus ==> {
            &&& #[trigger] r.tables.task_states()[i].privilege_stack_table@[0] == layout.kernel_top(i)
            &&& r.tables.task_states()[i].interrupt_stack_table@[DOUBLE_FAULT_IST_INDEX as int]
                == layout.df_top(i)
        },
        r.stack_tops@ == Seq::new(num_cpus as nat, |i: int| layout.kernel_top(i) as u64),
        r.released@ == Seq::new((num_cpus - 1) as nat, |j: int| (j + 1) as usize),
{
    let mut tables = DescriptorTables::init_percpu_gdt(num_cpus, regs);
    let mut i: usize = 0;
    while i < num_cpus
        invariant
            i <= num_cpus <= MAX_CPUS,
            layout.wf(),
            tables.wf(),
            tables.core_count() == num_cpus,
            forall|k: int| 0 <= k < i ==> {
                &&& #[trigger] tables.task_states()[k].privilege_stack_table@[0] == layout.kernel_top(k)
                &&& tables.task_states()[k].interrupt_stack_table@[DOUBLE_FAULT_IST_INDEX as int]
                    == layout.df_top(k)
            },
        decreases num_cpus - i,
    {
        let top = kernel_stack_top(layout, i);
        tables.set_stack_for_cpu(i, top);
        let df_top = df_stack_top_for(layout, i);
        tables.set_ist_for_cpu(i, DOUBLE_FAULT_IST_INDEX as usize, df_top);
        i = i + 1;
    }
    let mut stack_tops: Vec<u64> = Vec::new();
    let mut released: Vec<usize> = Vec::new();
    let mut c: usize = 0;
    while c < num_cpus
        invariant
            c <= num_cpus <= MAX_CPUS,
            layout.wf(),
            stack_tops@ == Seq::new(c as nat, |i: int| layout.kernel_top(i) as u64),
            c == 0 ==> released@.len() == 0,
            c > 0 ==> released@ == Seq::new((c - 1) as nat, |j: int| (j + 1) as usize),
        decreases num_cpus - c,
    {
        stack_tops.push(kernel_stack_top(layout, c));
        if c != 0 {
            released.push(c);
        }
        proof {
            assert(stack_tops@ =~= Seq::new((c + 1) as nat, |i: int| layout.kernel_top(i) as u64));
            assert(released@ =~= Seq::new(c as nat, |j: int| (j + 1) as usize));
        }
        c = c + 1;
    }
    tables.load_gdt(regs);
    tables.load_tss_for_core(0, regs);
    BootPlan { tables, stack_tops, released }
}

/// The segment state of one core that loading the tables sets: the limit of
/// the descriptor-table register, the segment selectors, and the task register.
#[derive(PartialEq, Eq, Structural, Debug, Clone, Copy)]
pub struct CoreRegisters {
    pub gdt_limit: u16,
    pub cs: u16,
    pub ds: u16,
    pub es: u16,
    pub ss: u16,
    pub task_register: u16,
}

impl DescriptorTables {
    /// `regs` after the shared table is loaded and the segment registers reloaded.
    pub open spec fn with_gdt_loaded(&self, regs: CoreRegisters) -> CoreRegisters {
        CoreRegisters {
            gdt_limit: (self.slots() * 8 - 1) as u16,
            cs: KERNEL_CODE_SELECTOR,
            ds: KERNEL_DATA_SELECTOR,
            es: KERNEL_DATA_SELECTOR,
            ss: KERNEL_DATA_SELECTOR,
            ..regs
        }
    }

    /// `regs` after core `i`'s task-state segment is loaded.
    pub open spec fn with_tss_loaded(&self, regs: CoreRegisters, i: int) -> CoreRegisters {
        CoreRegisters { task_register: self.selectors()[i], ..regs }
    }

    /// Loads the shared table on the calling core and reloads its code, data,
    /// extra and stack segment registers.
    pub fn load_gdt(&self, regs: &mut CoreRegisters)
        requires
            self.wf(),
        ensures
            *final(regs) == self.with_gdt_loaded(*old(regs)),
    {
        regs.gdt_limit = (self.gdt_slots * 8 - 1) as u16;
        regs.cs = KERNEL_CODE_SELECTOR;
        regs.ds = KERNEL_DATA_SELECTOR;
        regs.es = KERNEL_DATA_SELECTOR;
        regs.ss = KERNEL_DATA_SELECTOR;
    }

    /// Loads core `core_index`'s task-state selector into the task register.
    pub fn load_tss_for_core(&self, core_index: usize, regs: &mut CoreRegisters)
        requires
            self.wf(),
            core_index < self.core_count(),
        ensures
            *final(regs) == self.with_tss_loaded(*old(regs), core_index as int),
    {
        regs.task_register = self.tss_selectors[core_index];
    }
}

/// Loading the shared table, or a core's task-state segment, a second time
/// leaves the core's registers as the first load left them.
pub proof fn lemma_loads_idempotent(tables: DescriptorTables, regs: CoreRegisters, i: int)
    requires
        tables.wf(),
        0 <= i < tables.core_count(),
    ensures
        tables.with_gdt_loaded(tables.with_gdt_loaded(regs)) == tables.with_gdt_loaded(regs),
        tables.with_tss_loaded(tables.with_tss_loaded(regs, i), i) == tables.with_tss_loaded(regs, i),
        tables.with_tss_loaded(tables.with_gdt_loaded(tables.with_tss_loaded(regs, i)), i)
            == tables.with_gdt_loaded(tables.with_tss_loaded(regs, i)),
{
}

} // verus!
