use kernel_core::descriptors::{
    df_stack_top_for, init_gdt, kernel_stack_top, CoreRegisters, Descriptor, DescriptorTables,
    StackLayout, DF_STACK_SIZE, DOUBLE_FAULT_IST_INDEX, KERNEL_CODE_SELECTOR, KERNEL_DATA_SELECTOR,
    KERNEL_STACK_SIZE, MAX_CPUS,
};

const LAYOUT: StackLayout = StackLayout { kernel_base: 0x20_0000, df_base: 0x1000_0008 };

fn zero_regs() -> CoreRegisters {
    CoreRegisters { gdt_limit: 0, cs: 0, ds: 0, es: 0, ss: 0, task_register: 0 }
}

#[test]
fn stack_tops_lie_in_their_regions_and_are_aligned() {
    for i in 0..MAX_CPUS {
        let k = kernel_stack_top(&LAYOUT, i);
        let k_start = LAYOUT.kernel_base + (i * KERNEL_STACK_SIZE) as u64;
        assert!(k_start < k && k <= k_start + KERNEL_STACK_SIZE as u64);
        assert_eq!(k % 16, 0);
        let d = df_stack_top_for(&LAYOUT, i);
        let d_start = LAYOUT.df_base + (i * DF_STACK_SIZE) as u64;
        assert!(d_start < d && d <= d_start + DF_STACK_SIZE as u64);
        assert_eq!(d % 16, 0);
    }
    assert_eq!(kernel_stack_top(&LAYOUT, 0), 0x20_0000 + 1000 * 1024);
    // The double-fault array starts 8 bytes past a 16-byte boundary, so each
    // top is rounded down by 8.
    assert_eq!(df_stack_top_for(&LAYOUT, 1), 0x1000_0008 + 2 * 16 * 1024 - 8);
}

#[test]
fn boot_plan_installs_one_task_state_per_core() {
    for n in 1..=MAX_CPUS {
        let mut regs = zero_regs();
        let plan = init_gdt(n, &LAYOUT, &mut regs);
        assert_eq!(regs.cs, KERNEL_CODE_SELECTOR);
        assert_eq!(regs.task_register, 24);
        assert_eq!(regs.gdt_limit, ((3 + 2 * n) * 8 - 1) as u16);
        assert_eq!(plan.tables.initialized_cpus(), n);
        let descs = plan.tables.descriptors_in_order();
        assert_eq!(descs.len(), n + 2);
        assert_eq!(descs[0], Descriptor::KernelCode);
        assert_eq!(descs[1], Descriptor::KernelData);
        let tss_count = descs.iter().filter(|d| matches!(d, Descriptor::TaskState { .. })).count();
        assert_eq!(tss_count, n);
        for i in 0..n {
            assert_eq!(descs[i + 2], Descriptor::TaskState { core: i });
            let t = plan.tables.task_state(i);
            assert_eq!(t.privilege_stack_table[0], kernel_stack_top(&LAYOUT, i));
            assert_eq!(
                t.interrupt_stack_table[DOUBLE_FAULT_IST_INDEX as usize],
                df_stack_top_for(&LAYOUT, i)
            );
            assert_eq!(plan.stack_tops[i], kernel_stack_top(&LAYOUT, i));
        }
        assert_eq!(plan.released, (1..n).collect::<Vec<usize>>());
    }
}

#[test]
fn selectors_follow_the_table_layout() {
    let mut regs = zero_regs();
    let tables = DescriptorTables::init_percpu_gdt(3, &mut regs);
    assert_eq!(regs.cs, KERNEL_CODE_SELECTOR);
    assert_eq!(regs.ds, 16);
    assert_eq!(regs.ss, KERNEL_DATA_SELECTOR);
    // null, code, data, then two slots per task-state segment
    assert_eq!(regs.gdt_limit, 9 * 8 - 1);
    for (i, want) in [24u16, 40, 56].iter().enumerate() {
        tables.load_tss_for_core(i, &mut regs);
        assert_eq!(regs.task_register, *want);
    }
}

#[test]
fn loading_twice_changes_nothing() {
    let mut regs = zero_regs();
    let tables = DescriptorTables::init_percpu_gdt(4, &mut regs);
    tables.load_gdt(&mut regs);
    tables.load_tss_for_core(2, &mut regs);
    let once = regs;
    tables.load_gdt(&mut regs);
    tables.load_tss_for_core(2, &mut regs);
    assert_eq!(regs, once);
}

#[test]
fn set_stack_and_ist_touch_one_core() {
    let mut regs = zero_regs();
    let mut tables = DescriptorTables::init_percpu_gdt(2, &mut regs);
    tables.set_stack_for_cpu(1, 0xABC0);
    tables.set_ist_for_cpu(1, 3, 0xDEF0);
    let t1 = tables.task_state(1);
    assert_eq!(t1.privilege_stack_table, [0xABC0, 0, 0]);
    assert_eq!(t1.interrupt_stack_table, [0, 0, 0, 0xDEF0, 0, 0, 0]);
    let t0 = tables.task_state(0);
    assert_eq!(t0.privilege_stack_table, [0, 0, 0]);
    assert_eq!(t0.interrupt_stack_table, [0; 7]);
}

#[test]
fn zero_cores_build_an_empty_set() {
    let mut regs = zero_regs();
    let tables = DescriptorTables::init_percpu_gdt(0, &mut regs);
    assert_eq!(regs.gdt_limit, 23);
    assert_eq!(regs.task_register, 0);
    assert_eq!(tables.initialized_cpus(), 0);
    assert_eq!(tables.descriptors_in_order().len(), 2);
}
