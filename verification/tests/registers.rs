use guest_harness::harness::HarnessError;
use guest_harness::modules::register::{RegisterResetModule, RegisterWrite};

/// A register file in which the registers of `read_only` refuse writes.
fn apply(file: &mut [u64], writes: &[RegisterWrite], read_only: &[usize]) {
    for w in writes {
        if w.index < file.len() && !read_only.contains(&w.index) {
            file[w.index] = w.value;
        }
    }
}

#[test]
fn new_store_is_empty() {
    let module = RegisterResetModule::new();
    assert_eq!(module.reg_num(), 0);
    assert!(module.regs().is_empty());
    let module = RegisterResetModule::default();
    assert_eq!(module.reg_num(), 0);
    assert_eq!(module.restore(0), Ok(vec![]));
}

#[test]
fn save_stores_zero_for_unreadable_registers() {
    let mut module = RegisterResetModule::new();
    module.save(&[Some(0x10), None, Some(u64::MAX), Some(0)]);
    assert_eq!(module.reg_num(), 4);
    assert_eq!(module.regs().as_slice(), &[0x10, 0, u64::MAX, 0]);
}

#[test]
fn save_replaces_the_snapshot() {
    let mut module = RegisterResetModule::new();
    module.save(&[Some(1), Some(2), Some(3)]);
    module.save(&[Some(9)]);
    assert_eq!(module.reg_num(), 1);
    assert_eq!(module.regs().as_slice(), &[9]);
}

#[test]
fn restore_writes_every_register_in_order() {
    let mut module = RegisterResetModule::new();
    module.save(&[Some(5), None, Some(7)]);
    let plan = module.restore(3).expect("the counts agree");
    assert_eq!(
        plan,
        vec![
            RegisterWrite { index: 0, value: 5 },
            RegisterWrite { index: 1, value: 0 },
            RegisterWrite { index: 2, value: 7 },
        ]
    );
    assert_eq!(module.pre_exec(3), Ok(plan));
}

#[test]
fn restore_refuses_another_register_count() {
    let mut module = RegisterResetModule::new();
    module.save(&[Some(5), None, Some(7)]);
    assert_eq!(module.restore(2), Err(HarnessError::RegisterCountMismatch));
    assert_eq!(module.restore(4), Err(HarnessError::RegisterCountMismatch));
    assert_eq!(module.pre_exec(0), Err(HarnessError::RegisterCountMismatch));
    assert_eq!(module.regs().as_slice(), &[5, 0, 7]);
}

#[test]
fn restoring_twice_changes_nothing_more() {
    let mut module = RegisterResetModule::new();
    module.save(&[Some(11), Some(22), None, Some(44)]);
    let mut file = [1u64, 2, 3, 4];
    let read_only = [1usize];
    let first = module.restore(4).expect("the counts agree");
    apply(&mut file, &first, &read_only);
    let after_first = file;
    assert_eq!(after_first, [11, 2, 0, 44]);
    let second = module.restore(4).expect("the counts agree");
    assert_eq!(first, second);
    apply(&mut file, &second, &read_only);
    assert_eq!(file, after_first);
}
