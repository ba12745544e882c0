use funcos::gdt::DOUBLE_FAULT_IST_INDEX;
use funcos::interrupts::{
    fatal_exit, fault_action, init_idt, FatalExit, FaultAction, FaultPolicy, Handler,
};

#[test]
fn table_entries() {
    let t = init_idt();
    let bp = t.entry(3).unwrap();
    assert_eq!(bp.handler, Handler::Breakpoint);
    assert!(bp.present);
    assert_eq!(bp.privilege, 0);
    assert_eq!(bp.stack_index, None);
    let df = t.entry(8).unwrap();
    assert_eq!(df.handler, Handler::DoubleFault);
    assert_eq!(df.stack_index, Some(DOUBLE_FAULT_IST_INDEX));
    assert_eq!(t.entry(13).unwrap().handler, Handler::GeneralProtection);
    assert_eq!(t.entry(13).unwrap().stack_index, None);
    assert_eq!(t.entry(14).unwrap().handler, Handler::PageFault);
    assert_eq!(t.entry(14).unwrap().stack_index, None);
    let present: Vec<u8> = (0..=255u8).filter(|&v| t.entry(v).is_some()).collect();
    assert_eq!(present, vec![3, 8, 13, 14]);
}

#[test]
fn fault_policy() {
    for p in [FaultPolicy::Resume, FaultPolicy::Escalate] {
        assert_eq!(fault_action(Handler::Breakpoint, p), FaultAction::Resume);
        assert_eq!(fault_action(Handler::DoubleFault, p), FaultAction::Fatal);
    }
    assert_eq!(fault_action(Handler::PageFault, FaultPolicy::Resume), FaultAction::Resume);
    assert_eq!(fault_action(Handler::PageFault, FaultPolicy::Escalate), FaultAction::Fatal);
    assert_eq!(
        fault_action(Handler::GeneralProtection, FaultPolicy::Resume),
        FaultAction::Resume
    );
    assert_eq!(
        fault_action(Handler::GeneralProtection, FaultPolicy::Escalate),
        FaultAction::Fatal
    );
}

#[test]
fn fatal_path_end() {
    assert_eq!(fatal_exit(true), FatalExit::ExitSuccess);
    assert_eq!(fatal_exit(false), FatalExit::Halt);
}
