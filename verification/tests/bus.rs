use pedometer::bus::{BusOp, OnFailure, Transaction};

#[test]
fn delays_do_not_touch_the_bus() {
    assert!(BusOp::Write { address: 1, byte: 2 }.touches_bus());
    assert!(BusOp::WriteRegister { address: 1, register: 2, value: 3 }.touches_bus());
    assert!(BusOp::ReadRegisters { address: 1, register: 2, count: 6 }.touches_bus());
    assert!(!BusOp::DelayMs(5).touches_bus());
    assert!(!BusOp::DelayUs(700).touches_bus());
}

#[test]
fn transfers_leaves_the_pauses_out() {
    let t = Transaction {
        ops: vec![
            BusOp::DelayMs(80),
            BusOp::Write { address: 0x27, byte: 0x3C },
            BusOp::Write { address: 0x27, byte: 0x38 },
            BusOp::DelayUs(700),
            BusOp::ReadRegisters { address: 0x53, register: 0x32, count: 6 },
            BusOp::DelayMs(5),
            BusOp::WriteRegister { address: 0x53, register: 0x2D, value: 0x08 },
        ],
        on_failure: OnFailure::Abort,
    };
    assert_eq!(
        t.transfers(),
        vec![
            BusOp::Write { address: 0x27, byte: 0x3C },
            BusOp::Write { address: 0x27, byte: 0x38 },
            BusOp::ReadRegisters { address: 0x53, register: 0x32, count: 6 },
            BusOp::WriteRegister { address: 0x53, register: 0x2D, value: 0x08 },
        ]
    );
}

#[test]
fn transfers_of_nothing_and_of_pauses_alone() {
    let t = Transaction { ops: vec![], on_failure: OnFailure::Abort };
    assert_eq!(t.transfers(), vec![]);
    let t = Transaction {
        ops: vec![BusOp::DelayMs(1), BusOp::DelayUs(2)],
        on_failure: OnFailure::Continue,
    };
    assert_eq!(t.transfers(), vec![]);
}

#[test]
fn settle_shows_errors_of_an_aborting_transaction() {
    let t = Transaction { ops: vec![], on_failure: OnFailure::Abort };
    assert_eq!(t.settle::<u8>(Ok(())), Ok(()));
    assert_eq!(t.settle::<u8>(Err(7)), Err(7));
}

#[test]
fn settle_drops_errors_of_a_best_effort_transaction() {
    let t = Transaction { ops: vec![], on_failure: OnFailure::Continue };
    assert_eq!(t.settle::<u8>(Ok(())), Ok(()));
    assert_eq!(t.settle::<u8>(Err(7)), Ok(()));
}

#[test]
fn wire_bytes_of_each_operation() {
    assert_eq!(BusOp::Write { address: 0x27, byte: 0x3C }.wire_bytes(), vec![0x3C]);
    assert_eq!(
        BusOp::WriteRegister { address: 0x53, register: 0x2D, value: 0x08 }.wire_bytes(),
        vec![0x2D, 0x08]
    );
    assert_eq!(
        BusOp::ReadRegisters { address: 0x53, register: 0x32, count: 6 }.wire_bytes(),
        vec![0x32]
    );
    assert_eq!(BusOp::DelayMs(5).wire_bytes(), vec![]);
    assert_eq!(BusOp::DelayUs(700).wire_bytes(), vec![]);
}
