use pedometer::adxl345::Adxl345;
use pedometer::arbiter::{BusArbiter, BusHandle, TaskId};
use pedometer::bus::BusOp;
use pedometer::lcd_lcm1602_i2c::{Lcd, ADDR};

#[test]
fn new_arbiter_is_free() {
    let arbiter = BusArbiter::new();
    assert_eq!(arbiter.holder(), None);
    assert_eq!(arbiter.waiting(), None);
}

#[test]
fn free_bus_is_given_at_once() {
    let mut arbiter = BusArbiter::new();
    let lease = arbiter.acquire(TaskId::Display).unwrap();
    assert_eq!(lease.owner(), TaskId::Display);
    assert_eq!(arbiter.holder(), Some(TaskId::Display));
    assert_eq!(arbiter.waiting(), None);
    assert!(arbiter.admits(&lease));
}

#[test]
fn held_bus_is_refused_and_the_caller_waits() {
    let mut arbiter = BusArbiter::new();
    let lease = arbiter.acquire(TaskId::Sensor).unwrap();
    assert!(arbiter.acquire(TaskId::Display).is_none());
    assert_eq!(arbiter.holder(), Some(TaskId::Sensor));
    assert_eq!(arbiter.waiting(), Some(TaskId::Display));
    assert!(arbiter.admits(&lease));
}

#[test]
fn release_frees_the_bus_and_names_the_waiter() {
    let mut arbiter = BusArbiter::new();
    let lease = arbiter.acquire(TaskId::Sensor).unwrap();
    assert!(arbiter.acquire(TaskId::Display).is_none());
    assert_eq!(arbiter.release(lease), Some(TaskId::Display));
    assert_eq!(arbiter.holder(), None);
    assert_eq!(arbiter.waiting(), None);
    let lease = arbiter.acquire(TaskId::Display).unwrap();
    assert_eq!(lease.owner(), TaskId::Display);
    assert_eq!(arbiter.release(lease), None);
}

#[test]
fn holder_asking_again_is_refused_and_does_not_wait() {
    let mut arbiter = BusArbiter::new();
    let lease = arbiter.acquire(TaskId::Sensor).unwrap();
    assert!(arbiter.acquire(TaskId::Sensor).is_none());
    assert_eq!(arbiter.waiting(), None);
    assert_eq!(arbiter.release(lease), None);
}

#[test]
fn waiter_that_gets_the_bus_waits_no_more() {
    let mut a = BusArbiter::new();
    let mut b = BusArbiter::new();
    // a lease of the sensor task from another arbiter makes `a` refuse nothing
    let foreign = b.acquire(TaskId::Sensor).unwrap();
    let lease = a.acquire(TaskId::Display).unwrap();
    assert!(a.acquire(TaskId::Sensor).is_none());
    assert_eq!(a.waiting(), Some(TaskId::Sensor));
    // the sensor's lease is not the holder's: nothing changes
    assert!(!a.admits(&foreign));
    assert_eq!(a.release(foreign), None);
    assert_eq!(a.holder(), Some(TaskId::Display));
    assert_eq!(a.waiting(), Some(TaskId::Sensor));
    assert_eq!(a.release(lease), Some(TaskId::Sensor));
    let lease = a.acquire(TaskId::Sensor).unwrap();
    assert_eq!(a.waiting(), None);
    assert!(a.admits(&lease));
}

struct Task {
    id: TaskId,
    plan: Vec<BusOp>,
    next: usize,
    lease: Option<BusHandle>,
    rounds: u32,
}

/// Lets `task` do one thing: ask for the bus, make its next transfer, or
/// give the bus back after the last. A transfer reaches `bus` only if the
/// arbiter admits it.
fn turn(task: &mut Task, arbiter: &mut BusArbiter, bus: &mut Vec<(TaskId, BusOp)>) {
    if task.rounds == 0 {
        return;
    }
    match task.lease.take() {
        None => {
            task.lease = arbiter.acquire(task.id);
        }
        Some(lease) => {
            if task.next < task.plan.len() {
                assert!(arbiter.admits(&lease));
                bus.push((task.id, task.plan[task.next]));
                task.next += 1;
                task.lease = Some(lease);
            } else {
                arbiter.release(lease);
                task.next = 0;
                task.rounds -= 1;
            }
        }
    }
}

/// Runs both tasks to the end, `schedule` choosing who is next, and checks
/// that the bus saw whole transactions only.
fn run(schedule: &mut dyn FnMut() -> bool) {
    let (adxl, _) = Adxl345::new();
    let lcd = Lcd::new().address(ADDR).rows(2).init().0;
    let lcd = lcd.complete_init::<()>(Ok(())).unwrap();
    let sensor_plan = {
        let mut plan = Adxl345::new().1.transfers();
        plan.extend(adxl.read_request().transfers());
        plan
    };
    let display_plan = lcd.write_str("Steps: 7").unwrap().transfers();
    let mut sensor =
        Task { id: TaskId::Sensor, plan: sensor_plan.clone(), next: 0, lease: None, rounds: 5 };
    let mut display =
        Task { id: TaskId::Display, plan: display_plan.clone(), next: 0, lease: None, rounds: 3 };
    let mut arbiter = BusArbiter::new();
    let mut bus: Vec<(TaskId, BusOp)> = Vec::new();

    let mut ticks: u32 = 0;
    while sensor.rounds > 0 || display.rounds > 0 {
        if schedule() {
            turn(&mut sensor, &mut arbiter, &mut bus);
        } else {
            turn(&mut display, &mut arbiter, &mut bus);
        }
        ticks += 1;
        assert!(ticks < 100_000);
    }
    assert_eq!(arbiter.holder(), None);

    // the record is whole transactions, one after the other
    assert_eq!(bus.len(), 5 * sensor_plan.len() + 3 * display_plan.len());
    let mut at: usize = 0;
    while at < bus.len() {
        let owner = bus[at].0;
        let plan = if owner == TaskId::Sensor { &sensor_plan } else { &display_plan };
        for op in plan {
            assert_eq!(bus[at], (owner, *op));
            at += 1;
        }
    }
}

#[test]
fn transactions_reach_the_bus_as_contiguous_blocks() {
    // strict alternation
    let mut flip = false;
    run(&mut || {
        flip = !flip;
        flip
    });
    // bursts of uneven length
    let mut n: u32 = 0;
    run(&mut || {
        n += 1;
        n % 7 < 3
    });
    // a fixed pseudo-random order
    let mut x: u32 = 0x2545_F491;
    run(&mut || {
        x ^= x << 13;
        x ^= x >> 17;
        x ^= x << 5;
        x & 1 == 1
    });
}

#[test]
fn a_transfer_without_the_lease_is_not_admitted() {
    let mut sensor_side = BusArbiter::new();
    let mut arbiter = BusArbiter::new();
    let held = arbiter.acquire(TaskId::Display).unwrap();
    // the sensor task holds no lease of this arbiter
    assert!(arbiter.acquire(TaskId::Sensor).is_none());
    let other = sensor_side.acquire(TaskId::Sensor).unwrap();
    assert!(!arbiter.admits(&other));
    assert!(arbiter.admits(&held));
    arbiter.release(held);
    assert!(!arbiter.admits(&other));
}
