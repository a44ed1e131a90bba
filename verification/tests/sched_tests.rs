use msp_fw::sched::{tick, Slot, Task};

struct Counter {
    runs: u32,
    next: Option<u32>,
}

impl Task<u32> for Counter {
    fn poll(&mut self, cx: &mut u32, _now: u32) -> Option<u32> {
        self.runs += 1;
        *cx += 1;
        self.next
    }
}

#[test]
fn first_tick_runs_every_slot() {
    let mut a = Counter { runs: 0, next: None };
    let mut b = Counter { runs: 0, next: Some(5) };
    let mut cx = 0u32;
    let mut slots: [Slot<u32>; 2] = [Slot::every(50, &mut a), Slot::every(200, &mut b)];
    assert_eq!(tick(&mut slots, &mut cx, 0), 2);
    assert_eq!(cx, 2);
    assert_eq!(slots[0].runs(), 1);
}

struct Named;

impl Task<u32> for Named {
    fn poll(&mut self, _cx: &mut u32, _now: u32) -> Option<u32> {
        None
    }

    fn name(&self) -> &'static str {
        "named"
    }
}

#[test]
fn slots_wait_for_their_period() {
    let mut a = Counter { runs: 0, next: None };
    let mut cx = 0u32;
    let mut slots: [Slot<u32>; 1] = [Slot::every(50, &mut a)];
    assert_eq!(tick(&mut slots, &mut cx, 0), 1);
    assert_eq!(tick(&mut slots, &mut cx, 49), 0);
    assert_eq!(slots[0].runs(), 1);
    assert_eq!(tick(&mut slots, &mut cx, 50), 1);
    assert_eq!(slots[0].runs(), 2);
    assert_eq!(slots[0].max_late(), 0);
    assert_eq!(slots[0].overruns(), 0);
}

#[test]
fn a_returned_delay_replaces_the_period() {
    let mut b = Counter { runs: 0, next: Some(5) };
    let mut cx = 0u32;
    let mut slots: [Slot<u32>; 1] = [Slot::every(200, &mut b)];
    tick(&mut slots, &mut cx, 0);
    assert_eq!(tick(&mut slots, &mut cx, 4), 0);
    assert_eq!(tick(&mut slots, &mut cx, 5), 1);
    assert_eq!(tick(&mut slots, &mut cx, 10), 1);
}

#[test]
fn lateness_and_overruns_are_recorded() {
    let mut a = Counter { runs: 0, next: None };
    let mut cx = 0u32;
    let mut slots: [Slot<u32>; 1] = [Slot::every(10, &mut a)];
    tick(&mut slots, &mut cx, 0);
    tick(&mut slots, &mut cx, 15);
    assert_eq!(slots[0].max_late(), 5);
    assert_eq!(slots[0].overruns(), 0);
    tick(&mut slots, &mut cx, 100);
    assert_eq!(slots[0].max_late(), 75);
    assert_eq!(slots[0].overruns(), 1);
    assert_eq!(slots[0].runs(), 3);
}

struct Stepper {
    delays: Vec<u32>,
    at: usize,
}

impl Task<u32> for Stepper {
    fn poll(&mut self, _cx: &mut u32, _now: u32) -> Option<u32> {
        let d = self.delays[self.at];
        self.at += 1;
        Some(d)
    }
}

#[test]
fn deadlines_survive_the_millisecond_wrap() {
    let mut s = Stepper { delays: vec![0x7FFF_FFF0, 0x7FFF_FFE0, 100, 100], at: 0 };
    let mut cx = 0u32;
    let mut slots: [Slot<u32>; 1] = [Slot::every(1, &mut s)];
    assert_eq!(tick(&mut slots, &mut cx, 0), 1);
    assert_eq!(tick(&mut slots, &mut cx, 0x7FFF_FFF0), 1);
    assert_eq!(tick(&mut slots, &mut cx, 0xFFFF_FFD0), 1);
    // Due 100 ms later, i.e. 52 ms after the counter wrapped.
    assert_eq!(tick(&mut slots, &mut cx, 0xFFFF_FFFF), 0);
    assert_eq!(tick(&mut slots, &mut cx, 51), 0);
    assert_eq!(tick(&mut slots, &mut cx, 52), 1);
    assert_eq!(slots[0].max_late(), 0);
}

#[test]
fn task_names() {
    let mut a = Counter { runs: 0, next: None };
    let mut n = Named;
    let s1: Slot<u32> = Slot::every(1, &mut a);
    assert_eq!(s1.name(), "task");
    let s2: Slot<u32> = Slot::every(1, &mut n);
    assert_eq!(s2.name(), "named");
}

#[test]
fn a_late_run_is_rescheduled_from_now_without_a_burst() {
    let mut t = Counter { runs: 0, next: None };
    let mut cx = 0u32;
    let mut slots: [Slot<u32>; 1] = [Slot::every(50, &mut t)];
    assert_eq!(tick(&mut slots, &mut cx, 0), 1);
    assert_eq!(tick(&mut slots, &mut cx, 260), 1);
    assert_eq!(slots[0].runs(), 2);
    assert_eq!(slots[0].max_late(), 210);
    assert_eq!(slots[0].overruns(), 1);
    assert_eq!(tick(&mut slots, &mut cx, 300), 0);
    assert_eq!(tick(&mut slots, &mut cx, 310), 1);
    assert_eq!(cx, 3);
}
