use datamonitor::error::Error;
use datamonitor::lifecycle::{DataMonitorPlugin, DispatchOutcome, Phase};
use datamonitor::power::PowerState;
use datamonitor::scheduler::Sample;

const SEC: u64 = 1_000_000_000;

fn on() -> PowerState {
    PowerState { battery_on: true, gpu_on: false, apu_on: false }
}

fn running() -> DataMonitorPlugin {
    let mut p = DataMonitorPlugin::start(Ok(()), SEC, 0, 99).unwrap();
    assert!(p.enable());
    p
}

#[test]
fn failed_resolution_aborts_start() {
    assert_eq!(DataMonitorPlugin::start(Err(Error::NotFound), SEC, 0, 0), Err(Error::NotFound));
    assert_eq!(DataMonitorPlugin::start(Err(Error::WrongType), SEC, 0, 0), Err(Error::WrongType));
    assert_eq!(DataMonitorPlugin::start(Err(Error::NotWritable), SEC, 0, 0), Err(Error::NotWritable));
    assert_eq!(DataMonitorPlugin::start(Err(Error::NullInName), SEC, 0, 0), Err(Error::NullInName));
}

#[test]
fn started_plugin_is_ready_and_inert() {
    let mut p = DataMonitorPlugin::start(Ok(()), SEC, 0, 5).unwrap();
    assert_eq!(p.phase, Phase::Ready);
    assert_eq!(p.in_flight, 0);
    let before = p;
    assert_eq!(p.flight_loop(10 * SEC, on()), None);
    assert_eq!(p, before);
}

#[test]
fn enable_schedules_once() {
    let mut p = DataMonitorPlugin::start(Ok(()), SEC, 0, 5).unwrap();
    assert!(p.enable());
    assert_eq!(p.phase, Phase::Running);
    assert!(!p.enable());
}

#[test]
fn running_plugin_counts_dispatch_in_flight() {
    let mut p = running();
    assert_eq!(p.flight_loop(SEC, on()), Some(Sample { start_time: 99, power: on() }));
    assert_eq!(p.in_flight, 1);
}

#[test]
fn transport_failure_does_not_block_next_dispatch() {
    let mut p = running();
    assert!(p.flight_loop(SEC, on()).is_some());
    assert!(p.dispatch_finished(DispatchOutcome::TransportFailure));
    assert_eq!(p.in_flight, 0);
    assert!(p.flight_loop(2 * SEC, on()).is_some());
    assert!(!p.dispatch_finished(DispatchOutcome::Delivered));
    assert_eq!(p.in_flight, 0);
}

#[test]
fn failure_and_delivery_leave_same_state() {
    let mut a = running();
    a.flight_loop(SEC, on());
    let mut b = a;
    a.dispatch_finished(DispatchOutcome::TransportFailure);
    b.dispatch_finished(DispatchOutcome::Delivered);
    assert_eq!(a, b);
}

#[test]
fn scenario_disable_with_dispatch_in_flight() {
    let mut p = running();
    assert!(p.flight_loop(SEC, on()).is_some());
    assert_eq!(p.disable(), 1);
    assert_eq!(p.phase, Phase::Stopped);
    for i in 2..10u64 {
        assert_eq!(p.flight_loop(i * SEC, on()), None);
    }
    assert!(!p.dispatch_finished(DispatchOutcome::Delivered));
    assert_eq!(p.in_flight, 0);
}

#[test]
fn disable_with_nothing_in_flight() {
    let mut p = running();
    assert_eq!(p.disable(), 0);
}

#[test]
fn plugin_info_strings() {
    let p = running();
    let info = p.info();
    assert_eq!(info.name, "Datamonitor");
    assert_eq!(info.signature, "dev.nordgedanken.datamonitor");
    assert_eq!(
        info.description,
        "Gets certain datarefs to display in a grafana for review of flights."
    );
}
