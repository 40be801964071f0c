use ios_event_loop::app_state::AppState;
use ios_event_loop::channel::Channel;
use ios_event_loop::control_flow::{ControlFlow, PumpStatus};
use ios_event_loop::event::Event;
use ios_event_loop::event_loop::{Drive, EventLoop, PlatformSpecificEventLoopAttributes};
use ios_event_loop::handler::{DriverEventLoopHandler, EventHandler, EventLoopHandler};
use ios_event_loop::launch::{
    check_main, check_pump, check_run, ios_application_main, Environment, Process, Refusal,
};
use ios_event_loop::run_loop::setup_control_flow_observers;
use ios_event_loop::time::{Duration, Instant};
use ios_event_loop::window_target::{DeviceEvents, EventLoopWindowTarget};
use raw_window_handle::{RawDisplayHandle, UiKitDisplayHandle};
use std::marker::PhantomData;

const BEFORE_LAUNCH: Environment = Environment { on_main_thread: true, application_running: false };
const LAUNCHED: Environment = Environment { on_main_thread: true, application_running: true };
const ELSEWHERE: Environment = Environment { on_main_thread: false, application_running: true };

fn event_loop() -> EventLoop<u32> {
    let mut process: Process<fn()> = Process::new();
    let attributes = PlatformSpecificEventLoopAttributes::default();
    EventLoop::new(&attributes, &mut process, BEFORE_LAUNCH, 6).unwrap().0
}

fn event_loop_and_channel() -> (EventLoop<u32>, Channel<u32>) {
    let mut process: Process<fn()> = Process::new();
    let attributes = PlatformSpecificEventLoopAttributes::default();
    let (event_loop, channel, _) =
        EventLoop::new(&attributes, &mut process, BEFORE_LAUNCH, 6).unwrap();
    (event_loop, channel)
}

type Driver = DriverEventLoopHandler<u32, &'static str>;

#[test]
fn creation_registers_observers_and_happens_once() {
    let mut process: Process<fn()> = Process::new();
    let attributes = PlatformSpecificEventLoopAttributes::default();
    assert_eq!(process.check_creation(ELSEWHERE), Some(Refusal::CreatedOffMainThread));
    assert_eq!(process.check_creation(BEFORE_LAUNCH), None);
    assert_eq!(process.check_creation(LAUNCHED), None);
    let made = EventLoop::<u32>::new(&attributes, &mut process, LAUNCHED, 6);
    let (event_loop, mut channel, observers) = made.unwrap();
    assert_eq!(observers, setup_control_flow_observers());
    assert_eq!(event_loop.receiver.borrow().try_recv(&mut channel), None);
    assert_eq!(event_loop.sender.send(&mut channel, 1), Ok(()));
    assert_eq!(process.check_creation(LAUNCHED), Some(Refusal::CreatedTwice));
    assert_eq!(process.check_creation(ELSEWHERE), Some(Refusal::CreatedOffMainThread));
    process.run_pump_entry();
    assert_eq!(process.check_creation(BEFORE_LAUNCH), Some(Refusal::CreatedTwice));
}

#[test]
fn refusals_have_their_messages() {
    assert_eq!(
        Refusal::CreatedOffMainThread.message(),
        "On iOS, `EventLoop` must be created on the main thread"
    );
    assert_eq!(
        Refusal::CreatedTwice.message(),
        "Only one `EventLoop` is supported on iOS. \
         `EventLoopProxy` might be helpful"
    );
    assert_eq!(
        Refusal::RunInApplication.message(),
        "\
        `EventLoop` cannot be `run` after a call to `UIApplicationMain` on iOS\n\
         Note: `EventLoop::run` calls `UIApplicationMain` on iOS"
    );
    assert_eq!(
        Refusal::PumpedOutsideApplication.message(),
        "`pump_events`/`run_on_demand` on iOS must be called from within the entry point passed \
         to `winit::platform::ios::ios_application_main`, after `UIApplicationMain` has started"
    );
    assert_eq!(
        Refusal::StartedOffMainThread.message(),
        "`ios_application_main` must be called on the main thread"
    );
    assert_eq!(
        Refusal::StartedTwice.message(),
        "`ios_application_main` cannot be called after `UIApplicationMain`"
    );
}

#[test]
fn running_and_pumping_exclude_each_other() {
    assert_eq!(check_run(BEFORE_LAUNCH), None);
    assert_eq!(check_run(LAUNCHED), Some(Refusal::RunInApplication));
    assert_eq!(check_pump(BEFORE_LAUNCH), Some(Refusal::PumpedOutsideApplication));
    assert_eq!(check_pump(LAUNCHED), None);
    assert_eq!(check_main(BEFORE_LAUNCH), None);
    assert_eq!(check_main(LAUNCHED), Some(Refusal::StartedTwice));
    assert_eq!(check_main(ELSEWHERE), Some(Refusal::StartedOffMainThread));
}

#[test]
fn entry_point_runs_once() {
    let mut process: Process<&str> = Process::new();
    assert!(!process.has_pump_entry());
    assert_eq!(process.run_pump_entry(), None);
    let launch = ios_application_main(&mut process, BEFORE_LAUNCH, "entry");
    assert_eq!(launch.argc, 0);
    assert_eq!(launch.principal_class, None);
    assert_eq!(launch.delegate_class, "WinitApplicationDelegate");
    assert!(process.has_pump_entry());
    assert_eq!(process.run_pump_entry(), Some("entry"));
    assert!(!process.has_pump_entry());
    assert_eq!(process.run_pump_entry(), None);
}

#[test]
fn running_for_good_puts_the_handler_in_place() {
    let (event_loop, mut channel) = event_loop_and_channel();
    let (proxy, _) = event_loop.create_proxy(0);
    proxy.send_event(&mut channel, 5).unwrap();
    let mut state: AppState<(EventLoopHandler<u32, &str>, &str)> =
        AppState::new(ControlFlow::Wait);
    let launch = event_loop.run(&mut state, BEFORE_LAUNCH, |handler| (handler, "callback"));
    assert_eq!(launch.delegate_class, "WinitApplicationDelegate");
    assert_eq!(launch.argc, 0);
    let (mut handler, callback) = state.take_handler().unwrap();
    assert_eq!(callback, "callback");
    assert_eq!(handler.handle_user_events(&mut channel), Some(Event::UserEvent(5)));
}

#[test]
fn pump_handles_the_user_events_of_its_event_loop() {
    let (event_loop, mut channel) = event_loop_and_channel();
    let (proxy, _) = event_loop.create_proxy(0);
    proxy.send_event(&mut channel, 5).unwrap();
    let mut state: AppState<Driver> = AppState::new(ControlFlow::Wait);
    event_loop.pump_events(&mut state, LAUNCHED, None, |handler| handler);
    let handler = state.handler.as_mut().unwrap();
    assert_eq!(handler.receiver, event_loop.receiver.borrow());
    assert_eq!(handler.handle_user_events(&mut channel), Some(Event::UserEvent(5)));
    assert_eq!(handler.handle_user_events(&mut channel), None);
    assert!(event_loop.finish_pump_events(&mut state).0.is_some());
    assert!(proxy.send_event(&mut channel, 6).is_ok());
}

#[test]
fn pump_removes_its_handler() {
    let event_loop = event_loop();
    let mut state = AppState::new(ControlFlow::Poll);
    let timeout = Some(Duration::new(0, 5));
    let slice = event_loop.pump_events(&mut state, LAUNCHED, timeout, |_: Driver| "handler");
    assert_eq!(slice.duration, Duration::new(0, 5));
    assert!(!slice.return_after_source_handled);
    assert_eq!(state.handler, Some("handler"));
    assert_eq!(
        event_loop.finish_pump_events(&mut state),
        (Some("handler"), PumpStatus::Continue)
    );
    assert_eq!(state.handler, None);
}

#[test]
fn pump_reports_a_requested_exit() {
    let event_loop = event_loop();
    let target = event_loop.window_target();
    let mut state = AppState::new(ControlFlow::Poll);
    event_loop.pump_events(&mut state, LAUNCHED, None, |_: Driver| "handler");
    assert!(!target.exiting(&state));
    target.exit(&mut state);
    assert!(target.exiting(&state));
    let (_, status) = event_loop.finish_pump_events(&mut state);
    assert_eq!(status, PumpStatus::Exit(0));
    event_loop.pump_events(&mut state, LAUNCHED, None, |_: Driver| "handler");
    target.clear_exit(&mut state);
    let (_, status) = event_loop.finish_pump_events(&mut state);
    assert_eq!(status, PumpStatus::Continue);
}

#[test]
fn timeouts_follow_the_control_flow() {
    let event_loop = event_loop();
    let target = event_loop.window_target();
    let now = Instant::new(10, 0);
    let mut state: AppState<()> = AppState::new(ControlFlow::Poll);
    let next = event_loop.run_on_demand(&mut state, None, now);
    assert_eq!(next, Drive::Pump(Some(Duration::zero())));
    target.set_control_flow(&mut state, ControlFlow::Wait);
    assert_eq!(target.control_flow(&state), ControlFlow::Wait);
    let next = event_loop.run_on_demand(&mut state, Some(PumpStatus::Continue), now);
    assert_eq!(next, Drive::Pump(None));
    target.set_control_flow(&mut state, ControlFlow::WaitUntil(Instant::new(12, 500)));
    let next = event_loop.run_on_demand(&mut state, Some(PumpStatus::Continue), now);
    assert_eq!(next, Drive::Pump(Some(Duration::new(2, 500))));
}

/// Drives `event_loop` with callbacks that request an exit in slice `exit_in`, and counts slices.
fn drive(event_loop: &EventLoop<u32>, state: &mut AppState<u32>, exit_in: u32) -> u32 {
    let mut slices = 0;
    let mut last = None;
    loop {
        match event_loop.run_on_demand(state, last, Instant::new(slices.into(), 0)) {
            Drive::Return(result) => {
                assert_eq!(result, Ok(()));
                return slices;
            }
            Drive::Pump(timeout) => {
                event_loop.pump_events(state, LAUNCHED, timeout, |_: Driver| slices);
                slices += 1;
                if slices == exit_in {
                    event_loop.window_target().exit(state);
                }
                let (handler, status) = event_loop.finish_pump_events(state);
                assert_eq!(handler, Some(slices - 1));
                last = Some(status);
            }
        }
    }
}

#[test]
fn run_on_demand_ends_at_the_first_exit_and_runs_again() {
    let event_loop = event_loop();
    let mut state = AppState::new(ControlFlow::Wait);
    assert_eq!(drive(&event_loop, &mut state, 3), 3);
    assert!(!state.exit_requested());
    assert_eq!(state.handler, None);
    assert_eq!(drive(&event_loop, &mut state, 2), 2);
    assert!(!state.exit_requested());
}

#[test]
fn run_on_demand_hands_all_user_events_to_one_callback() {
    let (event_loop, mut channel) = event_loop_and_channel();
    let (proxy, _) = event_loop.create_proxy(0);
    proxy.send_event(&mut channel, 1).unwrap();
    let mut state: AppState<Driver> = AppState::new(ControlFlow::Poll);
    let mut seen = Vec::new();
    let mut last = None;
    loop {
        match event_loop.run_on_demand(&mut state, last, Instant::new(0, 0)) {
            Drive::Return(result) => {
                assert_eq!(result, Ok(()));
                break;
            }
            Drive::Pump(timeout) => {
                event_loop.pump_events(&mut state, LAUNCHED, timeout, |handler| handler);
                loop {
                    let handler = state.handler.as_mut().unwrap();
                    let Some(call) = handler.handle_user_events(&mut channel) else { break };
                    if let Event::UserEvent(event) = call {
                        seen.push(event);
                        match event {
                            1 => drop(proxy.send_event(&mut channel, 2)),
                            4 => event_loop.window_target().exit(&mut state),
                            _ => (),
                        }
                    }
                }
                last = Some(event_loop.finish_pump_events(&mut state).1);
                proxy.send_event(&mut channel, 3).unwrap();
                proxy.send_event(&mut channel, 4).unwrap();
            }
        }
    }
    assert_eq!(seen, vec![1, 2, 3, 4]);
    assert_eq!(event_loop.receiver.borrow().try_recv(&mut channel), Some(3));
    assert_eq!(event_loop.receiver.borrow().try_recv(&mut channel), Some(4));
    assert_eq!(event_loop.receiver.borrow().try_recv(&mut channel), None);
}

#[test]
fn the_last_of_exit_and_clear_decides() {
    let event_loop = event_loop();
    let target = event_loop.window_target();
    let mut state: AppState<()> = AppState::new(ControlFlow::Poll);
    target.exit(&mut state);
    target.clear_exit(&mut state);
    assert!(!target.exiting(&state));
    target.clear_exit(&mut state);
    target.exit(&mut state);
    target.set_control_flow(&mut state, ControlFlow::Wait);
    assert!(target.exiting(&state));
}

#[test]
fn run_on_demand_pumps_once_even_if_exit_was_requested_before() {
    let event_loop = event_loop();
    let mut state = AppState::new(ControlFlow::Wait);
    event_loop.window_target().exit(&mut state);
    assert_eq!(drive(&event_loop, &mut state, 100), 1);
    assert!(!state.exit_requested());
}

#[test]
fn any_exit_code_ends_run_on_demand() {
    let event_loop = event_loop();
    let mut state: AppState<()> = AppState::new(ControlFlow::Wait);
    state.request_exit();
    let next = event_loop.run_on_demand(&mut state, Some(PumpStatus::Exit(7)), Instant::new(0, 0));
    assert_eq!(next, Drive::Return(Ok(())));
    assert!(!state.exit_requested());
}

#[test]
fn device_events_change_nothing() {
    let target: EventLoopWindowTarget<u32> = EventLoopWindowTarget { p: PhantomData };
    let mut state: AppState<u32> = AppState::new(ControlFlow::Poll);
    state.install_handler(4);
    target.listen_device_events(&mut state, DeviceEvents::Always);
    assert_eq!(state.control_flow(), ControlFlow::Poll);
    assert!(!state.exit_requested());
    assert_eq!(state.take_handler(), Some(4));
    assert_eq!(state.take_handler(), None);
}

#[test]
fn display_handle_is_uikit() {
    let target: EventLoopWindowTarget<u32> = EventLoopWindowTarget { p: PhantomData };
    assert_eq!(
        target.raw_display_handle_rwh_06().unwrap(),
        RawDisplayHandle::UiKit(UiKitDisplayHandle::new())
    );
}
