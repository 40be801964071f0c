use ios_event_loop::channel::Channel;
use ios_event_loop::event::{Event, Never};
use ios_event_loop::event_loop::{EventLoop, PlatformSpecificEventLoopAttributes};
use ios_event_loop::handler::{DriverEventLoopHandler, EventHandler, EventLoopHandler};
use ios_event_loop::launch::{Environment, Process};
use ios_event_loop::proxy::{
    source_to_create, EventLoopClosed, EventLoopProxy, NewSource, SourceCall,
};
use ios_event_loop::run_loop::RunLoopMode;
use ios_event_loop::window_target::EventLoopWindowTarget;
use std::marker::PhantomData;

fn event_loop(id: u64) -> (EventLoop<u32>, Channel<u32>) {
    let mut process: Process<fn()> = Process::new();
    let attributes = PlatformSpecificEventLoopAttributes::default();
    let env = Environment { on_main_thread: true, application_running: false };
    let (event_loop, channel, _) = EventLoop::new(&attributes, &mut process, env, id).unwrap();
    (event_loop, channel)
}

fn target() -> EventLoopWindowTarget<u32> {
    EventLoopWindowTarget { p: PhantomData }
}

#[test]
fn ends_name_their_channel() {
    let (event_loop, channel) = event_loop(8);
    assert_eq!(channel.id(), 8);
    assert_eq!(event_loop.sender.channel, 8);
    assert_eq!(event_loop.receiver.borrow().channel, 8);
}

#[test]
fn channel_is_first_in_first_out() {
    let (event_loop, mut channel) = event_loop(1);
    let sender = event_loop.sender;
    let receiver = event_loop.receiver.borrow();
    assert_eq!(receiver.try_recv(&mut channel), None);
    assert_eq!(sender.send(&mut channel, 1), Ok(()));
    assert_eq!(sender.send(&mut channel, 2), Ok(()));
    assert_eq!(receiver.try_recv(&mut channel), Some(1));
    assert_eq!(sender.send(&mut channel, 3), Ok(()));
    assert_eq!(receiver.try_recv(&mut channel), Some(2));
    assert_eq!(receiver.try_recv(&mut channel), Some(3));
    assert_eq!(receiver.try_recv(&mut channel), None);
}

#[test]
fn closed_channel_hands_events_back() {
    let (event_loop, mut channel) = event_loop(1);
    let sender = event_loop.sender;
    let receiver = event_loop.receiver.borrow();
    assert_eq!(sender.send(&mut channel, 1), Ok(()));
    assert_eq!(sender.send(&mut channel, 5), Ok(()));
    assert_eq!(event_loop.close(&mut channel), vec![1, 5]);
    assert_eq!(receiver.try_recv(&mut channel), None);
    assert_eq!(sender.send(&mut channel, 2), Err(2));
    assert_eq!(receiver.try_recv(&mut channel), None);
    assert_eq!(channel.id(), 1);
}

#[test]
fn source_comes_late() {
    assert_eq!(source_to_create(), NewSource { version: 0, order: isize::MAX - 1 });
}

#[test]
fn proxy_sets_up_its_source() {
    let (event_loop, _) = event_loop(1);
    let (proxy, calls) = event_loop.create_proxy("source");
    assert_eq!(proxy.source, "source");
    assert_eq!(proxy.sender, event_loop.sender);
    assert_eq!(
        calls,
        vec![
            SourceCall::AddToMain { source: "source", mode: RunLoopMode::Common },
            SourceCall::WakeUpMain,
        ]
    );
}

#[test]
fn duplicated_proxy_has_its_own_source_and_the_same_sender() {
    let (event_loop, mut channel) = event_loop(1);
    let (proxy, _) = event_loop.create_proxy(10);
    let (other, calls) = proxy.duplicate(11);
    assert_eq!(other.source, 11);
    assert_eq!(other.sender, proxy.sender);
    assert_eq!(proxy.source, 10);
    assert_eq!(
        calls,
        vec![
            SourceCall::AddToMain { source: 11, mode: RunLoopMode::Common },
            SourceCall::WakeUpMain,
        ]
    );
    assert_eq!(
        proxy.send_event(&mut channel, 1),
        Ok(vec![SourceCall::Signal { source: 10 }, SourceCall::WakeUpMain])
    );
    assert_eq!(
        proxy.release(),
        vec![SourceCall::Invalidate { source: 10 }, SourceCall::Release { source: 10 }]
    );
    assert_eq!(
        other.send_event(&mut channel, 2),
        Ok(vec![SourceCall::Signal { source: 11 }, SourceCall::WakeUpMain])
    );
    let receiver = event_loop.receiver.borrow();
    assert_eq!(receiver.try_recv(&mut channel), Some(1));
    assert_eq!(receiver.try_recv(&mut channel), Some(2));
}

#[test]
fn proxy_over_its_life() {
    let (event_loop, mut channel) = event_loop(1);
    let (proxy, mut calls) = EventLoopProxy::<u32, char>::new(event_loop.sender, 's');
    calls.extend(proxy.send_event(&mut channel, 1).unwrap());
    calls.extend(proxy.send_event(&mut channel, 2).unwrap());
    calls.extend(proxy.release());
    assert_eq!(
        calls,
        vec![
            SourceCall::AddToMain { source: 's', mode: RunLoopMode::Common },
            SourceCall::WakeUpMain,
            SourceCall::Signal { source: 's' },
            SourceCall::WakeUpMain,
            SourceCall::Signal { source: 's' },
            SourceCall::WakeUpMain,
            SourceCall::Invalidate { source: 's' },
            SourceCall::Release { source: 's' },
        ]
    );
}

#[test]
fn sending_to_a_closed_event_loop_fails() {
    let (event_loop, mut channel) = event_loop(1);
    let (proxy, _) = event_loop.create_proxy(0);
    assert!(event_loop.close(&mut channel).is_empty());
    assert_eq!(proxy.send_event(&mut channel, 7), Err(EventLoopClosed(7)));
}

#[test]
fn owning_handler_hands_out_user_events() {
    let (event_loop, mut channel) = event_loop(1);
    let (proxy, _) = event_loop.create_proxy(0);
    proxy.send_event(&mut channel, 1).unwrap();
    proxy.send_event(&mut channel, 2).unwrap();
    let mut handler: EventLoopHandler<u32, &str> =
        EventLoopHandler::new(event_loop.receiver, target());
    assert_eq!(handler.handle_user_events(&mut channel), Some(Event::UserEvent(1)));
    proxy.send_event(&mut channel, 3).unwrap();
    assert_eq!(handler.handle_user_events(&mut channel), Some(Event::UserEvent(2)));
    assert_eq!(handler.handle_user_events(&mut channel), Some(Event::UserEvent(3)));
    assert_eq!(handler.handle_user_events(&mut channel), None);
    proxy.send_event(&mut channel, 8).unwrap();
    assert_eq!(handler.close(&mut channel), vec![8]);
    assert_eq!(proxy.send_event(&mut channel, 4), Err(EventLoopClosed(4)));
}

#[test]
fn driver_handler_leaves_the_channel_open() {
    let (event_loop, mut channel) = event_loop(1);
    let (proxy, _) = event_loop.create_proxy(0);
    proxy.send_event(&mut channel, 1).unwrap();
    proxy.send_event(&mut channel, 2).unwrap();
    {
        let mut handler: DriverEventLoopHandler<u32, &str> =
            DriverEventLoopHandler::new(event_loop.receiver.borrow(), target());
        assert_eq!(handler.handle_user_events(&mut channel), Some(Event::UserEvent(1)));
    }
    assert!(proxy.send_event(&mut channel, 3).is_ok());
    let mut handler: DriverEventLoopHandler<u32, &str> =
        DriverEventLoopHandler::new(event_loop.receiver.borrow(), target());
    assert_eq!(handler.handle_user_events(&mut channel), Some(Event::UserEvent(2)));
    assert_eq!(handler.handle_user_events(&mut channel), Some(Event::UserEvent(3)));
    assert_eq!(handler.handle_user_events(&mut channel), None);
}

#[test]
fn handlers_pass_other_events_on() {
    let (event_loop, mut channel) = event_loop(1);
    assert_eq!(event_loop.sender.send(&mut channel, 9), Ok(()));
    let mut driver: DriverEventLoopHandler<u32, &str> =
        DriverEventLoopHandler::new(event_loop.receiver.borrow(), target());
    let event: Event<Never, &str> = Event::NonUser("resumed");
    assert_eq!(driver.handle_nonuser_event(event), Event::NonUser("resumed"));
    assert_eq!(driver.handle_user_events(&mut channel), Some(Event::UserEvent(9)));

    let mut handler: EventLoopHandler<u32, &str> =
        EventLoopHandler::new(event_loop.receiver, target());
    let event: Event<Never, &str> = Event::NonUser("suspended");
    assert_eq!(handler.handle_nonuser_event(event), Event::NonUser("suspended"));
    assert_eq!(handler.handle_user_events(&mut channel), None);
}

#[test]
fn only_other_events_can_be_mapped() {
    let event: Event<u32, &str> = Event::NonUser("resumed");
    assert_eq!(event.map_nonuser_event::<u64>(), Ok(Event::NonUser("resumed")));
    let event: Event<u32, &str> = Event::UserEvent(4);
    assert_eq!(event.map_nonuser_event::<u64>(), Err(Event::UserEvent(4)));
}
