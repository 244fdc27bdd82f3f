use judge_slave::link::{Link, LinkAction, LinkEvent, Phase};
use judge_slave::state::Actions;

#[test]
fn failed_connection_is_tried_again_after_the_sleep_time() {
    let mut link = Link::new(5);
    assert_eq!(link.phase, Phase::Connecting);
    assert_eq!(link.step(LinkEvent::Connected(false)), LinkAction::Sleep(5));
    assert_eq!(link.phase, Phase::Waiting);
    assert_eq!(link.step(LinkEvent::Slept), LinkAction::Connect);
    assert_eq!(link.phase, Phase::Connecting);
    assert_eq!(link.step(LinkEvent::Connected(true)), LinkAction::OpenSession);
    assert_eq!(link.phase, Phase::Polling);
    assert_eq!(link.sleep_time, 5);
}

#[test]
fn packets_are_read_while_there_is_no_signal() {
    let mut link = Link::new(5);
    link.step(LinkEvent::Connected(true));
    assert_eq!(link.step(LinkEvent::Signalled(None)), LinkAction::ReadPacket);
    assert_eq!(link.phase, Phase::Reading);
    assert_eq!(link.step(LinkEvent::Received(true)), LinkAction::Dispatch);
    assert_eq!(link.phase, Phase::Polling);
    assert_eq!(link.step(LinkEvent::Signalled(Some(Actions::Unknown))), LinkAction::ReadPacket);
    assert_eq!(link.step(LinkEvent::Received(false)), LinkAction::PollSignal);
    assert_eq!(link.phase, Phase::Polling);
}

#[test]
fn reconnect_waits_as_long_as_it_says() {
    let mut link = Link::new(5);
    link.step(LinkEvent::Connected(true));
    let signal = LinkEvent::Signalled(Some(Actions::Reconnect(0)));
    assert_eq!(link.step(signal), LinkAction::Sleep(0));
    assert_eq!(link.step(LinkEvent::Slept), LinkAction::Connect);
    link.step(LinkEvent::Connected(true));
    let signal = LinkEvent::Signalled(Some(Actions::Reconnect(17)));
    assert_eq!(link.step(signal), LinkAction::Sleep(17));
    assert_eq!(link.phase, Phase::Waiting);
}

#[test]
fn shutdown_ends_the_loop() {
    let mut link = Link::new(5);
    link.step(LinkEvent::Connected(true));
    link.step(LinkEvent::Signalled(None));
    link.step(LinkEvent::Received(true));
    let signal = LinkEvent::Signalled(Some(Actions::Shutdown));
    assert_eq!(link.step(signal), LinkAction::Exit);
    assert_eq!(link.phase, Phase::Finished);
}
