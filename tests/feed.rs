use carrera_live::feed::{category_of, FeedCategory, CHANNEL_CAPACITY, LagPolicy, Received, Viewer, ViewerAction};
use carrera_live::model::{CarState, CarreraEvent};
use tokio::sync::broadcast;
use tokio::sync::broadcast::error::TryRecvError;

#[test]
fn labels() {
    assert_eq!(category_of(&CarreraEvent::ControllerUpdate(1, 2)), FeedCategory::Controller);
    assert_eq!(category_of(&CarreraEvent::Reset), FeedCategory::Arduino);
    assert_eq!(category_of(&CarreraEvent::LightUpdate(3)), FeedCategory::Arduino);
    assert_eq!(category_of(&CarreraEvent::NewLap(1, 5)), FeedCategory::Arduino);
    assert_eq!(category_of(&CarreraEvent::CarUpdate(0, CarState::default())), FeedCategory::Arduino);
    assert_eq!(FeedCategory::Controller.name(), "Controller");
    assert_eq!(FeedCategory::Arduino.name(), "Arduino");
}

#[test]
fn viewer_steps() {
    let mut v = Viewer::new(LagPolicy::Notify);
    assert_eq!(
        v.step(Received::Event(CarreraEvent::ControllerUpdate(1, 2))),
        ViewerAction::Forward(FeedCategory::Controller, CarreraEvent::ControllerUpdate(1, 2))
    );
    assert_eq!(v.step(Received::Lagged(3)), ViewerAction::NotifyLag(3));
    assert_eq!(v.missed, 3);
    assert!(v.open);
    assert_eq!(v.step(Received::Closed), ViewerAction::Stop);
    assert!(!v.open);
    assert_eq!(v.step(Received::Event(CarreraEvent::Reset)), ViewerAction::Stop);

    let mut quiet = Viewer::new(LagPolicy::Skip);
    assert_eq!(quiet.step(Received::Lagged(u64::MAX)), ViewerAction::Skip);
    assert_eq!(quiet.step(Received::Lagged(1)), ViewerAction::Skip);
    assert_eq!(quiet.missed, u64::MAX);
}

fn received(r: Result<CarreraEvent, TryRecvError>) -> Received {
    match r {
        Ok(e) => Received::Event(e),
        Err(TryRecvError::Lagged(n)) => Received::Lagged(n),
        Err(_) => Received::Closed,
    }
}

#[test]
fn lagging_subscriber_keeps_receiving() {
    let (tx, mut rx) = broadcast::channel::<CarreraEvent>(CHANNEL_CAPACITY);
    for i in 0..20u8 {
        tx.send(CarreraEvent::LightUpdate(i)).unwrap();
    }
    let mut v = Viewer::new(LagPolicy::Notify);
    assert_eq!(v.step(received(rx.try_recv())), ViewerAction::NotifyLag(4));
    assert!(v.open);
    assert_eq!(
        v.step(received(rx.try_recv())),
        ViewerAction::Forward(FeedCategory::Arduino, CarreraEvent::LightUpdate(4))
    );
    tx.send(CarreraEvent::ControllerUpdate(0, 1)).unwrap();
    let mut last = ViewerAction::Skip;
    for _ in 0..16 {
        last = v.step(received(rx.try_recv()));
    }
    assert_eq!(last, ViewerAction::Forward(FeedCategory::Controller, CarreraEvent::ControllerUpdate(0, 1)));
    drop(tx);
    assert_eq!(v.step(received(rx.try_recv())), ViewerAction::Stop);
}
