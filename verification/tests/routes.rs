use https_server::routes::api::{list_items, Item};
use https_server::routes::metrics::CONTENT_TYPE;
use https_server::routes::websocket::{CloseReason, EchoWs, Message, Reply};

#[test]
fn the_listing_holds_three_items_in_order() {
    let items = list_items();
    assert_eq!(
        items,
        vec![
            Item { id: 1, name: "Maxwell".to_string() },
            Item { id: 2, name: "Bingus".to_string() },
            Item { id: 3, name: "Floppa".to_string() },
        ]
    );
}

#[test]
fn the_listing_is_the_same_on_every_call() {
    let first = list_items();
    for _ in 0..10 {
        assert_eq!(list_items(), first);
    }
    assert_eq!(first.len(), 3);
}

#[test]
fn metrics_are_served_as_plain_text() {
    assert_eq!(CONTENT_TYPE, "text/plain; version=0.0.4");
}

#[test]
fn a_text_frame_is_echoed_behind_the_prefix() {
    let mut session = EchoWs::new();
    let reply = session.handle(Message::Text("hello".to_string()));
    assert_eq!(reply, Reply::Text("Echo: hello".to_string()));
    assert!(!session.is_stopped());
}

#[test]
fn an_empty_text_frame_gives_the_prefix_alone() {
    let mut session = EchoWs::new();
    assert_eq!(
        session.handle(Message::Text(String::new())),
        Reply::Text("Echo: ".to_string())
    );
}

#[test]
fn a_binary_frame_is_echoed_unchanged() {
    let mut session = EchoWs::new();
    let reply = session.handle(Message::Binary(vec![0, 1, 2, 255]));
    assert_eq!(reply, Reply::Binary(vec![0, 1, 2, 255]));
    assert!(!session.is_stopped());
}

#[test]
fn a_ping_is_answered_by_a_pong_with_its_payload() {
    let mut session = EchoWs::new();
    let reply = session.handle(Message::Ping(vec![7, 8]));
    assert_eq!(reply, Reply::Pong(vec![7, 8]));
    assert!(!session.is_stopped());
}

#[test]
fn a_close_frame_closes_with_the_same_reason() {
    let mut session = EchoWs::new();
    let reason = Some(CloseReason { code: 1000, description: Some("bye".to_string()) });
    let reply = session.handle(Message::Close(reason.clone()));
    assert_eq!(reply, Reply::Close(reason));
    assert!(session.is_stopped());
}

#[test]
fn a_close_frame_without_a_reason_closes_without_one() {
    let mut session = EchoWs::new();
    assert_eq!(session.handle(Message::Close(None)), Reply::Close(None));
    assert!(session.is_stopped());
}

#[test]
fn other_frames_are_not_answered() {
    let mut session = EchoWs::new();
    assert_eq!(session.handle(Message::Pong(vec![1])), Reply::Nothing);
    assert_eq!(session.handle(Message::Other), Reply::Nothing);
    assert!(!session.is_stopped());
}

#[test]
fn an_ended_session_sends_nothing() {
    let mut session = EchoWs::new();
    session.handle(Message::Close(None));
    assert_eq!(session.handle(Message::Text("late".to_string())), Reply::Nothing);
    assert_eq!(session.handle(Message::Ping(vec![1])), Reply::Nothing);
    assert_eq!(session.handle(Message::Close(None)), Reply::Nothing);
    assert!(session.is_stopped());
}

#[test]
fn frames_are_answered_in_arrival_order() {
    let mut session = EchoWs::new();
    let frames = vec![
        Message::Text("a".to_string()),
        Message::Binary(vec![1]),
        Message::Text("b".to_string()),
    ];
    let replies: Vec<Reply> = frames.into_iter().map(|f| session.handle(f)).collect();
    assert_eq!(
        replies,
        vec![
            Reply::Text("Echo: a".to_string()),
            Reply::Binary(vec![1]),
            Reply::Text("Echo: b".to_string()),
        ]
    );
}

#[test]
fn a_whole_session_is_answered_frame_by_frame() {
    let mut session = EchoWs::new();
    let replies = session.handle_all(vec![
        Message::Text("hello".to_string()),
        Message::Ping(vec![1, 2]),
        Message::Pong(vec![3]),
        Message::Binary(vec![4, 5, 6]),
    ]);
    assert_eq!(
        replies,
        vec![
            Reply::Text("Echo: hello".to_string()),
            Reply::Pong(vec![1, 2]),
            Reply::Nothing,
            Reply::Binary(vec![4, 5, 6]),
        ]
    );
    assert!(!session.is_stopped());
}

#[test]
fn nothing_is_answered_behind_the_first_close_frame() {
    let mut session = EchoWs::new();
    let reason = Some(CloseReason { code: 1001, description: None });
    let replies = session.handle_all(vec![
        Message::Text("one".to_string()),
        Message::Close(reason.clone()),
        Message::Text("two".to_string()),
        Message::Close(None),
    ]);
    assert_eq!(
        replies,
        vec![
            Reply::Text("Echo: one".to_string()),
            Reply::Close(reason),
            Reply::Nothing,
            Reply::Nothing,
        ]
    );
    assert!(session.is_stopped());
}

#[test]
fn a_session_without_frames_sends_nothing_and_goes_on() {
    let mut session = EchoWs::new();
    assert_eq!(session.handle_all(Vec::new()), Vec::<Reply>::new());
    assert!(!session.is_stopped());
    assert_eq!(
        session.handle_all(vec![Message::Text("x".to_string())]),
        vec![Reply::Text("Echo: x".to_string())]
    );
}
