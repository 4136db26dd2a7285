use smuc::{
    ClientState, Color, Event, Message, Page, RequestData, ResError, ResMsg, Response, ToastLevel,
};

fn connected_client() -> ClientState {
    let mut c = ClientState::new();
    c.update(Message::LoginFieldChanged("127.0.0.1:3000".to_string(), "ann".to_string(), Color::Green));
    c.update(Message::LoginSubmit);
    c.update(Message::Subscription(Event::Connected));
    c
}

#[test]
fn initial_state() {
    let c = ClientState::new();
    assert_eq!(c.page, Page::Login);
    assert!(c.disconnected);
    assert!(c.login_field.url.is_empty() && c.login_field.name.is_empty());
    assert_eq!(c.login_field.color, Color::Red);
    assert!(c.messages.is_empty() && c.msg_input.is_empty());
    assert!(c.messages_follow);
    assert!(c.connection_url().is_none());
}

#[test]
fn blank_url_is_not_submitted() {
    let mut c = ClientState::new();
    c.update(Message::LoginFieldChanged("   ".to_string(), "ann".to_string(), Color::Blue));
    let a = c.update(Message::LoginSubmit);
    assert!(c.disconnected);
    let t = a.toast.expect("a warning");
    assert_eq!(t.title, "Connection");
    assert_eq!(t.body, "Please enter a server URL");
    assert_eq!(t.level, ToastLevel::Warning);
    assert!(a.send.is_none());
}

#[test]
fn url_submission_connects() {
    let mut c = ClientState::new();
    c.update(Message::LoginFieldChanged(" host:1 ".to_string(), "ann".to_string(), Color::Blue));
    let a = c.update(Message::LoginSubmit);
    assert!(!c.disconnected);
    assert!(a.toast.is_none() && a.send.is_none());
    assert_eq!(c.connection_url().as_deref(), Some(" host:1 "));
}

#[test]
fn connected_sends_login_and_opens_chat() {
    let mut c = ClientState::new();
    c.update(Message::LoginFieldChanged("h:1".to_string(), "ann".to_string(), Color::Green));
    c.update(Message::MessagesScrolled(false));
    let a = c.update(Message::Subscription(Event::Connected));
    assert_eq!(c.page, Page::Chat);
    assert!(c.messages_follow);
    assert!(a.snap_to_end);
    let req = a.send.expect("a login request");
    assert_eq!(req.status, "LOGIN");
    match req.data {
        RequestData::Login(l) => {
            assert_eq!(l.name, "ann");
            assert_eq!(l.color, Color::Green);
        }
        _ => panic!("expected a login"),
    }
    let t = a.toast.unwrap();
    assert_eq!(t.body, "Connected to h:1");
    assert_eq!(t.level, ToastLevel::Success);
}

#[test]
fn failure_returns_to_login() {
    let mut c = connected_client();
    let a = c.update(Message::Subscription(Event::FailConnection));
    assert_eq!(c.page, Page::Login);
    assert!(c.disconnected);
    let t = a.toast.unwrap();
    assert_eq!(t.title, "Connection");
    assert_eq!(t.body, "Failed to connect to 127.0.0.1:3000");
    assert_eq!(t.level, ToastLevel::Error);
}

#[test]
fn chat_messages_are_appended_in_order() {
    let mut c = connected_client();
    for (i, text) in ["one", "two", "three"].iter().enumerate() {
        let a = c.update(Message::Subscription(Event::Response(Response::chat(
            "bob".to_string(),
            Color::Yellow,
            text.to_string(),
        ))));
        assert!(a.snap_to_end);
        assert_eq!(c.messages.len(), i + 1);
    }
    let texts: Vec<&str> = c.messages.iter().map(|m: &ResMsg| m.msg.as_str()).collect();
    assert_eq!(texts, vec!["one", "two", "three"]);
}

#[test]
fn scrolled_up_list_does_not_snap() {
    let mut c = connected_client();
    c.update(Message::MessagesScrolled(false));
    let a = c.update(Message::Subscription(Event::Response(Response::chat(
        "bob".to_string(),
        Color::Red,
        "x".to_string(),
    ))));
    assert!(!a.snap_to_end);
    assert_eq!(c.messages.len(), 1);
}

#[test]
fn join_and_leave_are_notified() {
    let mut c = connected_client();
    let a = c.update(Message::Subscription(Event::Response(Response::joined("bob".to_string()))));
    let t = a.toast.unwrap();
    assert_eq!((t.title.as_str(), t.body.as_str(), t.level), ("Join", "bob joined", ToastLevel::Info));
    let a = c.update(Message::Subscription(Event::Response(Response::left("bob".to_string()))));
    let t = a.toast.unwrap();
    assert_eq!((t.title.as_str(), t.body.as_str(), t.level), ("Leave", "bob left", ToastLevel::Info));
    assert!(c.messages.is_empty());
}

#[test]
fn server_error_is_reported() {
    let mut c = connected_client();
    let a = c.update(Message::Subscription(Event::Response(Response::error(
        "PARSE",
        "Username already exists".to_string(),
    ))));
    let e: ResError = a.report.unwrap();
    assert_eq!(e.kind, "PARSE");
    assert_eq!(e.msg, "Username already exists");
    assert!(a.toast.is_none() && a.send.is_none());
}

#[test]
fn blank_message_not_sent() {
    let mut c = connected_client();
    c.update(Message::MsgFieldChanged(" \t ".to_string()));
    let a = c.update(Message::MsgSend);
    assert!(a.send.is_none());
    assert_eq!(c.msg_input, " \t ");
}

#[test]
fn message_sent_as_typed_and_input_cleared() {
    let mut c = connected_client();
    c.update(Message::MsgFieldChanged("  hi there ".to_string()));
    let a = c.update(Message::MsgSend);
    let req = a.send.unwrap();
    assert_eq!(req.status, "MSG");
    assert!(matches!(req.data, RequestData::Msg(ref m) if m == "  hi there "));
    assert!(c.msg_input.is_empty());
}

#[test]
fn update_with_takes_blankness_as_given() {
    let mut c = connected_client();
    c.update_with(Message::MsgFieldChanged("abc".to_string()), false);
    let a = c.update_with(Message::MsgSend, true);
    assert!(a.send.is_none());
    assert_eq!(c.msg_input, "abc");
}

#[test]
fn unicode_white_space_is_blank() {
    let mut c = connected_client();
    c.update(Message::MsgFieldChanged("\u{3000}\u{a0}\n".to_string()));
    assert!(c.update(Message::MsgSend).send.is_none());
    // a zero-width space is not White_Space
    c.update(Message::MsgFieldChanged("\u{200b}".to_string()));
    assert!(c.update(Message::MsgSend).send.is_some());
}
