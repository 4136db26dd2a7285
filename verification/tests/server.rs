use smuc::{
    classify, ChatRoom, Color, Command, ConnEvent, Flow, PeerAddr, ReqLogin, Reply, Request,
    RequestData, Response, ResponseData,
};

fn addr(port: u16) -> PeerAddr {
    PeerAddr { ip: 0x7f00_0001, port, v6: false, flowinfo: 0, scope_id: 0 }
}

fn login(name: &str, color: Color) -> ReqLogin {
    ReqLogin { name: name.to_string(), color }
}

fn expect_error(r: &Response, kind: &str, msg: &str) {
    assert_eq!(r.status, "ERR");
    match &r.data {
        ResponseData::Error(e) => {
            assert_eq!(e.kind, kind);
            assert_eq!(e.msg, msg);
        }
        _ => panic!("expected an error response"),
    }
}

#[test]
fn classify_matching_status_and_payload() {
    match classify(Request::login("ann".to_string(), Color::Red)) {
        Command::Login(l) => assert_eq!(l.name, "ann"),
        _ => panic!("expected a login"),
    }
    match classify(Request::message("yo".to_string())) {
        Command::Msg(m) => assert_eq!(m, "yo"),
        _ => panic!("expected a message"),
    }
}

#[test]
fn classify_unbalanced_requests() {
    let a = Request { status: "LOGIN".to_string(), data: RequestData::Msg("x".to_string()) };
    assert!(matches!(classify(a), Command::Unbalanced));
    let b = Request { status: "MSG".to_string(), data: RequestData::Login(login("ann", Color::Red)) };
    assert!(matches!(classify(b), Command::Unbalanced));
    let c = Request { status: "login".to_string(), data: RequestData::Login(login("ann", Color::Red)) };
    assert!(matches!(classify(c), Command::Unbalanced));
}

#[test]
fn login_accepted_and_announced() {
    let mut room = ChatRoom::new();
    assert!(!room.contains(&addr(1)));
    let joined = room.login(addr(1), login("ann", Color::Blue)).unwrap();
    assert_eq!(joined.status, "JOIN");
    assert!(matches!(joined.data, ResponseData::Join(ref n) if n == "ann"));
    assert!(room.contains(&addr(1)));
    assert!(room.name_taken(&"ann".to_string()));
    assert!(!room.name_taken(&"bob".to_string()));
}

#[test]
fn duplicate_name_refused_and_room_unchanged() {
    let mut room = ChatRoom::new();
    room.login(addr(1), login("ann", Color::Blue)).unwrap();
    let refusal = room.login(addr(2), login("ann", Color::Red)).unwrap_err();
    expect_error(&refusal, "PARSE", "Username already exists");
    assert!(!room.contains(&addr(2)));
    let post = room.post(&addr(1), "still me".to_string());
    assert!(matches!(post.data, ResponseData::Msg(ref m) if m.color == Color::Blue));
}

#[test]
fn relogin_from_same_address_replaces_user() {
    let mut room = ChatRoom::new();
    room.login(addr(1), login("ann", Color::Blue)).unwrap();
    // the name it already holds is taken, even by itself
    assert!(room.login(addr(1), login("ann", Color::Red)).is_err());
    room.login(addr(1), login("anna", Color::Purple)).unwrap();
    assert!(!room.name_taken(&"ann".to_string()));
    assert!(room.name_taken(&"anna".to_string()));
    let post = room.post(&addr(1), "hi".to_string());
    match post.data {
        ResponseData::Msg(m) => {
            assert_eq!(m.user, "anna");
            assert_eq!(m.color, Color::Purple);
        }
        _ => panic!("expected a chat message"),
    }
}

#[test]
fn post_carries_sender_name_and_color() {
    let mut room = ChatRoom::new();
    room.login(addr(1), login("ann", Color::Yellow)).unwrap();
    room.login(addr(2), login("bob", Color::Green)).unwrap();
    let r = room.post(&addr(2), "hello all".to_string());
    assert_eq!(r.status, "MSG");
    match r.data {
        ResponseData::Msg(m) => {
            assert_eq!(m.user, "bob");
            assert_eq!(m.color, Color::Green);
            assert_eq!(m.msg, "hello all");
        }
        _ => panic!("expected a chat message"),
    }
}

#[test]
fn leave_undoes_login() {
    let mut room = ChatRoom::new();
    room.login(addr(1), login("ann", Color::Red)).unwrap();
    room.login(addr(2), login("bob", Color::Red)).unwrap();
    let bye = room.leave(&addr(2));
    assert_eq!(bye.status, "LEAVE");
    assert!(matches!(bye.data, ResponseData::Leave(ref n) if n == "bob"));
    assert!(!room.contains(&addr(2)));
    assert!(!room.name_taken(&"bob".to_string()));
    assert!(room.contains(&addr(1)));
    // the name is free again
    room.login(addr(3), login("bob", Color::Blue)).unwrap();
}

#[test]
fn names_stay_unique() {
    let mut room = ChatRoom::new();
    for port in 1..6u16 {
        let r = room.login(addr(port), login("same", Color::Red));
        assert_eq!(r.is_ok(), port == 1);
    }
    room.leave(&addr(1));
    assert!(room.login(addr(4), login("same", Color::Red)).is_ok());
}

#[test]
fn event_read_failed_stops_without_leaving() {
    let mut room = ChatRoom::new();
    room.login(addr(1), login("ann", Color::Red)).unwrap();
    let out = room.handle_event(addr(1), ConnEvent::ReadFailed);
    assert_eq!(out.flow, Flow::Stop);
    assert!(out.reply.is_none() && out.broadcast.is_none());
    assert!(room.contains(&addr(1)));
}

#[test]
fn event_closed_leaves() {
    let mut room = ChatRoom::new();
    let out = room.handle_event(addr(1), ConnEvent::Closed);
    assert_eq!(out.flow, Flow::Leave);
    assert!(out.reply.is_none() && out.broadcast.is_none());
}

#[test]
fn event_malformed_answers_parse_error_then_leaves() {
    let mut room = ChatRoom::new();
    let out = room.handle_event(addr(1), ConnEvent::Malformed("expected value at line 1 column 1".to_string()));
    assert_eq!(out.flow, Flow::Leave);
    match out.reply {
        Some(Reply::Respond(r)) => expect_error(&r, "PARSE", "expected value at line 1 column 1"),
        _ => panic!("expected an error answer"),
    }
    assert!(out.broadcast.is_none());
}

#[test]
fn event_relayed_is_forwarded() {
    let mut room = ChatRoom::new();
    let out = room.handle_event(addr(1), ConnEvent::Relayed("{\"x\":1}".to_string()));
    assert_eq!(out.flow, Flow::Continue);
    assert!(matches!(out.reply, Some(Reply::Forward(ref t)) if t == "{\"x\":1}"));
}

#[test]
fn event_login_then_message() {
    let mut room = ChatRoom::new();
    let ev = ConnEvent::Received(Request::login("ann".to_string(), Color::Purple));
    assert!(room.can_handle(&addr(1), &ev));
    let out = room.handle_event(addr(1), ev);
    assert_eq!(out.flow, Flow::Continue);
    assert!(out.reply.is_none());
    assert!(matches!(out.broadcast, Some(Response { data: ResponseData::Join(ref n), .. }) if n == "ann"));
    let ev = ConnEvent::Received(Request::message("hey".to_string()));
    assert!(room.can_handle(&addr(1), &ev));
    let out = room.handle_event(addr(1), ev);
    match out.broadcast {
        Some(Response { data: ResponseData::Msg(m), .. }) => {
            assert_eq!(m.user, "ann");
            assert_eq!(m.color, Color::Purple);
            assert_eq!(m.msg, "hey");
        }
        _ => panic!("expected a chat broadcast"),
    }
}

#[test]
fn event_refused_login_stops() {
    let mut room = ChatRoom::new();
    room.login(addr(1), login("ann", Color::Red)).unwrap();
    let out = room.handle_event(addr(2), ConnEvent::Received(Request::login("ann".to_string(), Color::Blue)));
    assert_eq!(out.flow, Flow::Stop);
    assert!(out.broadcast.is_none());
    match out.reply {
        Some(Reply::Respond(r)) => expect_error(&r, "PARSE", "Username already exists"),
        _ => panic!("expected a refusal"),
    }
    assert!(!room.contains(&addr(2)));
}

#[test]
fn event_unbalanced_answers_data_error() {
    let mut room = ChatRoom::new();
    let req = Request { status: "MSG".to_string(), data: RequestData::Login(login("ann", Color::Red)) };
    let out = room.handle_event(addr(1), ConnEvent::Received(req));
    assert_eq!(out.flow, Flow::Continue);
    match out.reply {
        Some(Reply::Respond(r)) => expect_error(&r, "DATA", "Data is not well balanced"),
        _ => panic!("expected an error answer"),
    }
    assert!(!room.contains(&addr(1)));
}

#[test]
fn message_before_login_cannot_be_handled() {
    let room = ChatRoom::new();
    assert!(!room.can_handle(&addr(1), &ConnEvent::Received(Request::message("hi".to_string()))));
    assert!(room.can_handle(&addr(1), &ConnEvent::Closed));
}

#[test]
fn ipv6_and_ipv4_addresses_are_distinct() {
    let mut room = ChatRoom::new();
    let v4 = addr(9);
    let v6 = PeerAddr { ip: 0x7f00_0001, port: 9, v6: true, flowinfo: 0, scope_id: 0 };
    room.login(v4, login("a", Color::Red)).unwrap();
    room.login(v6, login("b", Color::Red)).unwrap();
    assert!(room.contains(&v4) && room.contains(&v6));
    room.leave(&v4);
    assert!(!room.contains(&v4) && room.contains(&v6));
}
