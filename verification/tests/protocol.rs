use smuc::{Color, Request, RequestData, Response, ResponseData};

#[test]
fn color_names_match_display_text() {
    assert_eq!(Color::Red.name(), "Red");
    assert_eq!(Color::Green.name(), "Green");
    assert_eq!(Color::Yellow.name(), "Yellow");
    assert_eq!(Color::Blue.name(), "Blue");
    assert_eq!(Color::Purple.name(), "Purple");
}

#[test]
fn default_color_is_red() {
    assert_eq!(Color::default(), Color::Red);
}

#[test]
fn all_colors_in_offer_order() {
    assert_eq!(
        Color::ALL,
        [Color::Red, Color::Green, Color::Yellow, Color::Blue, Color::Purple]
    );
}

#[test]
fn login_request_fields() {
    let r = Request::login("ann".to_string(), Color::Blue);
    assert_eq!(r.status, "LOGIN");
    match r.data {
        RequestData::Login(l) => {
            assert_eq!(l.name, "ann");
            assert_eq!(l.color, Color::Blue);
        }
        RequestData::Msg(_) => panic!("expected a login payload"),
    }
}

#[test]
fn message_request_fields() {
    let r = Request::message("hello".to_string());
    assert_eq!(r.status, "MSG");
    match r.data {
        RequestData::Msg(m) => assert_eq!(m, "hello"),
        RequestData::Login(_) => panic!("expected a message payload"),
    }
}

#[test]
fn error_response_fields() {
    let r = Response::error("PARSE", "bad json".to_string());
    assert_eq!(r.status, "ERR");
    match r.data {
        ResponseData::Error(e) => {
            assert_eq!(e.kind, "PARSE");
            assert_eq!(e.msg, "bad json");
        }
        _ => panic!("expected an error payload"),
    }
}

#[test]
fn chat_join_leave_responses() {
    let r = Response::chat("bob".to_string(), Color::Green, "hi".to_string());
    assert_eq!(r.status, "MSG");
    match r.data {
        ResponseData::Msg(m) => {
            assert_eq!(m.user, "bob");
            assert_eq!(m.color, Color::Green);
            assert_eq!(m.msg, "hi");
        }
        _ => panic!("expected a message payload"),
    }
    let j = Response::joined("bob".to_string());
    assert_eq!(j.status, "JOIN");
    assert!(matches!(j.data, ResponseData::Join(ref n) if n == "bob"));
    let l = Response::left("bob".to_string());
    assert_eq!(l.status, "LEAVE");
    assert!(matches!(l.data, ResponseData::Leave(ref n) if n == "bob"));
}
