use vstd::prelude::*;

use crate::protocol::{
    Color, Request, RequestView, ResError, ResMsg, ResMsgView, Response, ResponseData,
    login_request, message_request,
};

verus! {

/// The characters with the Unicode White_Space property, the whitespace
/// that `str::trim` and `char::is_whitespace` go by.
pub open spec fn is_white_space(c: char) -> bool {
    let n = c as u32;
    ||| 0x09 <= n <= 0x0d
    ||| n == 0x20
    ||| n == 0x85
    ||| n == 0xa0
    ||| n == 0x1680
    ||| 0x2000 <= n <= 0x200a
    ||| n == 0x2028
    ||| n == 0x2029
    ||| n == 0x202f
    ||| n == 0x205f
    ||| n == 0x3000
}

/// `s[i..j]` is what is left of `s` once its leading and trailing white
/// space is removed: everything outside it is white space, and it neither
/// starts nor ends with white space.
pub open spec fn trim_bounds(s: Seq<char>, i: int, j: int) -> bool {
    &&& 0 <= i <= j <= s.len()
    &&& forall|k: int| 0 <= k < i ==> is_white_space(#[trigger] s[k])
    &&& forall|k: int| j <= k < s.len() ==> is_white_space(#[trigger] s[k])
    &&& i < j ==> !is_white_space(s[i]) && !is_white_space(s[j - 1])
}

/// Calls `str::trim`, which returns `s` without its leading and trailing
/// white space, white space being the characters with the Unicode White_Space
/// property (`is_white_space`).
#[verifier::external_body]
fn trim(s: &str) -> (res: &str)
    ensures
        res@.len() <= s@.len() && exists|i: int| trim_bounds(s@, i, i + res@.len()) && res@ == #[trigger] s@.subrange(i, i + res@.len()),
{
    s.trim()
}

/// Whether `s` holds nothing but white space.
pub open spec fn is_blank(s: Seq<char>) -> bool {
    forall|k: int| 0 <= k < s.len() ==> is_white_space(#[trigger] s[k])
}

/// A trimmed string is empty exactly when the string was blank.
proof fn lemma_trimmed_empty_iff_blank(s: Seq<char>, r: Seq<char>)
    requires
        r.len() <= s.len() && exists|i: int| trim_bounds(s, i, i + r.len()) && r == #[trigger] s.subrange(i, i + r.len()),
    ensures
        (r.len() == 0) == is_blank(s),
{
    let i = choose|i: int| trim_bounds(s, i, i + r.len()) && r == #[trigger] s.subrange(i, i + r.len());
    if r.len() == 0 {
        assert forall|k: int| 0 <= k < s.len() implies is_white_space(#[trigger] s[k]) by {
            if k < i {
            } else {
            }
        }
    } else {
        assert(!is_white_space(s[i]));
    }
}

/// Which page the client shows.
#[derive(Debug, Clone, Copy, PartialEq, Eq, Structural)]
pub enum Page {
    Login,
    Chat,
}

/// The fields of the login form.
#[derive(Debug, Clone)]
pub struct LoginField {
    pub url: String,
    pub name: String,
    pub color: Color,
}

/// How a notification is shown.
#[derive(Debug, Clone, Copy, PartialEq, Eq, Structural)]
pub enum ToastLevel {
    Info,
    Success,
    Warning,
    Error,
}

/// A notification to show: its title, its text and its level.
#[derive(Debug, Clone)]
pub struct Toast {
    pub title: String,
    pub body: String,
    pub level: ToastLevel,
}

pub struct ToastView {
    pub title: Seq<char>,
    pub body: Seq<char>,
    pub level: ToastLevel,
}

impl View for Toast {
    type V = ToastView;

    open spec fn view(&self) -> ToastView {
        ToastView { title: self.title@, body: self.body@, level: self.level }
    }
}

/// What the connection to the server reports.
pub enum Event {
    /// The connection failed or was lost.
    FailConnection,
    /// The connection is up; requests can be sent on it.
    Connected,
    /// The server sent a response.
    Response(Response),
}

/// What the user or the connection did.
pub enum Message {
    Subscription(Event),
    LoginSubmit,
    MsgSend,
    LoginFieldChanged(String, String, Color),
    MsgFieldChanged(String),
    /// The message list was scrolled; the flag says whether it now shows its end.
    MessagesScrolled(bool),
}

pub enum EventView {
    FailConnection,
    Connected,
    Response(crate::protocol::ResponseView),
}

impl View for Event {
    type V = EventView;

    open spec fn view(&self) -> EventView {
        match self {
            Event::FailConnection => EventView::FailConnection,
            Event::Connected => EventView::Connected,
            Event::Response(r) => EventView::Response(r@),
        }
    }
}

pub enum MessageView {
    Subscription(EventView),
    LoginSubmit,
    MsgSend,
    LoginFieldChanged(Seq<char>, Seq<char>, Color),
    MsgFieldChanged(Seq<char>),
    MessagesScrolled(bool),
}

impl View for Message {
    type V = MessageView;

    open spec fn view(&self) -> MessageView {
        match self {
            Message::Subscription(Event::FailConnection) => MessageView::Subscription(EventView::FailConnection),
            Message::Subscription(Event::Connected) => MessageView::Subscription(EventView::Connected),
            Message::Subscription(Event::Response(r)) => MessageView::Subscription(EventView::Response(r@)),
            Message::LoginSubmit => MessageView::LoginSubmit,
            Message::MsgSend => MessageView::MsgSend,
            Message::LoginFieldChanged(u, n, c) => MessageView::LoginFieldChanged(u@, n@, *c),
            Message::MsgFieldChanged(m) => MessageView::MsgFieldChanged(m@),
            Message::MessagesScrolled(b) => MessageView::MessagesScrolled(*b),
        }
    }
}

/// What the client does besides changing its state: show a notification,
/// send a request on the connection, scroll the message list to its end,
/// report an error that the server sent.
pub struct ClientAction {
    pub toast: Option<Toast>,
    pub send: Option<Request>,
    pub snap_to_end: bool,
    pub report: Option<ResError>,
}

pub struct ClientActionView {
    pub toast: Option<ToastView>,
    pub send: Option<RequestView>,
    pub snap_to_end: bool,
    pub report: Option<(Seq<char>, Seq<char>)>,
}

impl View for ClientAction {
    type V = ClientActionView;

    open spec fn view(&self) -> ClientActionView {
        ClientActionView {
            toast: match self.toast {
                Some(t) => Some(t@),
                None => None,
            },
            send: match self.send {
                Some(r) => Some(r@),
                None => None,
            },
            snap_to_end: self.snap_to_end,
            report: match self.report {
                Some(e) => Some((e.kind@, e.msg@)),
                None => None,
            },
        }
    }
}

/// The client's state: the page it shows, whether it stays disconnected, the
/// login form, the messages received, the message being typed, and whether
/// the message list follows new messages.
pub struct ClientState {
    pub page: Page,
    pub disconnected: bool,
    pub login_field: LoginField,
    pub messages: Vec<ResMsg>,
    pub msg_input: String,
    pub messages_follow: bool,
}

pub struct ClientView {
    pub page: Page,
    pub disconnected: bool,
    pub url: Seq<char>,
    pub name: Seq<char>,
    pub color: Color,
    pub messages: Seq<ResMsgView>,
    pub msg_input: Seq<char>,
    pub messages_follow: bool,
}

impl View for ClientState {
    type V = ClientView;

    open spec fn view(&self) -> ClientView {
        ClientView {
            page: self.page,
            disconnected: self.disconnected,
            url: self.login_field.url@,
            name: self.login_field.name@,
            color: self.login_field.color,
            messages: self.messages@.map_values(|m: ResMsg| m@),
            msg_input: self.msg_input@,
            messages_follow: self.messages_follow,
        }
    }
}

pub open spec fn no_action() -> ClientActionView {
    ClientActionView { toast: None, send: None, snap_to_end: false, report: None }
}

pub open spec fn toast_action(title: Seq<char>, body: Seq<char>, level: ToastLevel) -> ClientActionView {
    ClientActionView {
        toast: Some(ToastView { title, body, level }),
        send: None,
        snap_to_end: false,
        report: None,
    }
}

/// Whether the input that `msg` acts on is blank: the URL for a login
/// submission, the typed message for a send.
pub open spec fn input_blank(s: ClientView, msg: MessageView) -> bool {
    match msg {
        MessageView::LoginSubmit => is_blank(s.url),
        MessageView::MsgSend => is_blank(s.msg_input),
        _ => false,
    }
}

/// The client's next state and action on `msg`, `blank` telling whether the
/// input the message acts on is blank (see `input_blank`).
pub open spec fn client_step(s: ClientView, msg: MessageView, blank: bool) -> (ClientView, ClientActionView) {
    match msg {
        MessageView::Subscription(EventView::FailConnection) => (
            ClientView { disconnected: true, page: Page::Login, ..s },
            toast_action("Connection"@, "Failed to connect to "@ + s.url, ToastLevel::Error),
        ),
        MessageView::Subscription(EventView::Connected) => (
            ClientView { page: Page::Chat, messages_follow: true, ..s },
            ClientActionView {
                toast: Some(ToastView { title: "Connection"@, body: "Connected to "@ + s.url, level: ToastLevel::Success }),
                send: Some(login_request(s.name, s.color)),
                snap_to_end: true,
                report: None,
            },
        ),
        MessageView::Subscription(EventView::Response(r)) => match r.data {
            crate::protocol::ResponseDataView::Error { kind, msg } => (
                s,
                ClientActionView { toast: None, send: None, snap_to_end: false, report: Some((kind, msg)) },
            ),
            crate::protocol::ResponseDataView::Msg(m) => (
                ClientView { messages: s.messages.push(m), ..s },
                ClientActionView { toast: None, send: None, snap_to_end: s.messages_follow, report: None },
            ),
            crate::protocol::ResponseDataView::Join(n) => (s, toast_action("Join"@, n + " joined"@, ToastLevel::Info)),
            crate::protocol::ResponseDataView::Leave(n) => (s, toast_action("Leave"@, n + " left"@, ToastLevel::Info)),
        },
        MessageView::LoginSubmit => {
            if blank {
                (s, toast_action("Connection"@, "Please enter a server URL"@, ToastLevel::Warning))
            } else {
                (ClientView { disconnected: false, ..s }, no_action())
            }
        },
        MessageView::MsgSend => {
            if blank {
                (s, no_action())
            } else {
                (
                    ClientView { msg_input: Seq::empty(), ..s },
                    ClientActionView { toast: None, send: Some(message_request(s.msg_input)), snap_to_end: false, report: None },
                )
            }
        },
        MessageView::LoginFieldChanged(url, name, color) => (ClientView { url, name, color, ..s }, no_action()),
        MessageView::MsgFieldChanged(m) => (ClientView { msg_input: m, ..s }, no_action()),
        MessageView::MessagesScrolled(at_end) => (ClientView { messages_follow: at_end, ..s }, no_action()),
    }
}

impl ClientState {
    /// The state the client starts in: the login page, disconnected, with an
    /// empty form (colour red) and no messages, following new messages.
    pub fn new() -> (res: ClientState)
        ensures
            res@.page == Page::Login,
            res@.disconnected,
            res@.url == Seq::<char>::empty(),
            res@.name == Seq::<char>::empty(),
            res@.color == Color::Red,
            res@.messages == Seq::<ResMsgView>::empty(),
            res@.msg_input == Seq::<char>::empty(),
            res@.messages_follow,
    {
        let res = ClientState {
            page: Page::Login,
            disconnected: true,
            login_field: LoginField { url: String::new(), name: String::new(), color: Color::Red },
            messages: Vec::new(),
            msg_input: String::new(),
            messages_follow: true,
        };
        assert(res@.messages =~= Seq::<ResMsgView>::empty());
        res
    }

    /// The server the client should be connected to: none while it stays
    /// disconnected, else the URL of the login form.
    pub fn connection_url(&self) -> (res: Option<String>)
        ensures
            match res {
                Some(u) => !self.disconnected && u@ == self.login_field.url@,
                None => self.disconnected,
            },
    {
        if self.disconnected {
            None
        } else {
            Some(self.login_field.url.clone())
        }
    }

    /// Applies `msg`, `blank` telling whether the input it acts on is blank.
    pub fn update_with(&mut self, msg: Message, blank: bool) -> (res: ClientAction)
        ensures
            (final(self)@, res@) == client_step(old(self)@, msg@, blank),
    {
        match msg {
            Message::Subscription(Event::FailConnection) => {
                self.disconnected = true;
                self.page = Page::Login;
                let body = "Failed to connect to ".to_owned().concat(self.login_field.url.as_str());
                ClientAction {
                    toast: Some(Toast { title: "Connection".to_owned(), body, level: ToastLevel::Error }),
                    send: None,
                    snap_to_end: false,
                    report: None,
                }
            },
            Message::Subscription(Event::Connected) => {
                let login = Request::login(self.login_field.name.clone(), self.login_field.color);
                self.page = Page::Chat;
                self.messages_follow = true;
                let body = "Connected to ".to_owned().concat(self.login_field.url.as_str());
                ClientAction {
                    toast: Some(Toast { title: "Connection".to_owned(), body, level: ToastLevel::Success }),
                    send: Some(login),
                    snap_to_end: true,
                    report: None,
                }
            },
            Message::Subscription(Event::Response(r)) => {
                match r.data {
                    ResponseData::Error(e) => ClientAction {
                        toast: None,
                        send: None,
                        snap_to_end: false,
                        report: Some(e),
                    },
                    ResponseData::Msg(m) => {
                        let ghost before = self.messages@;
                        self.messages.push(m);
                        proof {
                            assert(self.messages@.map_values(|x: ResMsg| x@) =~= before.map_values(|x: ResMsg| x@).push(m@));
                        }
                        ClientAction {
                            toast: None,
                            send: None,
                            snap_to_end: self.messages_follow,
                            report: None,
                        }
                    },
                    ResponseData::Join(n) => ClientAction {
                        toast: Some(Toast { title: "Join".to_owned(), body: n.concat(" joined"), level: ToastLevel::Info }),
                        send: None,
                        snap_to_end: false,
                        report: None,
                    },
                    ResponseData::Leave(n) => ClientAction {
                        toast: Some(Toast { title: "Leave".to_owned(), body: n.concat(" left"), level: ToastLevel::Info }),
                        send: None,
                        snap_to_end: false,
                        report: None,
                    },
                }
            },
            Message::LoginSubmit => {
                if blank {
                    ClientAction {
                        toast: Some(Toast {
                            title: "Connection".to_owned(),
                            body: "Please enter a server URL".to_owned(),
                            level: ToastLevel::Warning,
                        }),
                        send: None,
                        snap_to_end: false,
                        report: None,
                    }
                } else {
                    self.disconnected = false;
                    ClientAction { toast: None, send: None, snap_to_end: false, report: None }
                }
            },
            Message::MsgSend => {
                if blank {
                    ClientAction { toast: None, send: None, snap_to_end: false, report: None }
                } else {
                    let text = self.msg_input.clone();
                    self.msg_input = String::new();
                    ClientAction {
                        toast: None,
                        send: Some(Request::message(text)),
                        snap_to_end: false,
                        report: None,
                    }
                }
            },
            Message::LoginFieldChanged(url, name, color) => {
                self.login_field = LoginField { url, name, color };
                ClientAction { toast: None, send: None, snap_to_end: false, report: None }
            },
            Message::MsgFieldChanged(m) => {
                self.msg_input = m;
                ClientAction { toast: None, send: None, snap_to_end: false, report: None }
            },
            Message::MessagesScrolled(at_end) => {
                self.messages_follow = at_end;
                ClientAction { toast: None, send: None, snap_to_end: false, report: None }
            },
        }
    }

    /// Applies `msg`: a login is submitted only with a non-blank URL, and a
    /// message is sent only when what was typed is not blank.
    pub fn update(&mut self, msg: Message) -> (res: ClientAction)
        ensures
            (final(self)@, res@) == client_step(old(self)@, msg@, input_blank(old(self)@, msg@)),
    {
        let blank = match &msg {
            Message::LoginSubmit => {
                let t = trim(self.login_field.url.as_str());
                proof {
                    lemma_trimmed_empty_iff_blank(self.login_field.url@, t@);
                }
                t.is_empty()
            },
            Message::MsgSend => {
                let t = trim(self.msg_input.as_str());
                proof {
                    lemma_trimmed_empty_iff_blank(self.msg_input@, t@);
                }
                t.is_empty()
            },
            _ => false,
        };
        self.update_with(msg, blank)
    }
}

} // verus!
