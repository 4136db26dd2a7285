use vstd::prelude::*;

verus! {

/// The colour a user picks for their name in the chat.
#[derive(Debug, Clone, Copy, PartialEq, Eq, Structural)]
pub enum Color {
    Red,
    Green,
    Yellow,
    Blue,
    Purple,
}

/// The name under which a colour is shown to users.
pub open spec fn color_name(c: Color) -> Seq<char> {
    match c {
        Color::Red => "Red"@,
        Color::Green => "Green"@,
        Color::Yellow => "Yellow"@,
        Color::Blue => "Blue"@,
        Color::Purple => "Purple"@,
    }
}

impl Color {
    /// Every colour, in the order in which a user is offered them.
    pub const ALL: [Color; 5] = [Color::Red, Color::Green, Color::Yellow, Color::Blue, Color::Purple];

    /// The colour's display name ("Red", "Green", ...).
    pub fn name(&self) -> (res: String)
        ensures
            res@ == color_name(*self),
    {
        match self {
            Color::Red => "Red".to_owned(),
            Color::Green => "Green".to_owned(),
            Color::Yellow => "Yellow".to_owned(),
            Color::Blue => "Blue".to_owned(),
            Color::Purple => "Purple".to_owned(),
        }
    }
}

impl Default for Color {
    fn default() -> (res: Color)
        ensures
            res == Color::Red,
    {
        Color::Red
    }
}

/// What a client asks to log in with: the user name and its colour.
#[derive(Debug, Clone)]
pub struct ReqLogin {
    pub name: String,
    pub color: Color,
}

/// The payload of a client request.
#[derive(Debug, Clone)]
pub enum RequestData {
    Login(ReqLogin),
    Msg(String),
}

/// A request from client to server: a status word ("LOGIN", "MSG") and a payload.
#[derive(Debug, Clone)]
pub struct Request {
    pub status: String,
    pub data: RequestData,
}

/// An error reported by the server: its kind ("PARSE", "DATA") and a message.
#[derive(Debug, Clone)]
pub struct ResError {
    pub kind: String,
    pub msg: String,
}

/// A chat message as the server relays it: who wrote it, in which colour, and the text.
#[derive(Debug, Clone)]
pub struct ResMsg {
    pub user: String,
    pub color: Color,
    pub msg: String,
}

/// The payload of a server response.
#[derive(Debug, Clone)]
pub enum ResponseData {
    Error(ResError),
    Msg(ResMsg),
    Join(String),
    Leave(String),
}

/// A response from server to client: a status word ("ERR", "MSG", "JOIN",
/// "LEAVE") and a payload.
#[derive(Debug, Clone)]
pub struct Response {
    pub status: String,
    pub data: ResponseData,
}

/// A request with its strings taken as character sequences.
pub struct RequestView {
    pub status: Seq<char>,
    pub data: RequestDataView,
}

pub enum RequestDataView {
    Login { name: Seq<char>, color: Color },
    Msg(Seq<char>),
}

/// A chat message with its strings taken as character sequences.
pub struct ResMsgView {
    pub user: Seq<char>,
    pub color: Color,
    pub msg: Seq<char>,
}

/// A response with its strings taken as character sequences.
pub struct ResponseView {
    pub status: Seq<char>,
    pub data: ResponseDataView,
}

pub enum ResponseDataView {
    Error { kind: Seq<char>, msg: Seq<char> },
    Msg(ResMsgView),
    Join(Seq<char>),
    Leave(Seq<char>),
}

impl View for ResMsg {
    type V = ResMsgView;

    open spec fn view(&self) -> ResMsgView {
        ResMsgView { user: self.user@, color: self.color, msg: self.msg@ }
    }
}

impl View for Request {
    type V = RequestView;

    open spec fn view(&self) -> RequestView {
        RequestView {
            status: self.status@,
            data: match self.data {
                RequestData::Login(l) => RequestDataView::Login { name: l.name@, color: l.color },
                RequestData::Msg(m) => RequestDataView::Msg(m@),
            },
        }
    }
}

impl View for Response {
    type V = ResponseView;

    open spec fn view(&self) -> ResponseView {
        ResponseView {
            status: self.status@,
            data: match self.data {
                ResponseData::Error(e) => ResponseDataView::Error { kind: e.kind@, msg: e.msg@ },
                ResponseData::Msg(m) => ResponseDataView::Msg(m@),
                ResponseData::Join(n) => ResponseDataView::Join(n@),
                ResponseData::Leave(n) => ResponseDataView::Leave(n@),
            },
        }
    }
}

/// The request a client sends to log in under `name` with `color`.
pub open spec fn login_request(name: Seq<char>, color: Color) -> RequestView {
    RequestView { status: "LOGIN"@, data: RequestDataView::Login { name, color } }
}

/// The request a client sends to post `text` to the chat.
pub open spec fn message_request(text: Seq<char>) -> RequestView {
    RequestView { status: "MSG"@, data: RequestDataView::Msg(text) }
}

/// An error response of the given kind and message.
pub open spec fn error_response(kind: Seq<char>, msg: Seq<char>) -> ResponseView {
    ResponseView { status: "ERR"@, data: ResponseDataView::Error { kind, msg } }
}

/// The response that relays a chat message.
pub open spec fn chat_response(user: Seq<char>, color: Color, msg: Seq<char>) -> ResponseView {
    ResponseView { status: "MSG"@, data: ResponseDataView::Msg(ResMsgView { user, color, msg }) }
}

/// The response that announces that `name` joined.
pub open spec fn join_response(name: Seq<char>) -> ResponseView {
    ResponseView { status: "JOIN"@, data: ResponseDataView::Join(name) }
}

/// The response that announces that `name` left.
pub open spec fn leave_response(name: Seq<char>) -> ResponseView {
    ResponseView { status: "LEAVE"@, data: ResponseDataView::Leave(name) }
}

impl Request {
    /// A login request for `name` in `color`.
    pub fn login(name: String, color: Color) -> (res: Request)
        ensures
            res@ == login_request(name@, color),
    {
        Request { status: "LOGIN".to_owned(), data: RequestData::Login(ReqLogin { name, color }) }
    }

    /// A request that posts `text`.
    pub fn message(text: String) -> (res: Request)
        ensures
            res@ == message_request(text@),
    {
        Request { status: "MSG".to_owned(), data: RequestData::Msg(text) }
    }
}

impl Response {
    /// An error response of kind `kind` with message `msg`.
    pub fn error(kind: &str, msg: String) -> (res: Response)
        ensures
            res@ == error_response(kind@, msg@),
    {
        Response {
            status: "ERR".to_owned(),
            data: ResponseData::Error(ResError { kind: kind.to_owned(), msg }),
        }
    }

    /// The relay of `msg`, written by `user` in `color`.
    pub fn chat(user: String, color: Color, msg: String) -> (res: Response)
        ensures
            res@ == chat_response(user@, color, msg@),
    {
        Response { status: "MSG".to_owned(), data: ResponseData::Msg(ResMsg { user, color, msg }) }
    }

    /// The announcement that `name` joined.
    pub fn joined(name: String) -> (res: Response)
        ensures
            res@ == join_response(name@),
    {
        Response { status: "JOIN".to_owned(), data: ResponseData::Join(name) }
    }

    /// The announcement that `name` left.
    pub fn left(name: String) -> (res: Response)
        ensures
            res@ == leave_response(name@),
    {
        Response { status: "LEAVE".to_owned(), data: ResponseData::Leave(name) }
    }
}

} // verus!
