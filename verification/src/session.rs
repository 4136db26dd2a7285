use vstd::prelude::*;

use crate::protocol::{
    ReqLogin, Request, RequestData, RequestDataView, RequestView, Response, ResponseView,
    error_response, chat_response,
};
use crate::room::{ChatRoom, PeerAddr, UserView, login_outcome};

verus! {

/// What a request asks the server to do.
pub enum Command {
    Login(ReqLogin),
    Msg(String),
    /// The status word and the payload do not go together.
    Unbalanced,
}

/// A request whose status is "LOGIN" and whose payload is a login.
pub open spec fn is_login_request(r: RequestView) -> bool {
    r.status == "LOGIN"@ && r.data is Login
}

/// A request whose status is "MSG" and whose payload is a message.
pub open spec fn is_message_request(r: RequestView) -> bool {
    r.status == "MSG"@ && r.data is Msg
}

/// Sorts a request by its status word and payload; a status that does not go
/// with the payload makes it unbalanced.
pub fn classify(req: Request) -> (res: Command)
    ensures
        match res {
            Command::Login(l) => is_login_request(req@) && req@.data == (RequestDataView::Login {
                name: l.name@,
                color: l.color,
            }),
            Command::Msg(m) => is_message_request(req@) && req@.data == RequestDataView::Msg(m@),
            Command::Unbalanced => !is_login_request(req@) && !is_message_request(req@),
        },
{
    let is_login = req.status == "LOGIN".to_owned();
    let is_msg = req.status == "MSG".to_owned();
    match req.data {
        RequestData::Login(l) => {
            if is_login {
                Command::Login(l)
            } else {
                Command::Unbalanced
            }
        },
        RequestData::Msg(m) => {
            if is_msg {
                Command::Msg(m)
            } else {
                Command::Unbalanced
            }
        },
    }
}

/// Something that happened on a client's connection.
pub enum ConnEvent {
    /// A request arrived and was read.
    Received(Request),
    /// Bytes arrived that are not a request; the text says why.
    Malformed(String),
    /// The client closed the connection.
    Closed,
    /// Reading from the connection failed.
    ReadFailed,
    /// Another connection broadcast this text.
    Relayed(String),
}

pub enum ConnEventView {
    Received(RequestView),
    Malformed(Seq<char>),
    Closed,
    ReadFailed,
    Relayed(Seq<char>),
}

impl View for ConnEvent {
    type V = ConnEventView;

    open spec fn view(&self) -> ConnEventView {
        match self {
            ConnEvent::Received(r) => ConnEventView::Received(r@),
            ConnEvent::Malformed(e) => ConnEventView::Malformed(e@),
            ConnEvent::Closed => ConnEventView::Closed,
            ConnEvent::ReadFailed => ConnEventView::ReadFailed,
            ConnEvent::Relayed(t) => ConnEventView::Relayed(t@),
        }
    }
}

/// How the connection goes on after an event.
#[derive(Debug, Clone, Copy, PartialEq, Eq, Structural)]
pub enum Flow {
    /// Keep serving the connection.
    Continue,
    /// End the connection; the user, if any, stays in the room.
    Stop,
    /// End the connection and log its user out of the room.
    Leave,
}

/// What to write back on this connection.
pub enum Reply {
    Respond(Response),
    Forward(String),
}

pub enum ReplyView {
    Respond(ResponseView),
    Forward(Seq<char>),
}

/// The effects of one event: what to write back on the connection, what to
/// broadcast to every connection, and how the connection goes on.
pub struct Outcome {
    pub reply: Option<Reply>,
    pub broadcast: Option<Response>,
    pub flow: Flow,
}

pub struct OutcomeView {
    pub reply: Option<ReplyView>,
    pub broadcast: Option<ResponseView>,
    pub flow: Flow,
}

impl View for Outcome {
    type V = OutcomeView;

    open spec fn view(&self) -> OutcomeView {
        OutcomeView {
            reply: match self.reply {
                Some(Reply::Respond(r)) => Some(ReplyView::Respond(r@)),
                Some(Reply::Forward(t)) => Some(ReplyView::Forward(t@)),
                None => None,
            },
            broadcast: match self.broadcast {
                Some(b) => Some(b@),
                None => None,
            },
            flow: self.flow,
        }
    }
}

/// The text of the error answered to an unbalanced request.
pub open spec fn unbalanced_text() -> Seq<char> {
    "Data is not well balanced"@
}

/// An event can be handled unless it posts a message from a connection that
/// has not logged in.
pub open spec fn can_handle_event(m: Map<PeerAddr, UserView>, addr: PeerAddr, ev: ConnEventView) -> bool {
    match ev {
        ConnEventView::Received(r) => is_message_request(r) ==> m.dom().contains(addr),
        _ => true,
    }
}

/// What an event on the connection from `addr` does to the room `m` and what
/// it causes:
/// - a failed read ends the connection, its user staying in the room;
/// - a closed connection ends it and logs its user out;
/// - a malformed request is answered with a "PARSE" error, then as a close;
/// - a relayed broadcast is written back unchanged;
/// - a login is entered and announced to all, or, when its name is taken,
///   refused with an error that ends the connection;
/// - a message is broadcast under its sender's name and colour;
/// - an unbalanced request is answered with a "DATA" error.
pub open spec fn event_outcome(m: Map<PeerAddr, UserView>, addr: PeerAddr, ev: ConnEventView) -> (
    Map<PeerAddr, UserView>,
    OutcomeView,
) {
    match ev {
        ConnEventView::ReadFailed => (m, OutcomeView { reply: None, broadcast: None, flow: Flow::Stop }),
        ConnEventView::Closed => (m, OutcomeView { reply: None, broadcast: None, flow: Flow::Leave }),
        ConnEventView::Malformed(e) => (
            m,
            OutcomeView {
                reply: Some(ReplyView::Respond(error_response("PARSE"@, e))),
                broadcast: None,
                flow: Flow::Leave,
            },
        ),
        ConnEventView::Relayed(t) => (
            m,
            OutcomeView { reply: Some(ReplyView::Forward(t)), broadcast: None, flow: Flow::Continue },
        ),
        ConnEventView::Received(r) => {
            if is_login_request(r) {
                let (m2, answer) = login_outcome(m, addr, r.data->name, r.data->color);
                match answer {
                    Ok(joined) => (
                        m2,
                        OutcomeView { reply: None, broadcast: Some(joined), flow: Flow::Continue },
                    ),
                    Err(refusal) => (
                        m2,
                        OutcomeView {
                            reply: Some(ReplyView::Respond(refusal)),
                            broadcast: None,
                            flow: Flow::Stop,
                        },
                    ),
                }
            } else if is_message_request(r) {
                (
                    m,
                    OutcomeView {
                        reply: None,
                        broadcast: Some(chat_response(m[addr].name, m[addr].color, r.data->Msg_0)),
                        flow: Flow::Continue,
                    },
                )
            } else {
                (
                    m,
                    OutcomeView {
                        reply: Some(ReplyView::Respond(error_response("DATA"@, unbalanced_text()))),
                        broadcast: None,
                        flow: Flow::Continue,
                    },
                )
            }
        },
    }
}

impl ChatRoom {
    /// Whether `handle_event` accepts `event` from `addr`: a message posted
    /// from a connection that has not logged in is not accepted.
    pub fn can_handle(&self, addr: &PeerAddr, event: &ConnEvent) -> (res: bool)
        requires
            self.wf(),
        ensures
            res == can_handle_event(self@, *addr, event@),
    {
        match event {
            ConnEvent::Received(r) => {
                match &r.data {
                    RequestData::Msg(_) => {
                        if r.status == "MSG".to_owned() {
                            self.contains(addr)
                        } else {
                            true
                        }
                    },
                    RequestData::Login(_) => true,
                }
            },
            _ => true,
        }
    }

    /// Decides what `event` on the connection from `addr` does to the room
    /// and causes (see `event_outcome`).
    pub fn handle_event(&mut self, addr: PeerAddr, event: ConnEvent) -> (res: Outcome)
        requires
            old(self).wf(),
            can_handle_event(old(self)@, addr, event@),
        ensures
            final(self).wf(),
            (final(self)@, res@) == event_outcome(old(self)@, addr, event@),
    {
        match event {
            ConnEvent::ReadFailed => Outcome { reply: None, broadcast: None, flow: Flow::Stop },
            ConnEvent::Closed => Outcome { reply: None, broadcast: None, flow: Flow::Leave },
            ConnEvent::Malformed(e) => Outcome {
                reply: Some(Reply::Respond(Response::error("PARSE", e))),
                broadcast: None,
                flow: Flow::Leave,
            },
            ConnEvent::Relayed(t) => Outcome {
                reply: Some(Reply::Forward(t)),
                broadcast: None,
                flow: Flow::Continue,
            },
            ConnEvent::Received(req) => {
                match classify(req) {
                    Command::Login(l) => {
                        match self.login(addr, l) {
                            Ok(joined) => Outcome {
                                reply: None,
                                broadcast: Some(joined),
                                flow: Flow::Continue,
                            },
                            Err(refusal) => Outcome {
                                reply: Some(Reply::Respond(refusal)),
                                broadcast: None,
                                flow: Flow::Stop,
                            },
                        }
                    },
                    Command::Msg(text) => {
                        let relay = self.post(&addr, text);
                        Outcome { reply: None, broadcast: Some(relay), flow: Flow::Continue }
                    },
                    Command::Unbalanced => {
                        let answer = Response::error("DATA", "Data is not well balanced".to_owned());
                        proof {
                            reveal_strlit("Data is not well balanced");
                        }
                        Outcome {
                            reply: Some(Reply::Respond(answer)),
                            broadcast: None,
                            flow: Flow::Continue,
                        }
                    },
                }
            },
        }
    }
}

} // verus!
