use vstd::prelude::*;

use crate::client::{
    ClientView, EventView, MessageView, Page, ToastLevel, client_step, input_blank, is_white_space,
};
use crate::protocol::{
    Color, RequestDataView, RequestView, ResMsgView, ResponseDataView, ResponseView, chat_response, join_response,
    login_request, message_request,
};
use crate::room::{PeerAddr, UserView, login_outcome, name_in_use, names_unique};
use crate::session::{ConnEventView, Flow, ReplyView, event_outcome, is_login_request};

verus! {

/// A login never breaks the uniqueness of names: if no two users shared a
/// name before, none do after, whether the login was accepted or refused.
pub proof fn law_login_keeps_names_unique(m: Map<PeerAddr, UserView>, addr: PeerAddr, name: Seq<char>, color: Color)
    requires
        names_unique(m),
    ensures
        names_unique(login_outcome(m, addr, name, color).0),
{
    let m2 = login_outcome(m, addr, name, color).0;
    if !name_in_use(m, name) {
        assert forall|a: PeerAddr, b: PeerAddr|
            #[trigger] m2.dom().contains(a) && #[trigger] m2.dom().contains(b) && a != b implies m2[a].name
            != m2[b].name by {
            if a == addr {
                assert(m.dom().contains(b));
            } else if b == addr {
                assert(m.dom().contains(a));
            }
        }
    }
}

/// Logging out a user who had just logged in from a fresh address gives back
/// the room as it was before the login, and the departure is announced under
/// the name the user logged in with.
pub proof fn law_leave_undoes_login(m: Map<PeerAddr, UserView>, addr: PeerAddr, name: Seq<char>, color: Color)
    requires
        !m.dom().contains(addr),
        !name_in_use(m, name),
    ensures
        login_outcome(m, addr, name, color).0.remove(addr) == m,
        login_outcome(m, addr, name, color).0[addr].name == name,
{
    assert(login_outcome(m, addr, name, color).0.remove(addr) =~= m);
}

/// After an accepted login, every message posted on that connection is
/// broadcast under the name and colour the user logged in with, and leaves
/// the room as it was.
pub proof fn law_messages_carry_login(
    m: Map<PeerAddr, UserView>,
    addr: PeerAddr,
    name: Seq<char>,
    color: Color,
    text: Seq<char>,
)
    requires
        !name_in_use(m, name),
    ensures
        ({
            let room = login_outcome(m, addr, name, color).0;
            let (room2, out) = event_outcome(room, addr, ConnEventView::Received(message_request(text)));
            &&& room2 == room
            &&& out.broadcast == Some(chat_response(name, color, text))
            &&& out.reply is None
            &&& out.flow == Flow::Continue
        }),
{
    reveal_strlit("LOGIN");
    reveal_strlit("MSG");
}

/// A login whose name is in use changes nothing in the room, broadcasts
/// nothing, and ends the connection with an error answer.
pub proof fn law_refused_login(m: Map<PeerAddr, UserView>, addr: PeerAddr, name: Seq<char>, color: Color)
    requires
        name_in_use(m, name),
    ensures
        ({
            let (room, out) = event_outcome(m, addr, ConnEventView::Received(login_request(name, color)));
            &&& room == m
            &&& out.broadcast is None
            &&& out.reply is Some
            &&& out.flow == Flow::Stop
        }),
{
}

/// An accepted login is announced to every connection with the user's name
/// and keeps the connection open.
pub proof fn law_accepted_login(m: Map<PeerAddr, UserView>, addr: PeerAddr, name: Seq<char>, color: Color)
    requires
        !name_in_use(m, name),
    ensures
        ({
            let (room, out) = event_outcome(m, addr, ConnEventView::Received(login_request(name, color)));
            &&& room == m.insert(addr, UserView { name, color })
            &&& out.broadcast == Some(join_response(name))
            &&& out.reply is None
            &&& out.flow == Flow::Continue
        }),
{
}

/// Only an accepted login changes the room; every other event leaves it as
/// it was (logging out is a separate step, taken when the flow says so).
pub proof fn law_only_login_changes_room(m: Map<PeerAddr, UserView>, addr: PeerAddr, ev: ConnEventView)
    ensures
        event_outcome(m, addr, ev).0 == m || (ev matches ConnEventView::Received(r) && is_login_request(r)
            && !name_in_use(m, r.data->name)),
{
}

/// A connection is logged out only after it closed or sent bytes that are
/// not a request; it stops without logging out after a failed read or a
/// refused login, and goes on after anything else.
pub proof fn law_when_connections_end(m: Map<PeerAddr, UserView>, addr: PeerAddr, ev: ConnEventView)
    ensures
        (event_outcome(m, addr, ev).1.flow == Flow::Leave) <==> (ev is Closed || ev is Malformed),
        (event_outcome(m, addr, ev).1.flow == Flow::Stop) <==> (ev is ReadFailed || (ev matches
            ConnEventView::Received(r) && is_login_request(r) && name_in_use(m, r.data->name))),
{
}

/// Whatever happens, the list of received messages only grows at its end:
/// the old list is a prefix of the new one, and it grows by one message
/// exactly when a chat message arrives.
pub proof fn law_messages_only_grow(s: ClientView, msg: MessageView, blank: bool)
    ensures
        ({
            let s2 = client_step(s, msg, blank).0;
            &&& s.messages.is_prefix_of(s2.messages)
            &&& s2.messages.len() <= s.messages.len() + 1
            &&& (s2.messages.len() == s.messages.len() + 1 <==> (msg matches MessageView::Subscription(
                EventView::Response(r)) && r.data is Msg))
        }),
{
    let s2 = client_step(s, msg, blank).0;
    assert(s.messages.is_prefix_of(s2.messages));
}

/// A lost connection always brings the client back to the login page, where
/// it stays disconnected until a login is submitted again.
pub proof fn law_failure_returns_to_login(s: ClientView, blank: bool)
    ensures
        client_step(s, MessageView::Subscription(EventView::FailConnection), blank).0.page == Page::Login,
        client_step(s, MessageView::Subscription(EventView::FailConnection), blank).0.disconnected,
{
}

/// A blank URL never ends the disconnected state, and a blank message is
/// never sent; a non-blank message is sent as typed and the input cleared.
pub proof fn law_blank_input(s: ClientView)
    ensures
        client_step(s, MessageView::LoginSubmit, true).0.disconnected == s.disconnected,
        client_step(s, MessageView::MsgSend, true).1.send is None,
        client_step(s, MessageView::MsgSend, false).1.send == Some(message_request(s.msg_input)),
        client_step(s, MessageView::MsgSend, false).0.msg_input.len() == 0,
{
}

/// Every received request that is neither a LOGIN request carrying a login
/// nor a MSG request carrying a message, whatever its payload, is answered on
/// its connection with the error ("ERR", "DATA", "Data is not well balanced"),
/// broadcasts nothing, keeps the connection open and leaves the room as it was.
pub proof fn law_unbalanced_answered(m: Map<PeerAddr, UserView>, addr: PeerAddr, r: RequestView)
    requires
        !(r.status == "LOGIN"@ && r.data is Login),
        !(r.status == "MSG"@ && r.data is Msg),
    ensures
        ({
            let (room, out) = event_outcome(m, addr, ConnEventView::Received(r));
            &&& room == m
            &&& out.reply == Some(ReplyView::Respond(ResponseView {
                status: "ERR"@,
                data: ResponseDataView::Error { kind: "DATA"@, msg: "Data is not well balanced"@ },
            }))
            &&& out.broadcast is None
            &&& out.flow == Flow::Continue
        }),
{
}

/// A chat message that arrives is appended to the client's list exactly as
/// the server sent it (its author, colour and text), whatever name the client
/// itself logged in with; nothing else in the client changes, and the list
/// snaps to its end exactly when the client follows new messages.
pub proof fn law_chat_message_appended(s: ClientView, user: Seq<char>, color: Color, text: Seq<char>, blank: bool)
    ensures
        ({
            let r = ResponseView {
                status: "MSG"@,
                data: ResponseDataView::Msg(ResMsgView { user, color, msg: text }),
            };
            let (s2, a) = client_step(s, MessageView::Subscription(EventView::Response(r)), blank);
            &&& s2.messages.len() == s.messages.len() + 1
            &&& s2.messages.last() == (ResMsgView { user, color, msg: text })
            &&& s2.messages.drop_last() == s.messages
            &&& s2.page == s.page && s2.disconnected == s.disconnected
            &&& s2.url == s.url && s2.name == s.name && s2.color == s.color
            &&& s2.msg_input == s.msg_input && s2.messages_follow == s.messages_follow
            &&& a.snap_to_end == s.messages_follow
            &&& a.toast is None && a.send is None && a.report is None
        }),
{
    let (s2, a) = client_step(
        s,
        MessageView::Subscription(EventView::Response(ResponseView {
            status: "MSG"@,
            data: ResponseDataView::Msg(ResMsgView { user, color, msg: text }),
        })),
        blank,
    );
    assert(s2.messages.drop_last() =~= s.messages);
}

/// After a scroll, the client follows new messages exactly when the list
/// shows its end: scrolling back to the bottom makes the next chat message
/// snap to the end again, and scrolling away makes it not.
pub proof fn law_scroll_sets_follow(s: ClientView, at_end: bool, user: Seq<char>, color: Color, text: Seq<char>, b1: bool, b2: bool)
    ensures
        ({
            let s2 = client_step(s, MessageView::MessagesScrolled(at_end), b1).0;
            let r = ResponseView {
                status: "MSG"@,
                data: ResponseDataView::Msg(ResMsgView { user, color, msg: text }),
            };
            &&& s2.messages_follow == at_end
            &&& client_step(s2, MessageView::Subscription(EventView::Response(r)), b2).1.snap_to_end == at_end
        }),
{
}

/// Submitting the login form: with a URL that holds some character that is
/// not white space the client starts connecting (it is no longer
/// disconnected) and warns of nothing, whatever the name field holds; with a
/// URL of white space only it stays as it was and warns "Please enter a
/// server URL".
pub proof fn law_login_submit(s: ClientView)
    ensures
        ({
            let (s2, a) = client_step(s, MessageView::LoginSubmit, input_blank(s, MessageView::LoginSubmit));
            &&& (exists|k: int| 0 <= k < s.url.len() && !is_white_space(#[trigger] s.url[k])) ==> {
                &&& !s2.disconnected
                &&& a.toast is None
                &&& a.send is None
            }
            &&& (forall|k: int| 0 <= k < s.url.len() ==> is_white_space(#[trigger] s.url[k])) ==> {
                &&& s2 == s
                &&& a.toast matches Some(t) && t.title == "Connection"@ && t.body == "Please enter a server URL"@
                    && t.level == ToastLevel::Warning
            }
        }),
{
}

/// Sending the typed message: with text that holds some character that is
/// not white space, exactly that text is sent as a MSG request and the input
/// is cleared; with white space only, nothing is sent and nothing changes.
pub proof fn law_message_send(s: ClientView)
    ensures
        ({
            let (s2, a) = client_step(s, MessageView::MsgSend, input_blank(s, MessageView::MsgSend));
            &&& (exists|k: int| 0 <= k < s.msg_input.len() && !is_white_space(#[trigger] s.msg_input[k])) ==> {
                &&& a.send == Some(RequestView { status: "MSG"@, data: RequestDataView::Msg(s.msg_input) })
                &&& s2.msg_input.len() == 0
                &&& s2.messages == s.messages && s2.disconnected == s.disconnected && s2.page == s.page
                &&& a.toast is None
            }
            &&& (forall|k: int| 0 <= k < s.msg_input.len() ==> is_white_space(#[trigger] s.msg_input[k])) ==> {
                &&& s2 == s
                &&& a.send is None && a.toast is None
            }
        }),
{
}

/// Once the connection is up, the client logs in with the name and colour of
/// its form, opens the chat page following new messages, snaps the list to
/// its end and says "Connected to" the URL.
pub proof fn law_connected(s: ClientView, blank: bool)
    ensures
        ({
            let (s2, a) = client_step(s, MessageView::Subscription(EventView::Connected), blank);
            &&& a.send == Some(RequestView {
                status: "LOGIN"@,
                data: RequestDataView::Login { name: s.name, color: s.color },
            })
            &&& s2.page == Page::Chat && s2.messages_follow
            &&& s2.disconnected == s.disconnected && s2.messages == s.messages
            &&& s2.url == s.url && s2.name == s.name && s2.color == s.color
            &&& a.snap_to_end
            &&& a.toast matches Some(t) && t.title == "Connection"@ && t.body == "Connected to "@ + s.url
                && t.level == ToastLevel::Success
        }),
{
}

/// A lost connection is announced as "Failed to connect to" the URL, as an
/// error, and the form keeps what the user typed.
pub proof fn law_failure_notice(s: ClientView, blank: bool)
    ensures
        ({
            let (s2, a) = client_step(s, MessageView::Subscription(EventView::FailConnection), blank);
            &&& a.toast matches Some(t) && t.title == "Connection"@ && t.body == "Failed to connect to "@ + s.url
                && t.level == ToastLevel::Error
            &&& a.send is None
            &&& s2.url == s.url && s2.name == s.name && s2.color == s.color && s2.messages == s.messages
        }),
{
}

/// Joins and leaves are announced as "<name> joined" and "<name> left", and
/// an error from the server is reported with its kind and text; none of them
/// changes the client.
pub proof fn law_notices(s: ClientView, name: Seq<char>, kind: Seq<char>, msg: Seq<char>, status: Seq<char>, blank: bool)
    ensures
        ({
            let (s2, a) = client_step(s, MessageView::Subscription(EventView::Response(
                ResponseView { status, data: ResponseDataView::Join(name) })), blank);
            &&& s2 == s
            &&& a.send is None
            &&& a.toast matches Some(t) && t.title == "Join"@ && t.body == name + " joined"@
                && t.level == ToastLevel::Info
        }),
        ({
            let (s2, a) = client_step(s, MessageView::Subscription(EventView::Response(
                ResponseView { status, data: ResponseDataView::Leave(name) })), blank);
            &&& s2 == s
            &&& a.send is None
            &&& a.toast matches Some(t) && t.title == "Leave"@ && t.body == name + " left"@
                && t.level == ToastLevel::Info
        }),
        ({
            let (s2, a) = client_step(s, MessageView::Subscription(EventView::Response(
                ResponseView { status, data: ResponseDataView::Error { kind, msg } })), blank);
            s2 == s && a.report == Some((kind, msg)) && a.toast is None && a.send is None
        }),
{
}

/// Editing the form or the message input takes exactly what was typed.
pub proof fn law_edits(s: ClientView, url: Seq<char>, name: Seq<char>, color: Color, text: Seq<char>, blank: bool)
    ensures
        ({
            let (s2, a) = client_step(s, MessageView::LoginFieldChanged(url, name, color), blank);
            s2.url == url && s2.name == name && s2.color == color && s2.msg_input == s.msg_input
                && s2.disconnected == s.disconnected && a.send is None
        }),
        ({
            let (s2, a) = client_step(s, MessageView::MsgFieldChanged(text), blank);
            s2.msg_input == text && s2.url == s.url && s2.name == s.name && a.send is None
        }),
{
}

/// A message posted from a logged-in connection is broadcast as a MSG
/// response carrying the sender's stored name and colour and the text as
/// posted; nothing is answered on the connection and it stays open.
pub proof fn law_message_broadcast(m: Map<PeerAddr, UserView>, addr: PeerAddr, text: Seq<char>)
    requires
        m.dom().contains(addr),
    ensures
        ({
            let (room, out) = event_outcome(
                m,
                addr,
                ConnEventView::Received(RequestView { status: "MSG"@, data: RequestDataView::Msg(text) }),
            );
            &&& room == m
            &&& out.broadcast == Some(ResponseView {
                status: "MSG"@,
                data: ResponseDataView::Msg(ResMsgView { user: m[addr].name, color: m[addr].color, msg: text }),
            })
            &&& out.reply is None
            &&& out.flow == Flow::Continue
        }),
{
}

/// A login from `addr`: when no logged-in user has the name, the user is
/// entered under `addr` and a JOIN with the name is broadcast; otherwise the
/// answer is the error ("ERR", "PARSE", "Username already exists"), nothing
/// is broadcast, the room is unchanged and the connection ends.
pub proof fn law_login_answers(m: Map<PeerAddr, UserView>, addr: PeerAddr, name: Seq<char>, color: Color)
    ensures
        ({
            let (room, out) = event_outcome(
                m,
                addr,
                ConnEventView::Received(RequestView {
                    status: "LOGIN"@,
                    data: RequestDataView::Login { name, color },
                }),
            );
            &&& (forall|a: PeerAddr| #[trigger] m.dom().contains(a) ==> m[a].name != name) ==> {
                &&& room == m.insert(addr, UserView { name, color })
                &&& out.broadcast == Some(ResponseView { status: "JOIN"@, data: ResponseDataView::Join(name) })
                &&& out.reply is None
                &&& out.flow == Flow::Continue
            }
            &&& (exists|a: PeerAddr| #[trigger] m.dom().contains(a) && m[a].name == name) ==> {
                &&& room == m
                &&& out.reply == Some(ReplyView::Respond(ResponseView {
                    status: "ERR"@,
                    data: ResponseDataView::Error { kind: "PARSE"@, msg: "Username already exists"@ },
                }))
                &&& out.broadcast is None
                &&& out.flow == Flow::Stop
            }
        }),
{
}

/// The connection events that are not requests: a failed read ends the
/// connection leaving its user in the room; a close ends it and logs its user
/// out; bytes that are not a request are answered with ("ERR", "PARSE", the
/// reason) and then treated as a close; a broadcast from elsewhere is written
/// back unchanged. None of them changes the room.
pub proof fn law_connection_events(m: Map<PeerAddr, UserView>, addr: PeerAddr, reason: Seq<char>, text: Seq<char>)
    ensures
        event_outcome(m, addr, ConnEventView::ReadFailed).0 == m,
        event_outcome(m, addr, ConnEventView::ReadFailed).1.flow == Flow::Stop,
        event_outcome(m, addr, ConnEventView::ReadFailed).1.reply is None,
        event_outcome(m, addr, ConnEventView::ReadFailed).1.broadcast is None,
        event_outcome(m, addr, ConnEventView::Closed).0 == m,
        event_outcome(m, addr, ConnEventView::Closed).1.flow == Flow::Leave,
        event_outcome(m, addr, ConnEventView::Closed).1.reply is None,
        event_outcome(m, addr, ConnEventView::Closed).1.broadcast is None,
        event_outcome(m, addr, ConnEventView::Malformed(reason)).0 == m,
        event_outcome(m, addr, ConnEventView::Malformed(reason)).1.flow == Flow::Leave,
        event_outcome(m, addr, ConnEventView::Malformed(reason)).1.reply == Some(ReplyView::Respond(ResponseView {
            status: "ERR"@,
            data: ResponseDataView::Error { kind: "PARSE"@, msg: reason },
        })),
        event_outcome(m, addr, ConnEventView::Malformed(reason)).1.broadcast is None,
        event_outcome(m, addr, ConnEventView::Relayed(text)).0 == m,
        event_outcome(m, addr, ConnEventView::Relayed(text)).1.flow == Flow::Continue,
        event_outcome(m, addr, ConnEventView::Relayed(text)).1.reply == Some(ReplyView::Forward(text)),
        event_outcome(m, addr, ConnEventView::Relayed(text)).1.broadcast is None,
{
}

/// A departure is announced as a LEAVE response with the name the user had.
pub proof fn law_leave_announcement(name: Seq<char>)
    ensures
        crate::protocol::leave_response(name) == (ResponseView { status: "LEAVE"@, data: ResponseDataView::Leave(name) }),
{
}

} // verus!
