use vstd::prelude::*;

use crate::client::{Event, EventView};
use crate::protocol::{Response, ResponseView};

verus! {

/// Where the client's connection to the server stands.
#[derive(Debug, Clone, Copy, PartialEq, Eq, Structural)]
pub enum LinkState {
    /// The connection is being set up.
    Connecting,
    /// The connection is up: responses are read and requests written.
    Open,
    /// The connection failed or was lost; nothing more happens on it.
    Closed,
}

/// What happened on the connection.
pub enum LinkIo {
    ConnectFailed,
    ConnectOk,
    /// The server closed the connection.
    ReadClosed,
    ReadFailed,
    /// A response was read.
    Read(Response),
    WriteFailed,
    /// A request was written.
    Written,
}

pub enum LinkIoView {
    ConnectFailed,
    ConnectOk,
    ReadClosed,
    ReadFailed,
    Read(ResponseView),
    WriteFailed,
    Written,
}

impl View for LinkIo {
    type V = LinkIoView;

    open spec fn view(&self) -> LinkIoView {
        match self {
            LinkIo::ConnectFailed => LinkIoView::ConnectFailed,
            LinkIo::ConnectOk => LinkIoView::ConnectOk,
            LinkIo::ReadClosed => LinkIoView::ReadClosed,
            LinkIo::ReadFailed => LinkIoView::ReadFailed,
            LinkIo::Read(r) => LinkIoView::Read(r@),
            LinkIo::WriteFailed => LinkIoView::WriteFailed,
            LinkIo::Written => LinkIoView::Written,
        }
    }
}

pub open spec fn event_view(e: Option<Event>) -> Option<EventView> {
    match e {
        Some(x) => Some(x@),
        None => None,
    }
}

/// What happens on the connection in state `s` after `io`, and what the
/// client is told: a connection set up is reported as connected; a failed
/// set-up, a closed or failed read and a failed write are reported as a
/// failure and close it; a response read is passed on; anything else, and
/// anything on a closed connection, changes nothing and tells nothing.
pub open spec fn link_outcome(s: LinkState, io: LinkIoView) -> (LinkState, Option<EventView>) {
    match (s, io) {
        (LinkState::Connecting, LinkIoView::ConnectOk) => (LinkState::Open, Some(EventView::Connected)),
        (LinkState::Connecting, LinkIoView::ConnectFailed) => (LinkState::Closed, Some(EventView::FailConnection)),
        (LinkState::Open, LinkIoView::ReadClosed) => (LinkState::Closed, Some(EventView::FailConnection)),
        (LinkState::Open, LinkIoView::ReadFailed) => (LinkState::Closed, Some(EventView::FailConnection)),
        (LinkState::Open, LinkIoView::WriteFailed) => (LinkState::Closed, Some(EventView::FailConnection)),
        (LinkState::Open, LinkIoView::Read(r)) => (LinkState::Open, Some(EventView::Response(r))),
        _ => (s, None),
    }
}

/// Decides what `io` does to the connection in state `state` and what the
/// client is told (see `link_outcome`).
pub fn connection_step(state: LinkState, io: LinkIo) -> (res: (LinkState, Option<Event>))
    ensures
        (res.0, event_view(res.1)) == link_outcome(state, io@),
{
    match (state, io) {
        (LinkState::Connecting, LinkIo::ConnectOk) => (LinkState::Open, Some(Event::Connected)),
        (LinkState::Connecting, LinkIo::ConnectFailed) => (LinkState::Closed, Some(Event::FailConnection)),
        (LinkState::Open, LinkIo::ReadClosed) => (LinkState::Closed, Some(Event::FailConnection)),
        (LinkState::Open, LinkIo::ReadFailed) => (LinkState::Closed, Some(Event::FailConnection)),
        (LinkState::Open, LinkIo::WriteFailed) => (LinkState::Closed, Some(Event::FailConnection)),
        (LinkState::Open, LinkIo::Read(r)) => (LinkState::Open, Some(Event::Response(r))),
        _ => (state, None),
    }
}

/// The state a connection reaches from `s` through `ios`, and everything
/// the client is told on the way, in order.
pub open spec fn link_run(s: LinkState, ios: Seq<LinkIoView>) -> (LinkState, Seq<EventView>)
    decreases ios.len(),
{
    if ios.len() == 0 {
        (s, Seq::empty())
    } else {
        let (s1, e) = link_outcome(s, ios[0]);
        let (s2, rest) = link_run(s1, ios.drop_first());
        (
            s2,
            match e {
                Some(x) => seq![x] + rest,
                None => rest,
            },
        )
    }
}

/// Nothing that happens on a closed connection is reported, and it stays
/// closed.
pub proof fn law_closed_is_final(ios: Seq<LinkIoView>)
    ensures
        link_run(LinkState::Closed, ios) == (LinkState::Closed, Seq::<EventView>::empty()),
    decreases ios.len(),
{
    if ios.len() > 0 {
        law_closed_is_final(ios.drop_first());
    }
}

/// Over any run of a connection, a failure is reported at most once, and
/// then as the last thing reported; being connected is reported only first,
/// and only by a connection that was being set up.
pub proof fn law_link_reports(s: LinkState, ios: Seq<LinkIoView>)
    ensures
        ({
            let es = link_run(s, ios).1;
            &&& forall|k: int| 0 <= k < es.len() && (#[trigger] es[k]) is FailConnection ==> k == es.len() - 1
            &&& forall|k: int| 0 <= k < es.len() && (#[trigger] es[k]) is Connected ==> k == 0 && s == LinkState::Connecting
        }),
    decreases ios.len(),
{
    if ios.len() > 0 {
        let (s1, e) = link_outcome(s, ios[0]);
        let rest = link_run(s1, ios.drop_first()).1;
        let es = link_run(s, ios).1;
        law_link_reports(s1, ios.drop_first());
        if s1 == LinkState::Closed {
            law_closed_is_final(ios.drop_first());
        }
        match e {
            Some(x) => {
                assert(es == seq![x] + rest);
                assert forall|k: int| 0 < k < es.len() implies #[trigger] es[k] == rest[k - 1] by {}
            },
            None => {
                assert(es == rest);
            },
        }
    }
}

/// On an open connection, reading any response leaves the connection open
/// and passes exactly that response on to the client, whatever its payload
/// (chat message, join, leave or error).
pub proof fn law_responses_passed_on(r: ResponseView)
    ensures
        link_outcome(LinkState::Open, LinkIoView::Read(r)) == (LinkState::Open, Some(EventView::Response(r))),
{
}

/// A connection set up is reported as connected and opens the link; a failed
/// set-up, a closed or failed read, and a failed write are each reported as a
/// failure and close it; a written request changes nothing.
pub proof fn law_link_transitions()
    ensures
        link_outcome(LinkState::Connecting, LinkIoView::ConnectOk) == (LinkState::Open, Some(EventView::Connected)),
        link_outcome(LinkState::Connecting, LinkIoView::ConnectFailed) == (LinkState::Closed, Some(EventView::FailConnection)),
        link_outcome(LinkState::Open, LinkIoView::ReadClosed) == (LinkState::Closed, Some(EventView::FailConnection)),
        link_outcome(LinkState::Open, LinkIoView::ReadFailed) == (LinkState::Closed, Some(EventView::FailConnection)),
        link_outcome(LinkState::Open, LinkIoView::WriteFailed) == (LinkState::Closed, Some(EventView::FailConnection)),
        link_outcome(LinkState::Open, LinkIoView::Written) == (LinkState::Open, None::<EventView>),
{
}

} // verus!
