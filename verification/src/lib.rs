//! A small chat service: the wire protocol shared by server and client, the
//! server's room of logged-in users with the per-connection decision step, and
//! the client's page state machine.

pub mod protocol;
pub mod room;
pub mod session;
pub mod client;
pub mod link;
pub mod laws;

pub use protocol::{Color, ReqLogin, Request, RequestData, ResError, ResMsg, Response, ResponseData};
pub use room::{ChatRoom, PeerAddr, UserData};
pub use session::{classify, Command, ConnEvent, Flow, Outcome, Reply};
pub use client::{ClientAction, ClientState, Event, LoginField, Message, Page, Toast, ToastLevel};
pub use link::{connection_step, LinkIo, LinkState};
