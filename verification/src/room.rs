use vstd::prelude::*;

use crate::protocol::{Color, ReqLogin, Response, ResponseView, error_response, join_response, chat_response, leave_response};

verus! {

/// The peer's end of a connection: an IPv4 or IPv6 socket address. For IPv4
/// `ip` holds the 32-bit address and `flowinfo` and `scope_id` are zero.
#[derive(Debug, Clone, Copy, PartialEq, Eq, Structural)]
pub struct PeerAddr {
    pub ip: u128,
    pub port: u16,
    pub v6: bool,
    pub flowinfo: u32,
    pub scope_id: u32,
}

/// A logged-in user: the name and colour they logged in with, and the
/// address of their connection.
#[derive(Debug)]
pub struct UserData {
    pub name: String,
    pub color: Color,
    pub addr: PeerAddr,
}

/// What the room knows of a user, with the name as a character sequence.
pub struct UserView {
    pub name: Seq<char>,
    pub color: Color,
}

pub open spec fn user_view(u: UserData) -> UserView {
    UserView { name: u.name@, color: u.color }
}

/// Whether some user in `m` goes by `name`.
pub open spec fn name_in_use(m: Map<PeerAddr, UserView>, name: Seq<char>) -> bool {
    exists|a: PeerAddr| #[trigger] m.dom().contains(a) && m[a].name == name
}

/// No two users in `m` share a name.
pub open spec fn names_unique(m: Map<PeerAddr, UserView>) -> bool {
    forall|a: PeerAddr, b: PeerAddr|
        #[trigger] m.dom().contains(a) && #[trigger] m.dom().contains(b) && a != b ==> m[a].name
            != m[b].name
}

/// The text with which a login is refused when its name is taken.
pub open spec fn name_taken_text() -> Seq<char> {
    "Username already exists"@
}

/// What a login of `name` in `color` from `addr` does to the room `m`, and
/// what it answers: a taken name is refused with an error and leaves the room
/// as it was; otherwise the user is entered under `addr` (replacing whatever
/// `addr` was logged in as) and their joining is announced.
pub open spec fn login_outcome(m: Map<PeerAddr, UserView>, addr: PeerAddr, name: Seq<char>, color: Color) -> (
    Map<PeerAddr, UserView>,
    Result<ResponseView, ResponseView>,
) {
    if name_in_use(m, name) {
        (m, Err(error_response("PARSE"@, name_taken_text())))
    } else {
        (m.insert(addr, UserView { name, color }), Ok(join_response(name)))
    }
}

pub open spec fn result_view(r: Result<Response, Response>) -> Result<ResponseView, ResponseView> {
    match r {
        Ok(x) => Ok(x@),
        Err(x) => Err(x@),
    }
}

/// The users currently logged in to the chat, each under the address of their
/// connection.
///
/// The users are kept in a `Vec` in which no address occurs twice, not in a
/// `HashMap` keyed by address: vstd specifies a `HashMap` only for keys of
/// which `obeys_key_model` is known, which holds for integer keys but is not
/// provable for `PeerAddr` nor for a tuple of integers, and an address does
/// not fit in one integer.
pub struct ChatRoom {
    users: Vec<UserData>,
}

impl View for ChatRoom {
    type V = Map<PeerAddr, UserView>;

    closed spec fn view(&self) -> Map<PeerAddr, UserView> {
        Map::new(
            |a: PeerAddr| exists|i: int| 0 <= i < self.users@.len() && (#[trigger] self.users@[i]).addr == a,
            |a: PeerAddr|
                user_view(
                    self.users@[choose|i: int| 0 <= i < self.users@.len() && (#[trigger] self.users@[i]).addr == a],
                ),
        )
    }
}

impl ChatRoom {
    /// The room is well formed: no address and no name occurs twice.
    pub closed spec fn wf(&self) -> bool {
        forall|i: int, j: int|
            0 <= i < self.users@.len() && 0 <= j < self.users@.len() && i != j ==> {
                &&& (#[trigger] self.users@[i]).addr != (#[trigger] self.users@[j]).addr
                &&& self.users@[i].name@ != self.users@[j].name@
            }
    }

    proof fn lemma_view_at(&self, i: int)
        requires
            self.wf(),
            0 <= i < self.users@.len(),
        ensures
            self@.dom().contains(self.users@[i].addr),
            self@[self.users@[i].addr] == user_view(self.users@[i]),
    {
        let a = self.users@[i].addr;
        assert(self@.dom().contains(a));
        let j = choose|j: int| 0 <= j < self.users@.len() && (#[trigger] self.users@[j]).addr == a;
        assert(j == i);
    }

    proof fn lemma_view_dom(&self, a: PeerAddr)
        requires
            self.wf(),
        ensures
            self@.dom().contains(a) <==> exists|i: int| 0 <= i < self.users@.len() && (#[trigger] self.users@[i]).addr == a,
    {
    }

    /// Well-formed rooms never hold two users with the same name.
    pub proof fn lemma_names_unique(&self)
        requires
            self.wf(),
        ensures
            names_unique(self@),
    {
        assert forall|a: PeerAddr, b: PeerAddr|
            #[trigger] self@.dom().contains(a) && #[trigger] self@.dom().contains(b) && a != b implies self@[a].name
            != self@[b].name by {
            let i = choose|i: int| 0 <= i < self.users@.len() && (#[trigger] self.users@[i]).addr == a;
            let j = choose|j: int| 0 <= j < self.users@.len() && (#[trigger] self.users@[j]).addr == b;
            self.lemma_view_at(i);
            self.lemma_view_at(j);
        }
    }

    /// An empty room.
    pub fn new() -> (res: ChatRoom)
        ensures
            res.wf(),
            res@ == Map::<PeerAddr, UserView>::empty(),
    {
        let res = ChatRoom { users: Vec::new() };
        assert(res@ =~= Map::<PeerAddr, UserView>::empty());
        res
    }

    /// The position of `addr` among the users, if it is logged in.
    fn find(&self, addr: &PeerAddr) -> (res: Option<usize>)
        ensures
            match res {
                Some(i) => i < self.users@.len() && self.users@[i as int].addr == *addr,
                None => forall|i: int| 0 <= i < self.users@.len() ==> (#[trigger] self.users@[i]).addr != *addr,
            },
    {
        let mut k: usize = 0;
        while k < self.users.len()
            invariant
                k <= self.users@.len(),
                forall|i: int| 0 <= i < k ==> (#[trigger] self.users@[i]).addr != *addr,
            decreases self.users@.len() - k,
        {
            if self.users[k].addr == *addr {
                return Some(k);
            }
            k = k + 1;
        }
        None
    }

    /// Whether a user is logged in from `addr`.
    pub fn contains(&self, addr: &PeerAddr) -> (res: bool)
        requires
            self.wf(),
        ensures
            res == self@.dom().contains(*addr),
    {
        proof {
            self.lemma_view_dom(*addr);
        }
        self.find(addr).is_some()
    }

    /// Whether some logged-in user goes by `name`.
    pub fn name_taken(&self, name: &String) -> (res: bool)
        requires
            self.wf(),
        ensures
            res == name_in_use(self@, name@),
    {
        let mut k: usize = 0;
        while k < self.users.len()
            invariant
                self.wf(),
                k <= self.users@.len(),
                forall|i: int| 0 <= i < k ==> (#[trigger] self.users@[i]).name@ != name@,
            decreases self.users@.len() - k,
        {
            if self.users[k].name == *name {
                proof {
                    self.lemma_view_at(k as int);
                }
                return true;
            }
            k = k + 1;
        }
        proof {
            if name_in_use(self@, name@) {
                let a = choose|a: PeerAddr| #[trigger] self@.dom().contains(a) && self@[a].name == name@;
                let i = choose|i: int| 0 <= i < self.users@.len() && (#[trigger] self.users@[i]).addr == a;
                self.lemma_view_at(i);
            }
        }
        false
    }

    /// Logs in `req` from `addr`: refused with an error when its name is
    /// already in use (the room is left as it was), otherwise the user is
    /// entered under `addr` and their joining is announced.
    pub fn login(&mut self, addr: PeerAddr, req: ReqLogin) -> (res: Result<Response, Response>)
        requires
            old(self).wf(),
        ensures
            final(self).wf(),
            (final(self)@, result_view(res)) == login_outcome(old(self)@, addr, req.name@, req.color),
    {
        if self.name_taken(&req.name) {
            let refusal = Response::error("PARSE", "Username already exists".to_owned());
            proof {
                reveal_strlit("Username already exists");
            }
            return Err(refusal);
        }
        let announced = req.name.clone();
        let user = UserData { name: req.name, color: req.color, addr };
        let ghost uv = user_view(user);
        let ghost before = self.users@;
        let pos = self.find(&addr);
        match pos {
            Some(k) => {
                self.users.set(k, user);
            },
            None => {
                self.users.push(user);
            },
        }
        proof {
            let after = self.users@;
            assert(forall|i: int| 0 <= i < after.len() && after[i].addr != addr ==> 0 <= i < before.len() && after[i] == before[i]);
            assert(after.len() >= before.len());
            assert forall|i: int| 0 <= i < before.len() && before[i].addr != addr implies after[i] == before[i] by {}
            // no name in use: every old name differs from the new one
            assert forall|i: int| 0 <= i < before.len() implies (#[trigger] before[i]).name@ != uv.name by {
                old(self).lemma_view_at(i);
            }
            assert(self.wf());
            let expected = old(self)@.insert(addr, uv);
            assert forall|a: PeerAddr| #[trigger] self@.dom().contains(a) <==> expected.dom().contains(a) by {
                if self@.dom().contains(a) && a != addr {
                    let i = choose|i: int| 0 <= i < after.len() && (#[trigger] after[i]).addr == a;
                    old(self).lemma_view_at(i);
                }
                if expected.dom().contains(a) {
                    if a == addr {
                        let i: int = match pos { Some(k) => k as int, None => before.len() as int };
                        self.lemma_view_at(i);
                    } else {
                        let i = choose|i: int| 0 <= i < before.len() && (#[trigger] before[i]).addr == a;
                        self.lemma_view_at(i);
                    }
                }
            }
            assert forall|a: PeerAddr| #[trigger] self@.dom().contains(a) implies self@[a] == expected[a] by {
                let i = choose|i: int| 0 <= i < after.len() && (#[trigger] after[i]).addr == a;
                self.lemma_view_at(i);
                if a != addr {
                    old(self).lemma_view_at(i);
                }
            }
            assert(self@ =~= expected);
        }
        Ok(Response::joined(announced))
    }

    /// The relay of `text` as posted by the user logged in from `addr`: it
    /// carries that user's name and colour.
    pub fn post(&self, addr: &PeerAddr, text: String) -> (res: Response)
        requires
            self.wf(),
            self@.dom().contains(*addr),
        ensures
            res@ == chat_response(self@[*addr].name, self@[*addr].color, text@),
    {
        proof {
            self.lemma_view_dom(*addr);
        }
        let k = self.find(addr).unwrap();
        proof {
            self.lemma_view_at(k as int);
        }
        let sender = &self.users[k];
        Response::chat(sender.name.clone(), sender.color, text)
    }

    /// Logs out the user at `addr` and announces that they left.
    pub fn leave(&mut self, addr: &PeerAddr) -> (res: Response)
        requires
            old(self).wf(),
            old(self)@.dom().contains(*addr),
        ensures
            final(self).wf(),
            final(self)@ == old(self)@.remove(*addr),
            res@ == leave_response(old(self)@[*addr].name),
    {
        proof {
            self.lemma_view_dom(*addr);
        }
        let k = self.find(addr).unwrap();
        proof {
            self.lemma_view_at(k as int);
        }
        let ghost before = self.users@;
        let user = self.users.remove(k);
        proof {
            let after = self.users@;
            assert(after =~= before.remove(k as int));
            assert forall|i: int| 0 <= i < after.len() implies #[trigger] after[i] == before[if i < k { i } else { i + 1 }] by {}
            assert(self.wf()) by {
                assert forall|i: int, j: int|
                    0 <= i < after.len() && 0 <= j < after.len() && i != j implies {
                        &&& (#[trigger] after[i]).addr != (#[trigger] after[j]).addr
                        &&& after[i].name@ != after[j].name@
                    } by {
                    let i0 = if i < k { i } else { i + 1 };
                    let j0 = if j < k { j } else { j + 1 };
                    assert(after[i] == before[i0]);
                    assert(after[j] == before[j0]);
                }
            }
            let expected = old(self)@.remove(*addr);
            assert forall|a: PeerAddr| #[trigger] self@.dom().contains(a) <==> expected.dom().contains(a) by {
                if self@.dom().contains(a) {
                    let i = choose|i: int| 0 <= i < after.len() && (#[trigger] after[i]).addr == a;
                    let i0 = if i < k { i } else { i + 1 };
                    assert(after[i] == before[i0]);
                    old(self).lemma_view_at(i0);
                }
                if expected.dom().contains(a) {
                    let i0 = choose|i: int| 0 <= i < before.len() && (#[trigger] before[i]).addr == a;
                    let i = if i0 < k { i0 } else { i0 - 1 };
                    assert(after[i] == before[i0]);
                    self.lemma_view_at(i);
                }
            }
            assert forall|a: PeerAddr| #[trigger] self@.dom().contains(a) implies self@[a] == expected[a] by {
                let i = choose|i: int| 0 <= i < after.len() && (#[trigger] after[i]).addr == a;
                let i0 = if i < k { i } else { i + 1 };
                assert(after[i] == before[i0]);
                self.lemma_view_at(i);
                old(self).lemma_view_at(i0);
            }
            assert(self@ =~= expected);
        }
        Response::left(user.name)
    }
}

} // verus!
