//! What the imports do when there is no host on the other side of them.
//!
//! A [`Stub`] writes down everything it is asked, in order, and hands out
//! tickets counting up from one — which is what makes "it asked for the block,
//! and then asked for the text to go on the clipboard" a thing a test can
//! assert.
use vstd::prelude::*;

use crate::sys::{CallView, Level, Request, RequestView, wire_bytes};

verus! {

/// Everything the plugin has asked for since a test last looked.
#[derive(Clone, Debug, Default, PartialEq)]
pub struct Asked {
    /// Slots contributed to, as `(slot, entry, order)`.
    pub contributions: Vec<(String, String, i32)>,
    /// Actions offered, as `(name, title)`.
    pub actions: Vec<(String, String)>,
    /// Requests raised, with the ticket each was given.
    pub requests: Vec<(i32, Request)>,
    /// How many bytes each of them encoded to, newest last.
    pub request_bytes: Vec<usize>,
    /// Lines logged.
    pub logs: Vec<(Level, String)>,
}

/// What has been asked for, as characters.
#[verifier::ext_equal]
pub struct AskedView {
    pub contributions: Seq<(Seq<char>, Seq<char>, i32)>,
    pub actions: Seq<(Seq<char>, Seq<char>)>,
    pub requests: Seq<(i32, RequestView)>,
    pub request_bytes: Seq<usize>,
    pub logs: Seq<(Level, Seq<char>)>,
}

impl View for Asked {
    type V = AskedView;

    open spec fn view(&self) -> AskedView {
        AskedView {
            contributions: self.contributions@.map_values(
                |c: (String, String, i32)| (c.0@, c.1@, c.2),
            ),
            actions: self.actions@.map_values(|a: (String, String)| (a.0@, a.1@)),
            requests: self.requests@.map_values(|r: (i32, Request)| (r.0, r.1@)),
            request_bytes: self.request_bytes@,
            logs: self.logs@.map_values(|l: (Level, String)| (l.0, l.1@)),
        }
    }
}

impl AskedView {
    /// Nothing asked at all.
    pub open spec fn nothing() -> AskedView {
        AskedView {
            contributions: Seq::empty(),
            actions: Seq::empty(),
            requests: Seq::empty(),
            request_bytes: Seq::empty(),
            logs: Seq::empty(),
        }
    }

    /// This, and one more contribution.
    pub open spec fn with_contribution(self, slot: Seq<char>, entry: Seq<char>, order: i32) -> AskedView {
        AskedView { contributions: self.contributions.push((slot, entry, order)), ..self }
    }

    /// This, and one more action.
    pub open spec fn with_action(self, name: Seq<char>, title: Seq<char>) -> AskedView {
        AskedView { actions: self.actions.push((name, title)), ..self }
    }

    /// This, and one more line of log.
    pub open spec fn with_log(self, level: Level, text: Seq<char>) -> AskedView {
        AskedView { logs: self.logs.push((level, text)), ..self }
    }

    /// This, and one more request, given `ticket` and `size` bytes long.
    pub open spec fn with_request(self, ticket: i32, request: RequestView, size: usize) -> AskedView {
        AskedView {
            requests: self.requests.push((ticket, request)),
            request_bytes: self.request_bytes.push(size),
            ..self
        }
    }
}

/// A host that writes down what it is asked and answers nothing.
#[derive(Debug, Default)]
pub struct Stub {
    asked: Asked,
    /// How many tickets have been handed out, which is also the last one.
    tickets: u32,
}

/// What a stub has written down, and how many tickets it has handed out.
#[verifier::ext_equal]
pub struct StubView {
    pub asked: AskedView,
    pub tickets: int,
}

impl View for Stub {
    type V = StubView;

    closed spec fn view(&self) -> StubView {
        StubView { asked: self.asked@, tickets: self.tickets as int }
    }
}

impl StubView {
    /// What a stub has written down once `call` has been made against it.
    pub open spec fn after(self, call: CallView) -> StubView {
        match call {
            CallView::Contribute(slot, entry, order) => StubView {
                asked: self.asked.with_contribution(slot, entry, order),
                ..self
            },
            CallView::RegisterAction(name, title) => StubView {
                asked: self.asked.with_action(
                    name,
                    match title {
                        Some(title) => title,
                        None => Seq::empty(),
                    },
                ),
                ..self
            },
            CallView::Log(level, text) => StubView { asked: self.asked.with_log(level, text), ..self },
            CallView::Ask(request) => match wire_bytes(request) {
                Some(bytes) => StubView {
                    asked: self.asked.with_request(
                        (self.tickets + 1) as i32,
                        request,
                        bytes.len() as usize,
                    ),
                    tickets: self.tickets + 1,
                },
                None => self,
            },
        }
    }

    /// The ticket a stub hands back for `call`: the next one for a request the
    /// wire can carry, and none otherwise.
    pub open spec fn ticket_for(self, call: CallView) -> Option<i32> {
        match call {
            CallView::Ask(request) => match wire_bytes(request) {
                Some(_) => Some((self.tickets + 1) as i32),
                None => None,
            },
            _ => None,
        }
    }
}

/// Two sequences mapped by one function agree after one more element.
proof fn lemma_map_push<A, B>(s: Seq<A>, a: A, f: spec_fn(A) -> B)
    ensures
        s.push(a).map_values(f) =~= s.map_values(f).push(f(a)),
{
}

impl Stub {
    /// A stub that has been asked nothing and handed out no tickets.
    pub fn new() -> (stub: Stub)
        ensures
            stub@.asked == AskedView::nothing(),
            stub@.tickets == 0,
    {
        let stub = Stub { asked: Asked::nothing(), tickets: 0 };
        proof {
            assert(stub@.asked =~= AskedView::nothing());
        }
        stub
    }

    /// How many tickets have been handed out.
    pub fn tickets_handed(&self) -> (count: u32)
        ensures
            count == self@.tickets,
    {
        self.tickets
    }

    /// What has been asked for, leaving nothing behind.
    pub fn taken(&mut self) -> (asked: Asked)
        ensures
            asked@ == old(self)@.asked,
            final(self)@.asked == AskedView::nothing(),
            final(self)@.tickets == old(self)@.tickets,
    {
        let mut asked = Asked::nothing();
        std::mem::swap(&mut asked, &mut self.asked);
        asked
    }

    /// Forgets everything, including the tickets handed out.
    pub fn forget(&mut self)
        ensures
            final(self)@.asked == AskedView::nothing(),
            final(self)@.tickets == 0,
    {
        let _ = self.taken();
        self.tickets = 0;
    }

    /// The newest request and the ticket it was given, if there was one.
    pub fn last_ticket(&self) -> (last: Option<(i32, Request)>)
        ensures
            match last {
                Some(last) => {
                    &&& self@.asked.requests.len() > 0
                    &&& (last.0, last.1@) == self@.asked.requests.last()
                },
                None => self@.asked.requests.len() == 0,
            },
    {
        let count = self.asked.requests.len();
        if count == 0 {
            None
        } else {
            let (ticket, request) = &self.asked.requests[count - 1];
            Some((*ticket, request.duplicate()))
        }
    }

    pub(crate) fn record_contribution(&mut self, slot: &str, entry: &str, order: i32)
        ensures
            final(self)@.tickets == old(self)@.tickets,
            final(self)@.asked == old(self)@.asked.with_contribution(slot@, entry@, order),
    {
        let ghost before = self.asked.contributions@;
        self.asked.contributions.push((slot.to_owned(), entry.to_owned(), order));
        proof {
            lemma_map_push(before, self.asked.contributions@.last(), |c: (String, String, i32)| (c.0@, c.1@, c.2));
            assert(self@.asked =~= old(self)@.asked.with_contribution(slot@, entry@, order));
        }
    }

    pub(crate) fn record_action(&mut self, name: &str, title: &str)
        ensures
            final(self)@.tickets == old(self)@.tickets,
            final(self)@.asked == old(self)@.asked.with_action(name@, title@),
    {
        let ghost before = self.asked.actions@;
        self.asked.actions.push((name.to_owned(), title.to_owned()));
        proof {
            lemma_map_push(before, self.asked.actions@.last(), |a: (String, String)| (a.0@, a.1@));
            assert(self@.asked =~= old(self)@.asked.with_action(name@, title@));
        }
    }

    pub(crate) fn record_log(&mut self, level: Level, text: &str)
        ensures
            final(self)@.tickets == old(self)@.tickets,
            final(self)@.asked == old(self)@.asked.with_log(level, text@),
    {
        let ghost before = self.asked.logs@;
        self.asked.logs.push((level, text.to_owned()));
        proof {
            lemma_map_push(before, self.asked.logs@.last(), |l: (Level, String)| (l.0, l.1@));
            assert(self@.asked =~= old(self)@.asked.with_log(level, text@));
        }
    }

    pub(crate) fn record_request(&mut self, request: &Request, bytes: usize) -> (ticket: i32)
        requires
            old(self)@.tickets < i32::MAX,
        ensures
            ticket == old(self)@.tickets + 1,
            ticket > 0,
            final(self)@.tickets == old(self)@.tickets + 1,
            final(self)@.asked == old(self)@.asked.with_request(ticket, request@, bytes),
    {
        self.tickets = self.tickets + 1;
        let ticket = self.tickets as i32;
        let ghost before = self.asked.requests@;
        self.asked.requests.push((ticket, request.duplicate()));
        self.asked.request_bytes.push(bytes);
        proof {
            lemma_map_push(before, self.asked.requests@.last(), |r: (i32, Request)| (r.0, r.1@));
            assert(self@.asked =~= old(self)@.asked.with_request(ticket, request@, bytes));
        }
        ticket
    }
}

impl Asked {
    /// Nothing asked at all.
    pub fn nothing() -> (asked: Asked)
        ensures
            asked@ == AskedView::nothing(),
    {
        let asked = Asked {
            contributions: Vec::new(),
            actions: Vec::new(),
            requests: Vec::new(),
            request_bytes: Vec::new(),
            logs: Vec::new(),
        };
        proof {
            assert(asked@ =~= AskedView::nothing());
        }
        asked
    }
}

} // verus!
