//! The doors out of the sandbox, as values the plugin hands the host.
//!
//! A plugin has a handful of imports and no other way to affect anything:
//! contribute to a slot, register an action, say something in the log, and ask
//! for something to be done. What the plugin *decides* is which of them to
//! call, with what, and in what order, so that is what this module describes:
//! a [`Call`] is one of those imports with its arguments. Whatever is on the
//! other side performs it — the host's own imports in a module, and
//! [`stub::Stub`] everywhere else, which writes down what was asked so that a
//! test can say "it asked for the output, and then for the clipboard".
use vstd::prelude::*;

pub mod stub;

use crate::sys::stub::Stub;

verus! {

/// How loud a line to the host's log is.
#[derive(Copy, Clone, Debug, PartialEq, Eq, Structural)]
pub enum Level {
    /// Something failed.
    Error,
    /// Something is not right but nothing failed.
    Warn,
    /// Worth knowing.
    Info,
}

impl Level {
    /// The number the host's log import takes for this level.
    pub fn code(self) -> (code: i32)
        ensures
            code == match self {
                Level::Error => 1int,
                Level::Warn => 2int,
                Level::Info => 3int,
            },
    {
        match self {
            Level::Error => 1,
            Level::Warn => 2,
            Level::Info => 3,
        }
    }
}

/// Something the plugin asks the host to do on its behalf: the two requests
/// of the host's vocabulary this plugin makes.
#[derive(Clone, Debug, PartialEq, Eq)]
pub enum Request {
    /// What the command printed, for the block a menu of this plugin's is
    /// open on.
    Output,
    /// Put text on the system clipboard.
    Copy {
        /// What to put there.
        text: String,
    },
}

/// A request, as the characters it carries.
pub enum RequestView {
    /// What the command printed.
    Output,
    /// Put this text on the clipboard.
    Copy(Seq<char>),
}

impl View for Request {
    type V = RequestView;

    open spec fn view(&self) -> RequestView {
        match self {
            Request::Output => RequestView::Output,
            Request::Copy { text } => RequestView::Copy(text@),
        }
    }
}

impl Request {
    /// A copy of this, with the same text.
    pub fn duplicate(&self) -> (copy: Request)
        ensures
            copy == *self,
    {
        match self {
            Request::Output => Request::Output,
            Request::Copy { text } => Request::Copy { text: text.clone() },
        }
    }
}

/// What became of a request: the answers of the host's vocabulary this plugin
/// tells apart, and one for all the others.
#[derive(Clone, Debug, PartialEq, Eq)]
pub enum Answer {
    /// What the command printed.
    Output {
        /// The rows, joined by newlines.
        text: String,
    },
    /// It was not granted; the sentence is what the permission dialog said.
    Refused(String),
    /// It was granted and attempted, and did not work.
    Failed(String),
    /// Any other answer, as `Debug` writes it.
    Other(String),
}

/// An answer, as the characters it carries.
pub enum AnswerView {
    Output(Seq<char>),
    Refused(Seq<char>),
    Failed(Seq<char>),
    Other(Seq<char>),
}

impl View for Answer {
    type V = AnswerView;

    open spec fn view(&self) -> AnswerView {
        match self {
            Answer::Output { text } => AnswerView::Output(text@),
            Answer::Refused(sentence) => AnswerView::Refused(sentence@),
            Answer::Failed(why) => AnswerView::Failed(why@),
            Answer::Other(what) => AnswerView::Other(what@),
        }
    }
}

/// One call through the doors out of the sandbox.
#[derive(Clone, Debug, PartialEq, Eq)]
pub enum Call {
    /// Contribute `entry` to `slot`, at `order` among the others.
    Contribute { slot: String, entry: String, order: i32 },
    /// Offer the action `name`, with what a palette should call it — `None`
    /// for an action that is reachable and not offered.
    RegisterAction { name: String, title: Option<String> },
    /// Say `text` in the host's log.
    Log { level: Level, text: String },
    /// Ask for something, which is answered later under a ticket.
    Ask(Request),
}

/// A call, as the characters it carries.
pub enum CallView {
    /// Contribute an entry to a slot.
    Contribute(Seq<char>, Seq<char>, i32),
    /// Offer an action.
    RegisterAction(Seq<char>, Option<Seq<char>>),
    /// Say something in the log.
    Log(Level, Seq<char>),
    /// Ask for something.
    Ask(RequestView),
}

impl View for Call {
    type V = CallView;

    open spec fn view(&self) -> CallView {
        match self {
            Call::Contribute { slot, entry, order } => CallView::Contribute(slot@, entry@, *order),
            Call::RegisterAction { name, title } => CallView::RegisterAction(
                name@,
                match title {
                    Some(title) => Some(title@),
                    None => None,
                },
            ),
            Call::Log { level, text } => CallView::Log(*level, text@),
            Call::Ask(request) => CallView::Ask(request@),
        }
    }
}

/// `n` as a LEB128 varint, which is how the host's wire format writes a
/// length: seven bits a byte, lowest first, the top bit set on every byte but
/// the last.
pub open spec fn varint(n: nat) -> Seq<u8>
    decreases n,
{
    if n < 128 {
        seq![n as u8]
    } else {
        seq![(n % 128 + 128) as u8] + varint(n / 128)
    }
}

/// `text` as the host's wire format writes a string: its length in UTF-8
/// bytes as a varint, then those bytes.
pub open spec fn string_wire(text: Seq<char>) -> Seq<u8> {
    varint(vstd::utf8::encode_utf8(text).len()) + vstd::utf8::encode_utf8(text)
}

/// The bytes the host's wire format gives `request`: its variant's number in
/// the host's `Request` — ten for the output, eleven for a copy — then, for a
/// copy, the text's length in UTF-8 bytes as a varint and those bytes.
///
/// Every request has them: the wire can carry both.
pub open spec fn wire_bytes(request: RequestView) -> Option<Seq<u8>> {
    match request {
        RequestView::Output => Some(seq![10u8]),
        RequestView::Copy(text) => Some(seq![11u8] + string_wire(text)),
    }
}

/// Encodes a request for the wire, with `crook_plugin_api::to_bytes`.
///
/// That is postcard's `to_allocvec` of the host's own `Request`: a unit
/// variant is its index as a varint, a struct variant its index and then its
/// fields, and a string its length in bytes as a varint and then its UTF-8
/// bytes. Its output flavour only pushes onto a `Vec`, so it never fails, and
/// the contract says so: the bytes are always there, and are [`wire_bytes`].
#[verifier::external_body]
pub(crate) fn encode(request: &Request) -> (bytes: Option<Vec<u8>>)
    ensures
        bytes is Some,
        match bytes {
            Some(bytes) => wire_bytes(request@) == Some(bytes@),
            None => wire_bytes(request@) is None,
        },
{
    let request = match request {
        Request::Output => crook_plugin_api::Request::Output,
        Request::Copy { text } => crook_plugin_api::Request::Copy { text: text.clone() },
    };
    crook_plugin_api::to_bytes(&request).ok()
}

/// The bytes a request goes to the host as.
///
/// Encoded whoever is on the other side, so that what a test sees asked is
/// what the host's wire would have carried.
pub fn request_bytes(request: &Request) -> (bytes: Option<Vec<u8>>)
    ensures
        bytes is Some,
        match bytes {
            Some(bytes) => wire_bytes(request@) == Some(bytes@),
            None => wire_bytes(request@) is None,
        },
{
    encode(request)
}

/// What the host's answer to a request means: the ticket its answer will
/// carry, or `None` when the host would not take it.
///
/// Zero is "not asked": too many outstanding, or bytes the host could not
/// read. Either way there is no answer coming, so nothing may wait on one.
pub fn ticket_from(raw: i32) -> (ticket: Option<i32>)
    ensures
        ticket == if raw > 0 {
            Some(raw)
        } else {
            None::<i32>
        },
{
    if raw > 0 {
        Some(raw)
    } else {
        None
    }
}

/// Contributes to a slot the host declares.
pub fn contribute(host: &mut Stub, slot: &str, entry: &str, order: i32)
    ensures
        final(host)@.tickets == old(host)@.tickets,
        final(host)@.asked == old(host)@.asked.with_contribution(slot@, entry@, order),
{
    host.record_contribution(slot, entry, order);
}

/// Offers an action by name, with what a palette should call it.
///
/// `None` is an action that is reachable and not offered, and the host is
/// told it as an empty title.
pub fn register_action(host: &mut Stub, name: &str, title: Option<&str>)
    ensures
        final(host)@.tickets == old(host)@.tickets,
        final(host)@.asked == old(host)@.asked.with_action(
            name@,
            match title {
                Some(title) => title@,
                None => Seq::empty(),
            },
        ),
{
    let title = match title {
        Some(title) => title,
        None => "",
    };
    proof {
        reveal_strlit("");
        assert(""@ =~= Seq::<char>::empty());
    }
    host.record_action(name, title);
}

/// Says something in the host's log, under this plugin's name.
pub fn log(host: &mut Stub, level: Level, text: &str)
    ensures
        final(host)@.tickets == old(host)@.tickets,
        final(host)@.asked == old(host)@.asked.with_log(level, text@),
{
    host.record_log(level, text);
}

/// Asks the host to do something, and returns the ticket its answer will
/// carry — or `None` when the host would not take it.
pub fn ask(host: &mut Stub, request: &Request) -> (ticket: Option<i32>)
    requires
        old(host)@.tickets < i32::MAX,
    ensures
        match wire_bytes(request@) {
            None => ticket is None && final(host)@ == old(host)@,
            Some(bytes) => {
                &&& ticket == Some((old(host)@.tickets + 1) as i32)
                &&& final(host)@.tickets == old(host)@.tickets + 1
                &&& final(host)@.asked == old(host)@.asked.with_request(
                    (old(host)@.tickets + 1) as i32,
                    request@,
                    bytes.len() as usize,
                )
            },
        },
{
    let bytes = match request_bytes(request) {
        Some(bytes) => bytes,
        None => return None,
    };
    let raw = host.record_request(request, bytes.len());
    ticket_from(raw)
}

/// Makes one call against `host`, and hands back the ticket when it was a
/// request the host took.
pub fn perform(host: &mut Stub, call: &Call) -> (ticket: Option<i32>)
    requires
        old(host)@.tickets < i32::MAX,
    ensures
        final(host)@ == old(host)@.after(call@),
        ticket == old(host)@.ticket_for(call@),
{
    match call {
        Call::Contribute { slot, entry, order } => {
            contribute(host, slot.as_str(), entry.as_str(), *order);
            None
        },
        Call::RegisterAction { name, title } => {
            let title = match title {
                Some(title) => Some(title.as_str()),
                None => None,
            };
            register_action(host, name.as_str(), title);
            None
        },
        Call::Log { level, text } => {
            log(host, *level, text.as_str());
            None
        },
        Call::Ask(request) => ask(host, request),
    }
}

} // verus!
