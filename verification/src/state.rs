//! What the plugin does when somebody presses one of its entries.
//!
//! Three steps and almost no state: an entry is pressed, the plugin asks what
//! the command printed, and when the answer comes back it asks for the text to
//! go on the clipboard. Everything between the two asks is
//! [`format`](crate::format).
//!
//! Each step is a function from what the plugin knows and what just happened
//! to what it knows next and the one [`Call`] it makes of the host. Whoever is
//! on the other side makes the call and, for a request, hands back the ticket
//! it was given through [`Markdown::asked`]. The `step_*` functions below say
//! what each step is, and the methods are proved to be exactly them.
//!
//! # What is remembered, and why so little
//!
//! The command itself is not asked for. It arrives in the *subject* of every
//! render, so what this keeps is the last one it was drawn for. That is sound
//! because a menu is modal: the frame before a press is the block the press is
//! about.
//!
//! # Why a ticket has to be remembered at all
//!
//! Because the answer arrives later and says nothing about what it was for. A
//! plugin with two entries that both read a block has to know which of them is
//! being answered — otherwise "Copy as a report" pastes a bare fence whenever
//! somebody pressed the other one first.
use vstd::prelude::*;

use crate::block::{BlockFacts, Render};
use crate::format::{markdown_text, Shape};
use crate::sys::stub::{Stub, StubView};
use crate::sys::{self, Answer, AnswerView, Call, CallView, Level, Request, RequestView};
use crate::view::{self, block_of, is_menu_for, worth_reporting_spec, Node};
use crate::wire::{answer_from_wire, decode_answer, decode_render, render_from_wire, utf8_text};

verus! {

/// The name of the entry that copies a fence.
pub const FENCED: &'static str = "markdown";

/// The name of the entry that copies a report.
pub const REPORT: &'static str = "report";

/// The slot the entries go in, which is the menu a block's dots open.
pub const SLOT: &'static str = "block.menu";

/// The name this plugin's one contribution goes by.
pub const ENTRY: &'static str = "markdown";

/// Where among the menu's other groups this one goes: after Crook's own
/// copies and before its scrolls.
pub const ORDER: i32 = 15;

/// What a ticket was asked for.
#[derive(Clone, Debug, PartialEq, Eq)]
pub struct Waiting {
    /// Which shape the answer is to be turned into.
    pub shape: Shape,
    /// The command it is about, as it was when the entry was pressed — not as
    /// it is when the answer lands, because by then the menu has closed.
    pub block: Option<BlockFacts>,
}

/// The request the plugin has just made and not yet been given a ticket for.
#[derive(Clone, Debug, PartialEq, Eq)]
pub enum Pending {
    /// It asked what a command printed, for this.
    Output(Waiting),
    /// It asked for text to go on the clipboard.
    Copy,
}

/// Everything the plugin knows: the command it was last drawn for, and what it
/// is waiting on.
#[derive(Debug, Default)]
pub struct Markdown {
    /// The block the last render was about, which is the block a press is
    /// about. `None` before the first render and for a build that has just
    /// happened.
    drawn_for: Option<BlockFacts>,
    /// Tickets asked for and not yet answered, oldest first.
    ///
    /// A list rather than one slot: nothing stops somebody pressing an entry
    /// on one block and another on the next before the first has come back.
    waiting: Vec<(i32, Waiting)>,
    /// The request just made, until the host says which ticket it got.
    pending: Option<Pending>,
}

/// What the plugin knows, as a value.
#[verifier::ext_equal]
pub struct MarkdownView {
    pub drawn_for: Option<BlockFacts>,
    pub waiting: Seq<(i32, Waiting)>,
    pub pending: Option<Pending>,
}

impl View for Markdown {
    type V = MarkdownView;

    closed spec fn view(&self) -> MarkdownView {
        MarkdownView { drawn_for: self.drawn_for, waiting: self.waiting@, pending: self.pending }
    }
}

/// A plugin that has not been drawn and is waiting on nothing.
pub open spec fn fresh() -> MarkdownView {
    MarkdownView { drawn_for: None, waiting: Seq::empty(), pending: None }
}

/// The block an optional owned block lends.
pub open spec fn lent(block: &Option<BlockFacts>) -> Option<&BlockFacts> {
    match block {
        Some(block) => Some(block),
        None => None,
    }
}

/// The block a render is about, when it is about one.
pub open spec fn drawn_block(render: Render) -> Option<BlockFacts> {
    match render.subject {
        Some(crate::block::Subject::Block(facts)) => Some(facts),
        _ => None,
    }
}

/// Which shape the action named `action` copies, if it is one of the two.
pub open spec fn shape_for(action: Seq<char>) -> Option<Shape> {
    if action == FENCED@ {
        Some(Shape::Fenced)
    } else if action == REPORT@ {
        Some(Shape::Report)
    } else {
        None
    }
}

/// Where the first ticket `ticket` waits in `waiting`, if it does.
pub open spec fn first_index(waiting: Seq<(i32, Waiting)>, ticket: i32) -> Option<int>
    decreases waiting.len(),
{
    if waiting.len() == 0 {
        None
    } else if waiting[0].0 == ticket {
        Some(0)
    } else {
        match first_index(waiting.drop_first(), ticket) {
            Some(i) => Some(i + 1),
            None => None,
        }
    }
}

/// `waiting` without any entry for `ticket`, in the order it was.
pub open spec fn without(waiting: Seq<(i32, Waiting)>, ticket: i32) -> Seq<(i32, Waiting)>
    decreases waiting.len(),
{
    if waiting.len() == 0 {
        Seq::empty()
    } else {
        let rest = without(waiting.drop_last(), ticket);
        if waiting.last().0 == ticket {
            rest
        } else {
            rest.push(waiting.last())
        }
    }
}

/// The text `Debug` gives a string: quoted, with what needs it escaped.
pub uninterp spec fn debug_text(text: Seq<char>) -> Seq<char>;

/// What is logged for an action this plugin has no name for.
pub open spec fn unknown_action_line(action: Seq<char>) -> Seq<char> {
    "nothing here is called "@ + debug_text(action)
}

/// What is logged for a block with no command that printed nothing.
pub open spec fn nothing_to_copy_line() -> Seq<char> {
    "that block has no command and printed nothing, so there is nothing to copy"@
}

/// What is logged for a request a person has not allowed.
pub open spec fn refused_line(sentence: Seq<char>) -> Seq<char> {
    "not allowed to: "@ + sentence + ". Allow it on the Plugins page."@
}

/// What is logged for an answer that is not an output.
pub open spec fn not_an_output_line(answer: Seq<char>) -> Seq<char> {
    "that answer was not an output: "@ + answer
}

/// What an answer to `waiting` makes the plugin do, and what it is then
/// waiting to be told a ticket for.
pub open spec fn outcome(waiting: Waiting, answer: AnswerView) -> (Option<CallView>, Option<Pending>) {
    match answer {
        AnswerView::Output(text) => {
            let copied = markdown_text(lent(&waiting.block), text, waiting.shape);
            if copied.len() == 0 {
                (Some(CallView::Log(Level::Info, nothing_to_copy_line())), None)
            } else {
                (Some(CallView::Ask(RequestView::Copy(copied))), Some(Pending::Copy))
            }
        },
        AnswerView::Refused(sentence) => (
            Some(CallView::Log(Level::Info, refused_line(sentence))),
            None,
        ),
        AnswerView::Failed(why) => (Some(CallView::Log(Level::Warn, why)), None),
        AnswerView::Other(what) => (
            Some(CallView::Log(Level::Warn, not_an_output_line(what))),
            None,
        ),
    }
}

/// Building: everything forgotten, one group in the menu and two actions,
/// neither of them offered to a palette.
pub open spec fn step_build() -> (MarkdownView, Seq<CallView>) {
    (
        fresh(),
        seq![
            CallView::Contribute(SLOT@, ENTRY@, ORDER),
            CallView::RegisterAction(FENCED@, None),
            CallView::RegisterAction(REPORT@, None),
        ],
    )
}

/// A render: drawn for the block it is about when it is of this plugin's
/// slot, and nothing changed for any other slot.
pub open spec fn step_render(m: MarkdownView, render: Render) -> MarkdownView {
    if render.slot@ == SLOT@ {
        MarkdownView { drawn_for: drawn_block(render), ..m }
    } else {
        m
    }
}

/// A press of the action named `action`: for one of the two, ask what the
/// command printed, about the block last drawn for; for anything else, say so.
pub open spec fn step_run(m: MarkdownView, action: Seq<char>) -> (MarkdownView, Option<CallView>) {
    match shape_for(action) {
        Some(shape) => (
            MarkdownView {
                pending: Some(Pending::Output(Waiting { shape, block: m.drawn_for })),
                ..m
            },
            Some(CallView::Ask(RequestView::Output)),
        ),
        None => (
            MarkdownView { pending: None, ..m },
            Some(CallView::Log(Level::Warn, unknown_action_line(action))),
        ),
    }
}

/// The host's reply to the request just made: the ticket it was given, if it
/// took it. A ticket for an output is waited on; a ticket for a copy is only
/// remembered so that its answer is not mistaken for an output.
pub open spec fn step_asked(m: MarkdownView, ticket: Option<i32>) -> MarkdownView {
    let waiting = match ticket {
        Some(ticket) => match m.pending {
            Some(Pending::Output(w)) => m.waiting.push((ticket, w)),
            Some(Pending::Copy) => without(m.waiting, ticket),
            None => m.waiting,
        },
        None => m.waiting,
    };
    MarkdownView { waiting, pending: None, ..m }
}

/// An answer under `ticket`: ignored when nothing waits on it, and otherwise
/// taken off the list and turned into what it asked for.
pub open spec fn step_deliver(m: MarkdownView, ticket: i32, answer: AnswerView) -> (
    MarkdownView,
    Option<CallView>,
) {
    match first_index(m.waiting, ticket) {
        None => (MarkdownView { pending: None, ..m }, None),
        Some(i) => {
            let (call, pending) = outcome(m.waiting[i].1, answer);
            (MarkdownView { waiting: m.waiting.remove(i), pending, ..m }, call)
        },
    }
}

/// The characters of an optional call.
pub open spec fn call_view(call: Option<Call>) -> Option<CallView> {
    match call {
        Some(call) => Some(call@),
        None => None,
    }
}

/// A stub host once `call`, if there is one, has been made against it.
pub open spec fn host_after(host: StubView, call: Option<CallView>) -> StubView {
    match call {
        Some(call) => host.after(call),
        None => host,
    }
}

/// The ticket a stub host hands back for `call`, if any.
pub open spec fn ticket_after(host: StubView, call: Option<CallView>) -> Option<i32> {
    match call {
        Some(call) => host.ticket_for(call),
        None => None,
    }
}

/// The text `Debug` gives a string, from `format!`.
///
/// What the text is is `<str as Debug>::fmt`'s and is named here rather than
/// spelled out: the contract says only that it depends on the string alone.
#[verifier::external_body]
fn quoted(text: &str) -> (quoted: String)
    ensures
        quoted@ == debug_text(text@),
{
    format!("{text:?}")
}

/// Whether two strings hold the same characters.
fn same_text(a: &str, b: &str) -> (same: bool)
    ensures
        same == (a@ == b@),
{
    a.to_owned() == b.to_owned()
}

impl Waiting {
    /// A copy of this, field for field.
    pub fn duplicate(&self) -> (copy: Waiting)
        ensures
            copy == *self,
    {
        Waiting {
            shape: self.shape,
            block: match &self.block {
                Some(block) => Some(block.duplicate()),
                None => None,
            },
        }
    }
}

/// Where [`first_index`] points, seen from the front.
proof fn lemma_first_index(waiting: Seq<(i32, Waiting)>, ticket: i32, at: int)
    requires
        0 <= at <= waiting.len(),
        forall|j: int| 0 <= j < at ==> #[trigger] waiting[j].0 != ticket,
        at < waiting.len() ==> waiting[at].0 == ticket,
    ensures
        first_index(waiting, ticket) == if at < waiting.len() {
            Some(at)
        } else {
            None::<int>
        },
    decreases at,
{
    if at > 0 {
        let rest = waiting.drop_first();
        assert(waiting[0].0 != ticket);
        assert forall|j: int| 0 <= j < at - 1 implies #[trigger] rest[j].0 != ticket by {
            assert(rest[j] == waiting[j + 1]);
        }
        if at - 1 < rest.len() {
            assert(rest[at - 1] == waiting[at]);
        }
        lemma_first_index(rest, ticket, at - 1);
    }
}

impl Markdown {
    /// A plugin that has not been asked for anything yet.
    pub fn new() -> (plugin: Markdown)
        ensures
            plugin@ == fresh(),
    {
        let plugin = Markdown { drawn_for: None, waiting: Vec::new(), pending: None };
        proof {
            assert(plugin@ =~= fresh());
        }
        plugin
    }

    /// Registers the entries and the actions behind them, from nothing.
    ///
    /// Nothing else happens here. There is no timer, no poll and nothing to
    /// read at startup: this plugin does something exactly when somebody asks
    /// it to, which is what a menu entry is.
    pub fn build(&mut self) -> (calls: Vec<Call>)
        ensures
            final(self)@ == step_build().0,
            calls@.map_values(|call: Call| call@) == step_build().1,
    {
        self.waiting.clear();
        self.drawn_for = None;
        self.pending = None;
        let mut calls: Vec<Call> = Vec::new();
        calls.push(Call::Contribute { slot: SLOT.to_owned(), entry: ENTRY.to_owned(), order: ORDER });
        // Reachable and not offered: an entry of a block's menu is about the
        // block it was opened on, so one run from a command palette would be
        // an entry about nothing.
        calls.push(Call::RegisterAction { name: FENCED.to_owned(), title: None });
        calls.push(Call::RegisterAction { name: REPORT.to_owned(), title: None });
        proof {
            assert(self@ =~= fresh());
            assert(calls@.map_values(|call: Call| call@) =~= step_build().1);
        }
        calls
    }

    /// What to draw, and what the drawing says about which block this is.
    pub fn render(&mut self, render: &Render) -> (node: Node)
        ensures
            final(self)@ == step_render(old(self)@, *render),
            render.slot@ != SLOT@ ==> node == Node::Empty && final(self)@ == old(self)@,
            render.slot@ == SLOT@ ==> {
                &&& final(self)@ == (MarkdownView { drawn_for: drawn_block(*render), ..old(self)@ })
                &&& is_menu_for(node, worth_reporting_spec(block_of(view::subject_ref(&render.subject))))
            },
    {
        if !same_text(render.slot.as_str(), SLOT) {
            // A slot this plugin does not contribute to, which cannot happen
            // and is drawn as nothing rather than guessed at.
            return Node::Empty;
        }
        self.drawn_for = match &render.subject {
            Some(crate::block::Subject::Block(facts)) => Some(facts.duplicate()),
            _ => None,
        };
        let subject = match &render.subject {
            Some(subject) => Some(subject),
            None => None,
        };
        proof {
            assert(self@ =~= MarkdownView { drawn_for: drawn_block(*render), ..old(self)@ });
        }
        view::menu(subject)
    }

    /// A press of one of the entries, which is to ask what the command
    /// printed.
    pub fn run(&mut self, action: &str) -> (call: Option<Call>)
        ensures
            (final(self)@, call_view(call)) == step_run(old(self)@, action@),
    {
        let shape = if same_text(action, FENCED) {
            Shape::Fenced
        } else if same_text(action, REPORT) {
            Shape::Report
        } else {
            self.pending = None;
            let mut line = String::new();
            line.append("nothing here is called ");
            let name = quoted(action);
            line.append(name.as_str());
            proof {
                assert(self@ =~= step_run(old(self)@, action@).0);
            }
            return Some(Call::Log { level: Level::Warn, text: line });
        };
        // Only a press may ask this, and this is one. The answer is about the
        // block whose menu the person used, which is the block the last render
        // was drawn for.
        let block = match &self.drawn_for {
            Some(block) => Some(block.duplicate()),
            None => None,
        };
        self.pending = Some(Pending::Output(Waiting { shape, block }));
        proof {
            assert(self@ =~= step_run(old(self)@, action@).0);
        }
        Some(Call::Ask(Request::Output))
    }

    /// What the host said to the request just made: the ticket its answer
    /// will carry, or `None` when it would not take it.
    pub fn asked(&mut self, ticket: Option<i32>)
        ensures
            final(self)@ == step_asked(old(self)@, ticket),
    {
        let pending = self.pending.take();
        if let Some(ticket) = ticket {
            match pending {
                Some(Pending::Output(waiting)) => {
                    self.waiting.push((ticket, waiting));
                },
                Some(Pending::Copy) => {
                    self.forget_ticket(ticket);
                },
                None => {},
            }
        }
        proof {
            assert(self@ =~= step_asked(old(self)@, ticket));
        }
    }

    /// Drops every entry waiting on `ticket`.
    fn forget_ticket(&mut self, ticket: i32)
        ensures
            final(self)@ == (MarkdownView { waiting: without(old(self)@.waiting, ticket), ..old(self)@ }),
    {
        let mut kept: Vec<(i32, Waiting)> = Vec::new();
        let count = self.waiting.len();
        for i in 0..count
            invariant
                count == self.waiting@.len(),
                self@ == old(self)@,
                kept@ == without(self.waiting@.take(i as int), ticket),
        {
            proof {
                assert(self.waiting@.take(i + 1).drop_last() =~= self.waiting@.take(i as int));
            }
            let (t, waiting) = &self.waiting[i];
            if *t != ticket {
                kept.push((*t, waiting.duplicate()));
            }
        }
        proof {
            assert(self.waiting@.take(count as int) =~= self.waiting@);
        }
        self.waiting = kept;
        proof {
            assert(self@ =~= MarkdownView { waiting: without(old(self)@.waiting, ticket), ..old(self)@ });
        }
    }

    /// Takes one answer, and says whatever it makes possible.
    pub fn deliver(&mut self, ticket: i32, answer: Answer) -> (call: Option<Call>)
        ensures
            (final(self)@, call_view(call)) == step_deliver(old(self)@, ticket, answer@),
    {
        let count = self.waiting.len();
        let mut index: usize = 0;
        while index < count && self.waiting[index].0 != ticket
            invariant
                count == self.waiting@.len(),
                self@ == old(self)@,
                index <= count,
                forall|j: int| 0 <= j < index ==> #[trigger] self.waiting@[j].0 != ticket,
            decreases count - index,
        {
            index = index + 1;
        }
        proof {
            lemma_first_index(self.waiting@, ticket, index as int);
        }
        if index == count {
            // A ticket nobody here is waiting on — the clipboard's own answer,
            // most likely. Nothing to do with it.
            self.pending = None;
            proof {
                assert(self@ =~= step_deliver(old(self)@, ticket, answer@).0);
            }
            return None;
        }
        let (_, waiting) = self.waiting.remove(index);
        let call = match answer {
            Answer::Output { text } => self.copy(text.as_str(), &waiting),
            // A refusal is not a failure, and the sentence it carries is the
            // one the permission dialog used — so this can say what to go and
            // allow rather than that something went wrong.
            Answer::Refused(sentence) => {
                self.pending = None;
                let mut line = String::new();
                line.append("not allowed to: ");
                line.append(sentence.as_str());
                line.append(". Allow it on the Plugins page.");
                Call::Log { level: Level::Info, text: line }
            },
            Answer::Failed(why) => {
                self.pending = None;
                Call::Log { level: Level::Warn, text: why }
            },
            Answer::Other(what) => {
                self.pending = None;
                let mut line = String::new();
                line.append("that answer was not an output: ");
                line.append(what.as_str());
                Call::Log { level: Level::Warn, text: line }
            },
        };
        proof {
            assert(self@ =~= step_deliver(old(self)@, ticket, answer@).0);
        }
        Some(call)
    }

    /// Turns a block and its output into text, and asks for it to be put on
    /// the clipboard — or says why there is nothing to put there.
    fn copy(&mut self, output: &str, waiting: &Waiting) -> (call: Call)
        ensures
            final(self)@ == (MarkdownView {
                pending: outcome(*waiting, AnswerView::Output(output@)).1,
                ..old(self)@
            }),
            Some(call@) == outcome(*waiting, AnswerView::Output(output@)).0,
    {
        let block = match &waiting.block {
            Some(block) => Some(block),
            None => None,
        };
        let text = crate::format::markdown(block, output, waiting.shape);
        if text.as_str().is_empty() {
            // A block with neither a command nor any output is what a shell
            // with no integration leaves behind, and copying an empty fence
            // would quietly replace whatever somebody had.
            self.pending = None;
            return Call::Log {
                level: Level::Info,
                text: "that block has no command and printed nothing, so there is nothing to copy".to_owned(),
            };
        }
        // Raised out of the answer to a press, which the host counts as the
        // same press: a chain is one gesture.
        self.pending = Some(Pending::Copy);
        Call::Ask(Request::Copy { text })
    }

    /// A render as the host sends it: the bytes read, and then drawn.
    ///
    /// Bytes this build cannot read are a host speaking a version this one
    /// does not, which the ABI check should already have caught: nothing is
    /// drawn and nothing is remembered.
    pub fn render_wire(&mut self, bytes: &[u8]) -> (node: Node)
        ensures
            render_from_wire(bytes@) is None ==> node == Node::Empty && final(self)@ == old(self)@,
            render_from_wire(bytes@) matches Some(render) ==> (final(self)@ == step_render(
                old(self)@,
                render,
            ) && (render.slot@ != SLOT@ ==> node == Node::Empty) && (render.slot@ == SLOT@
                ==> is_menu_for(node, worth_reporting_spec(block_of(view::subject_ref(&render.subject)))))),
    {
        match decode_render(bytes) {
            Some(render) => self.render(&render),
            None => Node::Empty,
        }
    }

    /// A press as the host sends it: the action's name as bytes.
    ///
    /// A name that is not UTF-8 is no action of this plugin's, and is answered
    /// `1` with nothing done; any other is run, and answered `0` with the call
    /// the press makes.
    pub fn run_wire(&mut self, name: &[u8]) -> (result: (i32, Option<Call>))
        ensures
            !vstd::utf8::valid_utf8(name@) ==> result.0 == 1 && result.1 is None && final(self)@
                == old(self)@,
            vstd::utf8::valid_utf8(name@) ==> result.0 == 0 && (final(self)@, call_view(result.1))
                == step_run(old(self)@, vstd::utf8::decode_utf8(name@)),
    {
        match utf8_text(name) {
            Some(action) => {
                proof {
                    vstd::utf8::encode_utf8_decode_utf8(action@);
                }
                (0, self.run(action))
            },
            None => (1, None),
        }
    }

    /// An answer as the host sends it: the ticket, and the answer as bytes.
    ///
    /// Bytes this build cannot read are answered `1` with nothing done; an
    /// answer it can read is delivered, and answered `0` with the call it
    /// makes.
    pub fn deliver_wire(&mut self, ticket: i32, bytes: &[u8]) -> (result: (i32, Option<Call>))
        ensures
            answer_from_wire(bytes@) is None ==> result.0 == 1 && result.1 is None && final(self)@
                == old(self)@,
            answer_from_wire(bytes@) matches Some(answer) ==> result.0 == 0 && (
                final(self)@,
                call_view(result.1),
            ) == step_deliver(old(self)@, ticket, answer),
    {
        match decode_answer(bytes) {
            Some(answer) => (0, self.deliver(ticket, answer)),
            None => (1, None),
        }
    }

    /// Builds against a stub host: every registration made, in order.
    pub fn build_on(&mut self, host: &mut Stub)
        requires
            old(host)@.tickets < i32::MAX,
        ensures
            final(self)@ == step_build().0,
            final(host)@ == old(host)@.after(step_build().1[0]).after(step_build().1[1]).after(
                step_build().1[2],
            ),
    {
        let calls = self.build();
        proof {
            let made = calls@.map_values(|call: Call| call@);
            assert(made.len() == 3);
            assert(made[0] == calls@[0]@ && made[1] == calls@[1]@ && made[2] == calls@[2]@);
            assert(step_build().1[0] == CallView::Contribute(SLOT@, ENTRY@, ORDER));
            assert(step_build().1[1] == CallView::RegisterAction(FENCED@, None));
            assert(step_build().1[2] == CallView::RegisterAction(REPORT@, None));
        }
        sys::perform(host, &calls[0]);
        sys::perform(host, &calls[1]);
        sys::perform(host, &calls[2]);
    }

    /// A press against a stub host: the call made, and the ticket it got
    /// handed back.
    pub fn run_on(&mut self, host: &mut Stub, action: &str)
        requires
            old(host)@.tickets < i32::MAX,
        ensures
            final(host)@ == host_after(old(host)@, step_run(old(self)@, action@).1),
            final(self)@ == step_asked(
                step_run(old(self)@, action@).0,
                ticket_after(old(host)@, step_run(old(self)@, action@).1),
            ),
    {
        let call = self.run(action);
        let ticket = match &call {
            Some(call) => sys::perform(host, call),
            None => None,
        };
        self.asked(ticket);
    }

    /// An answer against a stub host: whatever it makes the plugin call, made,
    /// and the ticket that got handed back.
    pub fn deliver_on(&mut self, host: &mut Stub, ticket: i32, answer: Answer)
        requires
            old(host)@.tickets < i32::MAX,
        ensures
            final(host)@ == host_after(old(host)@, step_deliver(old(self)@, ticket, answer@).1),
            final(self)@ == step_asked(
                step_deliver(old(self)@, ticket, answer@).0,
                ticket_after(old(host)@, step_deliver(old(self)@, ticket, answer@).1),
            ),
    {
        let call = self.deliver(ticket, answer);
        let ticket = match &call {
            Some(call) => sys::perform(host, call),
            None => None,
        };
        self.asked(ticket);
    }
}

/// The two actions have different names, so each press is one of them.
proof fn proof_names_differ()
    ensures
        FENCED@ != REPORT@,
        shape_for(FENCED@) == Some(Shape::Fenced),
        shape_for(REPORT@) == Some(Shape::Report),
{
    reveal_strlit("markdown");
    reveal_strlit("report");
    assert(FENCED@.len() != REPORT@.len());
}

/// Nothing waits on `ticket` exactly when no entry carries it.
proof fn lemma_absent(waiting: Seq<(i32, Waiting)>, ticket: i32)
    ensures
        first_index(waiting, ticket) is None <==> forall|j: int|
            0 <= j < waiting.len() ==> #[trigger] waiting[j].0 != ticket,
    decreases waiting.len(),
{
    if waiting.len() > 0 {
        let rest = waiting.drop_first();
        lemma_absent(rest, ticket);
        if forall|j: int| 0 <= j < waiting.len() ==> #[trigger] waiting[j].0 != ticket {
            assert forall|j: int| 0 <= j < rest.len() implies #[trigger] rest[j].0 != ticket by {
                assert(rest[j] == waiting[j + 1]);
            }
        }
        if first_index(waiting, ticket) is None {
            assert forall|j: int| 0 <= j < waiting.len() implies #[trigger] waiting[j].0
                != ticket by {
                if j > 0 {
                    assert(rest[j - 1] == waiting[j]);
                }
            }
        }
    }
}

/// Dropping a ticket nothing carries leaves the list as it was.
proof fn lemma_without_absent(waiting: Seq<(i32, Waiting)>, ticket: i32)
    requires
        forall|j: int| 0 <= j < waiting.len() ==> #[trigger] waiting[j].0 != ticket,
    ensures
        without(waiting, ticket) == waiting,
    decreases waiting.len(),
{
    if waiting.len() > 0 {
        let rest = waiting.drop_last();
        assert forall|j: int| 0 <= j < rest.len() implies #[trigger] rest[j].0 != ticket by {
            assert(rest[j] == waiting[j]);
        }
        lemma_without_absent(rest, ticket);
        assert(waiting.last() == waiting[waiting.len() - 1]);
        assert(rest.push(waiting.last()) =~= waiting);
    }
}

/// A ticket just handed out for an output is the first one of its number, at
/// the end of the list.
proof fn lemma_waiting_pushed(waiting: Seq<(i32, Waiting)>, ticket: i32, w: Waiting)
    requires
        first_index(waiting, ticket) is None,
    ensures
        first_index(waiting.push((ticket, w)), ticket) == Some(waiting.len() as int),
        waiting.push((ticket, w)).remove(waiting.len() as int) == waiting,
        forall|t: int|
            0 <= t <= i32::MAX && t != ticket && first_index(waiting, t as i32) is None
                ==> #[trigger] first_index(waiting.push((ticket, w)), t as i32) is None,
{
    let pushed = waiting.push((ticket, w));
    lemma_absent(waiting, ticket);
    assert forall|j: int| 0 <= j < waiting.len() implies #[trigger] pushed[j].0 != ticket by {
        assert(pushed[j] == waiting[j]);
    }
    lemma_first_index(pushed, ticket, waiting.len() as int);
    assert(pushed.remove(waiting.len() as int) =~= waiting);
    assert forall|t: int|
        0 <= t <= i32::MAX && t != ticket && first_index(waiting, t as i32) is None
            implies #[trigger] first_index(pushed, t as i32) is None by {
        lemma_absent(waiting, t as i32);
        lemma_absent(pushed, t as i32);
        assert forall|j: int| 0 <= j < pushed.len() implies #[trigger] pushed[j].0 != t as i32 by {
            if j < waiting.len() {
                assert(pushed[j] == waiting[j]);
            }
        }
    }
}

/// A press, the ticket it is handed, and the output that comes back under that
/// ticket: what goes on the clipboard is the block the plugin was drawn for
/// when the entry was pressed, in the shape that entry copies — or, for a
/// block with neither a command nor any output, nothing, and a line saying
/// why. Whatever else was waiting is still waiting, as it was.
pub proof fn press_then_output_copies(
    m: MarkdownView,
    action: Seq<char>,
    ticket: i32,
    text: Seq<char>,
)
    requires
        shape_for(action) is Some,
        first_index(m.waiting, ticket) is None,
    ensures
        ({
            let pressed = step_asked(step_run(m, action).0, Some(ticket));
            let (answered, call) = step_deliver(pressed, ticket, AnswerView::Output(text));
            let copied = markdown_text(lent(&m.drawn_for), text, shape_for(action)->0);
            &&& answered.waiting == m.waiting
            &&& answered.drawn_for == m.drawn_for
            &&& call == if copied.len() == 0 {
                Some(CallView::Log(Level::Info, nothing_to_copy_line()))
            } else {
                Some(CallView::Ask(RequestView::Copy(copied)))
            }
        }),
{
    let w = Waiting { shape: shape_for(action)->0, block: m.drawn_for };
    lemma_waiting_pushed(m.waiting, ticket, w);
}

/// Two entries pressed in a row, one for a fence and one for a report, are
/// each answered in the shape they asked for — whichever answer comes back
/// first, and whatever ticket the first copy is handed.
pub proof fn answers_keep_their_shapes(
    m: MarkdownView,
    fence_ticket: i32,
    report_ticket: i32,
    copy_ticket: i32,
    report_output: Seq<char>,
    fence_output: Seq<char>,
)
    requires
        fence_ticket > 0,
        report_ticket > 0,
        copy_ticket > 0,
        fence_ticket != report_ticket,
        copy_ticket != fence_ticket,
        first_index(m.waiting, fence_ticket) is None,
        first_index(m.waiting, report_ticket) is None,
        first_index(m.waiting, copy_ticket) is None,
    ensures
        ({
            let one = step_asked(step_run(m, FENCED@).0, Some(fence_ticket));
            let two = step_asked(step_run(one, REPORT@).0, Some(report_ticket));
            let (three, report_call) = step_deliver(two, report_ticket, AnswerView::Output(report_output));
            let four = step_asked(three, Some(copy_ticket));
            let (five, fence_call) = step_deliver(four, fence_ticket, AnswerView::Output(fence_output));
            let report = markdown_text(lent(&m.drawn_for), report_output, Shape::Report);
            let fence = markdown_text(lent(&m.drawn_for), fence_output, Shape::Fenced);
            &&& report_call == if report.len() == 0 {
                Some(CallView::Log(Level::Info, nothing_to_copy_line()))
            } else {
                Some(CallView::Ask(RequestView::Copy(report)))
            }
            &&& fence_call == if fence.len() == 0 {
                Some(CallView::Log(Level::Info, nothing_to_copy_line()))
            } else {
                Some(CallView::Ask(RequestView::Copy(fence)))
            }
            &&& five.waiting == m.waiting
        }),
{
    let fenced_wait = Waiting { shape: Shape::Fenced, block: m.drawn_for };
    let report_wait = Waiting { shape: Shape::Report, block: m.drawn_for };
    proof_names_differ();
    let w1 = m.waiting.push((fence_ticket, fenced_wait));
    lemma_waiting_pushed(m.waiting, fence_ticket, fenced_wait);
    assert(first_index(w1, report_ticket as int as i32) is None);
    let w2 = w1.push((report_ticket, report_wait));
    lemma_waiting_pushed(w1, report_ticket, report_wait);
    lemma_absent(m.waiting, copy_ticket);
    assert forall|j: int| 0 <= j < w1.len() implies #[trigger] w1[j].0 != copy_ticket by {
        if j < m.waiting.len() {
            assert(w1[j] == m.waiting[j]);
        }
    }
    lemma_without_absent(w1, copy_ticket);
    lemma_absent(m.waiting, fence_ticket);
    assert forall|j: int| 0 <= j < m.waiting.len() implies #[trigger] w1[j].0 != fence_ticket by {
        assert(w1[j] == m.waiting[j]);
    }
    lemma_first_index(w1, fence_ticket, m.waiting.len() as int);
    assert(w1.remove(m.waiting.len() as int) =~= m.waiting);
}

/// An answer under a ticket nobody waits on — the clipboard's own answer,
/// most likely — is ignored: nothing is called, and everything that was
/// waiting still is.
pub proof fn unknown_ticket_is_ignored(m: MarkdownView, ticket: i32, answer: AnswerView)
    requires
        first_index(m.waiting, ticket) is None,
    ensures
        step_deliver(m, ticket, answer).1 is None,
        step_deliver(m, ticket, answer).0.waiting == m.waiting,
        step_deliver(m, ticket, answer).0.drawn_for == m.drawn_for,
{
}

/// A ticket is answered once: after its answer, nothing waits on it any more,
/// and a second answer under it is ignored.
pub proof fn answered_once(m: MarkdownView, ticket: i32, answer: AnswerView, again: AnswerView)
    requires
        first_index(m.waiting, ticket) is Some,
        forall|i: int, j: int|
            0 <= i < j < m.waiting.len() && #[trigger] m.waiting[i].0 == ticket ==> #[trigger] m.waiting[j].0
                != ticket,
    ensures
        first_index(step_deliver(m, ticket, answer).0.waiting, ticket) is None,
        step_deliver(step_deliver(m, ticket, answer).0, ticket, again).1 is None,
{
    let at = first_index(m.waiting, ticket)->0;
    lemma_first_index_found(m.waiting, ticket);
    let rest = m.waiting.remove(at);
    assert forall|j: int| 0 <= j < rest.len() implies #[trigger] rest[j].0 != ticket by {
        if j < at {
            assert(rest[j] == m.waiting[j]);
        } else {
            assert(rest[j] == m.waiting[j + 1]);
        }
    }
    lemma_absent(rest, ticket);
}

/// Where [`first_index`] points, there is the ticket, and nowhere before it.
proof fn lemma_first_index_found(waiting: Seq<(i32, Waiting)>, ticket: i32)
    requires
        first_index(waiting, ticket) is Some,
    ensures
        0 <= first_index(waiting, ticket)->0 < waiting.len(),
        waiting[first_index(waiting, ticket)->0].0 == ticket,
        forall|j: int| 0 <= j < first_index(waiting, ticket)->0 ==> #[trigger] waiting[j].0 != ticket,
    decreases waiting.len(),
{
    if waiting[0].0 != ticket {
        let rest = waiting.drop_first();
        lemma_first_index_found(rest, ticket);
        assert forall|j: int| 0 <= j < first_index(waiting, ticket)->0 implies #[trigger] waiting[j].0
            != ticket by {
            if j > 0 {
                assert(rest[j - 1] == waiting[j]);
            }
        }
    }
}

/// Dropping a ticket leaves nothing carrying it.
proof fn lemma_without_drops(waiting: Seq<(i32, Waiting)>, ticket: i32)
    ensures
        forall|j: int|
            0 <= j < without(waiting, ticket).len() ==> #[trigger] without(waiting, ticket)[j].0
                != ticket,
    decreases waiting.len(),
{
    if waiting.len() > 0 {
        let rest = without(waiting.drop_last(), ticket);
        lemma_without_drops(waiting.drop_last(), ticket);
        if waiting.last().0 != ticket {
            assert forall|j: int| 0 <= j < rest.push(waiting.last()).len() implies #[trigger] rest.push(
                waiting.last(),
            )[j].0 != ticket by {
                if j < rest.len() {
                    assert(rest.push(waiting.last())[j] == rest[j]);
                }
            }
        }
    }
}

/// The ticket a copy is handed is remembered only so that its answer is not
/// mistaken for an output: once it is handed over, nothing waits on it.
pub proof fn a_copy_ticket_waits_for_nothing(m: MarkdownView, ticket: i32)
    requires
        m.pending == Some(Pending::Copy),
    ensures
        first_index(step_asked(m, Some(ticket)).waiting, ticket) is None,
{
    lemma_without_drops(m.waiting, ticket);
    lemma_absent(without(m.waiting, ticket), ticket);
}

/// Renders one after another, each as [`step_render`] says.
pub open spec fn after_renders(m: MarkdownView, renders: Seq<Render>) -> MarkdownView
    decreases renders.len(),
{
    if renders.len() == 0 {
        m
    } else {
        after_renders(step_render(m, renders[0]), renders.drop_first())
    }
}

/// Renders change which block the plugin is drawn for and nothing else.
proof fn lemma_renders_keep_waiting(m: MarkdownView, renders: Seq<Render>)
    ensures
        after_renders(m, renders).waiting == m.waiting,
        after_renders(m, renders).pending == m.pending,
    decreases renders.len(),
{
    if renders.len() > 0 {
        lemma_renders_keep_waiting(step_render(m, renders[0]), renders.drop_first());
    }
}

/// What goes on the clipboard is about the block the plugin was drawn for
/// when the entry was pressed — not the one it is drawn for when the answer
/// lands, however many renders came in between, for this block or for
/// others.
pub proof fn copy_is_of_the_block_drawn_at_the_press(
    m: MarkdownView,
    action: Seq<char>,
    ticket: i32,
    renders: Seq<Render>,
    text: Seq<char>,
)
    requires
        shape_for(action) is Some,
        first_index(m.waiting, ticket) is None,
    ensures
        ({
            let pressed = step_asked(step_run(m, action).0, Some(ticket));
            let (answered, call) = step_deliver(
                after_renders(pressed, renders),
                ticket,
                AnswerView::Output(text),
            );
            let copied = markdown_text(lent(&m.drawn_for), text, shape_for(action)->0);
            &&& answered.waiting == m.waiting
            &&& call == if copied.len() == 0 {
                Some(CallView::Log(Level::Info, nothing_to_copy_line()))
            } else {
                Some(CallView::Ask(RequestView::Copy(copied)))
            }
        }),
{
    let w = Waiting { shape: shape_for(action)->0, block: m.drawn_for };
    lemma_waiting_pushed(m.waiting, ticket, w);
    let pressed = step_asked(step_run(m, action).0, Some(ticket));
    lemma_renders_keep_waiting(pressed, renders);
}

/// An output under a ticket is turned into the text that ticket's own press
/// asked for — in its shape, about the block it was pressed on — whatever
/// else is waiting and in whatever order answers come back. The first entry
/// carrying the ticket, and only it, stops waiting.
pub proof fn an_output_is_copied_as_its_own_ticket_asked(
    m: MarkdownView,
    ticket: i32,
    at: int,
    output: Seq<char>,
)
    requires
        0 <= at < m.waiting.len(),
        m.waiting[at].0 == ticket,
        forall|j: int| 0 <= j < at ==> #[trigger] m.waiting[j].0 != ticket,
    ensures
        ({
            let asked = m.waiting[at].1;
            let copied = markdown_text(lent(&asked.block), output, asked.shape);
            let (answered, call) = step_deliver(m, ticket, AnswerView::Output(output));
            &&& answered.waiting == m.waiting.remove(at)
            &&& answered.drawn_for == m.drawn_for
            &&& call == if copied.len() == 0 {
                Some(CallView::Log(Level::Info, nothing_to_copy_line()))
            } else {
                Some(CallView::Ask(RequestView::Copy(copied)))
            }
            &&& answered.pending == if copied.len() == 0 {
                None
            } else {
                Some(Pending::Copy)
            }
        }),
{
    lemma_first_index(m.waiting, ticket, at);
}

/// A render of the plugin's slot about a block remembers that very block,
/// field for field, and a press after it copies that block: its command, its
/// status and where it ran, exactly as the render said them.
pub proof fn a_render_remembers_its_block(
    m: MarkdownView,
    render: Render,
    facts: BlockFacts,
    action: Seq<char>,
    ticket: i32,
    output: Seq<char>,
)
    requires
        render.slot@ == SLOT@,
        render.subject == Some(crate::block::Subject::Block(facts)),
        shape_for(action) is Some,
        first_index(m.waiting, ticket) is None,
    ensures
        step_render(m, render).drawn_for == Some(facts),
        step_render(m, render).waiting == m.waiting,
        step_render(m, render).pending == m.pending,
        ({
            let drawn = step_render(m, render);
            let pressed = step_asked(step_run(drawn, action).0, Some(ticket));
            let (_, call) = step_deliver(pressed, ticket, AnswerView::Output(output));
            let copied = markdown_text(Some(&facts), output, shape_for(action)->0);
            call == if copied.len() == 0 {
                Some(CallView::Log(Level::Info, nothing_to_copy_line()))
            } else {
                Some(CallView::Ask(RequestView::Copy(copied)))
            }
        }),
{
    let drawn = step_render(m, render);
    assert(drawn.drawn_for == Some(facts));
    press_then_output_copies(drawn, action, ticket, output);
    assert(lent(&drawn.drawn_for) == Some(&facts));
}

/// One thing that can happen to the plugin: a build, a render, a press of an
/// action by name, the host's reply with a ticket to the request just made,
/// or an answer under a ticket.
pub enum Event {
    Build,
    Render(Render),
    Press(Seq<char>),
    Ticket(Option<i32>),
    Answer(i32, AnswerView),
}

/// The calls an optional call makes.
pub open spec fn calls_of(call: Option<CallView>) -> Seq<CallView> {
    match call {
        Some(call) => seq![call],
        None => Seq::empty(),
    }
}

/// What one event does: what the plugin knows next, and the calls it makes,
/// as the step for that event says.
pub open spec fn step(m: MarkdownView, event: Event) -> (MarkdownView, Seq<CallView>) {
    match event {
        Event::Build => step_build(),
        Event::Render(render) => (step_render(m, render), Seq::empty()),
        Event::Press(action) => (step_run(m, action).0, calls_of(step_run(m, action).1)),
        Event::Ticket(ticket) => (step_asked(m, ticket), Seq::empty()),
        Event::Answer(ticket, answer) => (
            step_deliver(m, ticket, answer).0,
            calls_of(step_deliver(m, ticket, answer).1),
        ),
    }
}

/// What the plugin knows after `events`, one after another.
pub open spec fn after(m: MarkdownView, events: Seq<Event>) -> MarkdownView
    decreases events.len(),
{
    if events.len() == 0 {
        m
    } else {
        after(step(m, events[0]).0, events.drop_first())
    }
}

/// Whether every request `event` makes of the host in state `m` is owed: the
/// output only from a press of one of the two actions, exactly once per such
/// press; a copy only from an output answered under a ticket that was waited
/// on. There is no other request: nothing asks to read the clipboard.
pub open spec fn requests_are_owed(m: MarkdownView, event: Event) -> bool {
    let calls = step(m, event).1;
    &&& forall|j: int|
        0 <= j < calls.len() ==> match #[trigger] calls[j] {
            CallView::Ask(RequestView::Output) => match event {
                Event::Press(action) => shape_for(action) is Some,
                _ => false,
            },
            CallView::Ask(RequestView::Copy(_)) => match event {
                Event::Answer(ticket, AnswerView::Output(_)) => first_index(m.waiting, ticket) is Some,
                _ => false,
            },
            _ => true,
        }
    &&& match event {
        Event::Press(action) => (shape_for(action) is Some) ==> calls == seq![
            CallView::Ask(RequestView::Output),
        ],
        _ => true,
    }
}

/// Every event asks only for what it is owed.
proof fn lemma_step_requests(m: MarkdownView, event: Event)
    ensures
        requests_are_owed(m, event),
{
    let calls = step(m, event).1;
    match event {
        Event::Build => {
            assert forall|j: int| 0 <= j < calls.len() implies !(#[trigger] calls[j] is Ask) by {
                assert(calls[0] == CallView::Contribute(SLOT@, ENTRY@, ORDER));
                assert(calls[1] == CallView::RegisterAction(FENCED@, None));
                assert(calls[2] == CallView::RegisterAction(REPORT@, None));
            }
        },
        _ => {},
    }
}

/// Over any run of builds, renders, presses, tickets and answers, from any
/// state: the output is asked for only by a press of one of the two actions,
/// once per press; a copy only by an output answered under a ticket that was
/// waited on; builds, renders and tickets ask for nothing; and nothing asks to
/// read the clipboard.
pub proof fn requests_come_only_from_presses_and_outputs(m: MarkdownView, events: Seq<Event>)
    ensures
        forall|i: int|
            0 <= i < events.len() ==> #[trigger] requests_are_owed(
                after(m, events.take(i)),
                events[i],
            ),
{
    assert forall|i: int| 0 <= i < events.len() implies #[trigger] requests_are_owed(
        after(m, events.take(i)),
        events[i],
    ) by {
        lemma_step_requests(after(m, events.take(i)), events[i]);
    }
}

} // verus!
