//! What the plugin asks to have drawn, which is two labels and nothing else.
//!
//! No padding, no type size, no colour for the row under the pointer: an entry
//! is a [`MenuItem`] with a label and the action it runs, and Crook draws it as
//! a row of *its* menu.
//!
//! # What the block it is drawn for changes
//!
//! An entry that copies a *report* says nothing worth pasting for a command
//! whose shell never reported a status or a place, so on one of those it is
//! not offered. A plugin that was never granted a sight of the command draws
//! both entries all the same: it will be refused when it asks, and being
//! refused is a sentence a person can act on, where a menu that quietly lost
//! its rows is not.
use vstd::prelude::*;

use crate::block::{BlockFacts, Subject};
use crate::format::{exit_of, place_of, place_words, sentence, status_words};
use crate::state::{FENCED, REPORT};

verus! {

/// One entry of a menu.
#[derive(Clone, Debug, Default, PartialEq, Eq)]
pub struct MenuItem {
    /// What it says.
    pub label: String,
    /// The action it runs, without the plugin's own prefix.
    pub action: String,
    /// What that action is handed, or empty for nothing.
    pub argument: String,
}

/// Something to draw, described rather than painted: the part of the host's
/// vocabulary this plugin uses.
#[derive(Debug, PartialEq)]
pub enum Node {
    /// Nothing at all.
    Empty,
    /// A menu with nothing drawn under it, which is what a group in a menu
    /// slot is: the menu *is* the slot, so there is nothing to hang it off,
    /// and the host draws the items as rows of its own menu.
    Menu {
        /// What the menu offers, in order.
        items: Vec<MenuItem>,
    },
}

/// The label of the entry that copies a fence.
pub open spec fn fenced_label() -> Seq<char> {
    "Copy as Markdown"@
}

/// The label of the entry that copies a report.
pub open spec fn report_label() -> Seq<char> {
    "Copy as a report"@
}

/// Whether `item` says `label`, runs `action` and is handed nothing.
pub open spec fn item_is(item: MenuItem, label: Seq<char>, action: Seq<char>) -> bool {
    &&& item.label@ == label
    &&& item.action@ == action
    &&& item.argument@.len() == 0
}

/// The subject an optional subject lends.
pub open spec fn subject_ref(subject: &Option<Subject>) -> Option<&Subject> {
    match subject {
        Some(subject) => Some(subject),
        None => None,
    }
}

/// The block a subject is about, when it is about one.
pub open spec fn block_of(subject: Option<&Subject>) -> Option<&BlockFacts> {
    match subject {
        Some(Subject::Block(facts)) => Some(facts),
        _ => None,
    }
}

/// Whether a report would say anything a fence does not.
///
/// Drawn for nothing at all, or told nothing of what ran: yes, because a
/// refusal says what to allow. Told what ran: exactly when the shell reported
/// a status or a place.
pub open spec fn worth_reporting_spec(block: Option<&BlockFacts>) -> bool {
    match block {
        None => true,
        Some(block) => match block.ran {
            Some(ran) => ran.exit is Some || block.place is Some,
            None => true,
        },
    }
}

/// Whether `node` is the group this plugin puts in a block's menu for a block
/// that is, or is not, worth a report.
pub open spec fn is_menu_for(node: Node, reporting: bool) -> bool {
    match node {
        Node::Menu { items } => {
            &&& items@.len() == if reporting {
                2int
            } else {
                1int
            }
            &&& item_is(items@[0], fenced_label(), FENCED@)
            &&& reporting ==> item_is(items@[1], report_label(), REPORT@)
        },
        Node::Empty => false,
    }
}

/// The group this plugin puts in a block's menu: "Copy as Markdown" always,
/// and "Copy as a report" when a report would say more than a fence.
pub fn menu(subject: Option<&Subject>) -> (node: Node)
    ensures
        is_menu_for(node, worth_reporting_spec(block_of(subject))),
{
    let block = match subject {
        Some(Subject::Block(facts)) => Some(facts),
        // A subject this build does not draw, or none at all: drawn as though
        // nothing were known.
        _ => None,
    };
    let mut items: Vec<MenuItem> = Vec::new();
    items.push(
        MenuItem {
            label: "Copy as Markdown".to_owned(),
            action: FENCED.to_owned(),
            argument: String::new(),
        },
    );
    if worth_reporting(block) {
        items.push(
            MenuItem {
                label: "Copy as a report".to_owned(),
                action: REPORT.to_owned(),
                argument: String::new(),
            },
        );
    }
    Node::Menu { items }
}

/// Whether a report would say anything a fence does not.
pub fn worth_reporting(block: Option<&BlockFacts>) -> (worth: bool)
    ensures
        worth == worth_reporting_spec(block),
{
    match block {
        None => true,
        Some(block) => match &block.ran {
            Some(ran) => ran.exit.is_some() || block.place.is_some(),
            None => true,
        },
    }
}

/// A block whose shell was heard from is offered a report exactly when the
/// report would say a sentence — a status or a place — that a fence does not.
pub proof fn report_offered_when_it_says_more(block: BlockFacts)
    requires
        block.ran is Some,
    ensures
        worth_reporting_spec(Some(&block)) <==> sentence(Some(&block)).len() > 0,
{
    reveal_strlit("Succeeded");
    reveal_strlit("Exited ");
    reveal_strlit("Ran in `");
    reveal_strlit(" in `");
    let status = status_words(exit_of(Some(&block)));
    let said = status + place_words(status, place_of(Some(&block)));
    if exit_of(Some(&block)) is Some {
        assert(status.len() > 0);
    }
    if place_of(Some(&block)) is Some {
        assert(place_words(status, place_of(Some(&block))).len() > 0);
    }
}

/// A plugin not yet granted a sight of the command is offered both entries,
/// whatever it was told of where the command ran: the report is not hidden
/// from it, because pressing it earns a refusal that says what to allow.
pub proof fn both_entries_for_a_command_not_seen(block: BlockFacts, node: Node)
    requires
        block.ran is None,
        is_menu_for(node, worth_reporting_spec(block_of(Some(&Subject::Block(block))))),
    ensures
        worth_reporting_spec(Some(&block)),
        node matches Node::Menu { items } && items@.len() == 2 && items@[0].action@ == FENCED@
            && items@[1].label@ == "Copy as a report"@ && items@[1].action@ == REPORT@,
{
}

} // verus!
