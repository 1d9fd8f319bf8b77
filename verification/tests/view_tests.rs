//! What is offered, for the blocks where one of the two entries would say
//! nothing.

use markdown::block::{BlockFacts, Place, Ran, Subject};
use markdown::state::{FENCED, REPORT};
use markdown::view::{menu, worth_reporting, Node};

fn items(subject: Option<&Subject>) -> Vec<String> {
    match menu(subject) {
        Node::Menu { items, .. } => items.into_iter().map(|item| item.label).collect(),
        other => panic!("a menu group is a menu: {other:?}"),
    }
}

fn block(ran: Option<Ran>, place: Option<Place>) -> Subject {
    Subject::Block(BlockFacts { key: 7, ran, place })
}

#[test]
fn a_command_with_a_status_or_a_place_is_worth_a_report() {
    let ended = block(
        Some(Ran {
            command: Some(String::from("cargo test")),
            exit: Some(101),
        }),
        None,
    );

    assert_eq!(
        items(Some(&ended)),
        vec![
            String::from("Copy as Markdown"),
            String::from("Copy as a report")
        ]
    );
}

#[test]
fn a_command_that_reported_nothing_is_offered_the_fence_alone() {
    let bare = block(
        Some(Ran {
            command: Some(String::from("uname -a")),
            exit: None,
        }),
        None,
    );

    assert_eq!(items(Some(&bare)), vec![String::from("Copy as Markdown")]);
}

#[test]
fn a_plugin_that_was_told_nothing_still_offers_both() {
    assert_eq!(
        items(Some(&block(None, None))).len(),
        2,
        "a plugin nobody has answered for lost half its menu"
    );
    assert_eq!(items(None).len(), 2, "and so did one drawn for nothing");
}

#[test]
fn a_place_alone_is_worth_a_report_and_a_tab_is_drawn_as_nothing_known() {
    let placed = block(
        Some(Ran {
            command: Some(String::from("ls")),
            exit: None,
        }),
        Some(Place {
            directory: String::from("/tmp"),
            branch: None,
            worktree: true,
        }),
    );
    assert_eq!(items(Some(&placed)).len(), 2);
    assert_eq!(items(Some(&Subject::Tab)).len(), 2);
    assert!(worth_reporting(None));
}

#[test]
fn each_entry_runs_its_own_action_and_is_handed_nothing() {
    match menu(None) {
        Node::Menu { items } => {
            assert_eq!(items[0].action, FENCED);
            assert_eq!(items[1].action, REPORT);
            assert!(items.iter().all(|item| item.argument.is_empty()));
        }
        other => panic!("a menu group is a menu: {other:?}"),
    }
}
