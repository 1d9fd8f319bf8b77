//! The exports' bytes: what the host sends is read the way its own decoder
//! reads it, and what goes back is what its own encoder writes.

use crook_plugin_api as api;

use markdown::manifest;
use markdown::state::{Markdown, FENCED, REPORT, SLOT};
use markdown::sys::{Answer, Call, Level, Request};
use markdown::view::{menu, MenuItem, Node};
use markdown::wire::{manifest_bytes, node_bytes};

/// A render of this plugin's group, in the host's words, about a command that
/// exited with `exit`.
fn host_render(slot: &str, exit: Option<i32>) -> api::Render {
    api::Render {
        slot: String::from(slot),
        entry: String::from("markdown"),
        subject: Some(api::Subject::Block(api::BlockFacts {
            key: 7,
            ran: Some(api::Ran {
                command: Some(String::from("cargo test")),
                exit,
            }),
            place: None,
        })),
    }
}

/// A plugin that has been drawn for `cargo test` and had "Copy as Markdown"
/// pressed, with the request given ticket 1.
fn pressed() -> Markdown {
    let mut plugin = Markdown::new();
    let bytes = api::to_bytes(&host_render(SLOT, Some(0))).unwrap();
    plugin.render_wire(&bytes);
    let (status, call) = plugin.run_wire(FENCED.as_bytes());
    assert_eq!(status, 0);
    assert_eq!(call, Some(Call::Ask(Request::Output)));
    plugin.asked(Some(1));
    plugin
}

#[test]
fn nothing_drawn_is_the_hosts_empty_node() {
    let bytes = node_bytes(&Node::Empty);
    assert_eq!(bytes, vec![0]);
    assert_eq!(bytes, api::to_bytes(&api::Node::Empty).unwrap());
}

#[test]
fn the_group_goes_over_as_the_hosts_menu_on_nothing() {
    let bytes = node_bytes(&menu(None));
    let host = api::Node::Menu {
        content: Box::new(api::Node::Empty),
        items: vec![
            api::MenuItem {
                label: String::from("Copy as Markdown"),
                action: String::from(FENCED),
                argument: String::new(),
            },
            api::MenuItem {
                label: String::from("Copy as a report"),
                action: String::from(REPORT),
                argument: String::new(),
            },
        ],
    };
    assert_eq!(bytes, api::to_bytes(&host).unwrap());
    assert_eq!(&bytes[..4], &[18, 0, 2, 16]);
    assert_eq!(api::from_bytes::<api::Node>(&bytes).unwrap(), host);
}

#[test]
fn a_long_label_has_its_length_in_two_bytes() {
    let label = "é".repeat(100);
    let node = Node::Menu {
        items: vec![MenuItem {
            label: label.clone(),
            action: String::from(FENCED),
            argument: String::new(),
        }],
    };
    let bytes = node_bytes(&node);
    assert_eq!(&bytes[..5], &[18, 0, 1, 0xc8, 0x01]);
    assert_eq!(bytes.len(), 5 + 200 + 1 + FENCED.len() + 1);
}

#[test]
fn the_manifest_goes_over_as_the_hosts_manifest() {
    let ours = manifest("0.2.1");
    let bytes = manifest_bytes(&ours);
    let host = api::Manifest {
        abi: api::ABI_VERSION,
        id: String::from("theguriev/markdown"),
        name: String::from("Markdown"),
        description: String::from("A command and its output, as Markdown ready to paste."),
        version: String::from("0.2.1"),
        capabilities: vec![
            api::Capability::ReadBlock,
            api::Capability::ReadWorkingDirectory,
            api::Capability::Clipboard,
        ],
    };
    assert_eq!(bytes, api::to_bytes(&host).unwrap());
    assert_eq!(&bytes[bytes.len() - 4..], &[3, 13, 2, 4]);
    assert_eq!(api::from_bytes::<api::Manifest>(&bytes).unwrap(), host);
}

#[test]
fn a_render_read_off_the_wire_draws_what_the_render_says() {
    let mut plugin = Markdown::new();
    let reported = api::to_bytes(&host_render(SLOT, Some(1))).unwrap();
    match plugin.render_wire(&reported) {
        Node::Menu { items } => assert_eq!(items.len(), 2),
        other => panic!("the group is a menu: {other:?}"),
    }

    let silent = api::to_bytes(&host_render(SLOT, None)).unwrap();
    match plugin.render_wire(&silent) {
        Node::Menu { items } => assert_eq!(items.len(), 1, "nothing a report would add"),
        other => panic!("the group is a menu: {other:?}"),
    }

    let elsewhere = api::to_bytes(&host_render("header.right", Some(1))).unwrap();
    assert_eq!(plugin.render_wire(&elsewhere), Node::Empty);
}

#[test]
fn a_render_it_cannot_read_draws_nothing_and_forgets_nothing() {
    let mut plugin = Markdown::new();
    let bytes = api::to_bytes(&host_render(SLOT, Some(0))).unwrap();
    plugin.render_wire(&bytes);

    assert_eq!(plugin.render_wire(&[0xff, 0xff, 0xff]), Node::Empty);
    assert_eq!(plugin.render_wire(&[]), Node::Empty);

    // Still drawn for `cargo test`: the press copies it.
    plugin.run_wire(FENCED.as_bytes());
    plugin.asked(Some(1));
    let answer = api::to_bytes(&api::Answer::Output { text: String::from("ok") }).unwrap();
    let (status, call) = plugin.deliver_wire(1, &answer);
    assert_eq!(status, 0);
    match call {
        Some(Call::Ask(Request::Copy { text })) => assert!(text.contains("cargo test")),
        other => panic!("the output is asked to be copied: {other:?}"),
    }
}

#[test]
fn a_name_that_is_not_utf8_is_answered_one_and_runs_nothing() {
    let mut plugin = Markdown::new();
    assert_eq!(plugin.run_wire(&[0x6d, 0xff]), (1, None));
    assert_eq!(plugin.run_wire(&[0xc0, 0x80]), (1, None), "an overlong NUL is not UTF-8");
}

#[test]
fn a_name_off_the_wire_runs_the_action_it_names() {
    let mut plugin = Markdown::new();
    assert_eq!(
        plugin.run_wire(REPORT.as_bytes()),
        (0, Some(Call::Ask(Request::Output)))
    );
    match plugin.run_wire("nöpe".as_bytes()) {
        (0, Some(Call::Log { level, text })) => {
            assert_eq!(level, Level::Warn);
            assert_eq!(text, "nothing here is called \"nöpe\"");
        }
        other => panic!("an unknown action is said to be one: {other:?}"),
    }
}

#[test]
fn an_answer_off_the_wire_is_delivered_as_the_answer_itself() {
    let text = String::from("test result: ok. 3 passed");
    let bytes = api::to_bytes(&api::Answer::Output { text: text.clone() }).unwrap();

    let mut by_wire = pressed();
    let mut by_value = pressed();
    let (status, call) = by_wire.deliver_wire(1, &bytes);
    assert_eq!(status, 0);
    assert_eq!(call, by_value.deliver(1, Answer::Output { text }));
    assert!(matches!(call, Some(Call::Ask(Request::Copy { .. }))));
}

#[test]
fn a_refusal_off_the_wire_says_what_to_allow() {
    let bytes = api::to_bytes(&api::Answer::Refused(String::from(
        "Read the command you run it on, and what it printed",
    )))
    .unwrap();
    let mut plugin = pressed();
    match plugin.deliver_wire(1, &bytes) {
        (0, Some(Call::Log { level, text })) => {
            assert_eq!(level, Level::Info);
            assert!(text.starts_with("not allowed to: Read the command"));
        }
        other => panic!("a refusal is said: {other:?}"),
    }
}

#[test]
fn an_answer_it_has_no_name_for_is_named_as_debug_writes_it() {
    let bytes = api::to_bytes(&api::Answer::Done).unwrap();
    let mut plugin = pressed();
    assert_eq!(
        plugin.deliver_wire(1, &bytes),
        (
            0,
            Some(Call::Log {
                level: Level::Warn,
                text: String::from("that answer was not an output: Done"),
            })
        )
    );
}

#[test]
fn an_answer_it_cannot_read_is_answered_one_and_still_waited_on() {
    let mut plugin = pressed();
    assert_eq!(plugin.deliver_wire(1, &[0xff, 0xff]), (1, None));

    let bytes = api::to_bytes(&api::Answer::Output { text: String::from("ok") }).unwrap();
    let (status, call) = plugin.deliver_wire(1, &bytes);
    assert_eq!(status, 0);
    assert!(matches!(call, Some(Call::Ask(Request::Copy { .. }))));
}
