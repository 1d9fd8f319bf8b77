//! The loop, with the host stubbed out: an entry is pressed, the output is
//! asked for, and what comes back is asked to be put on the clipboard.

use markdown::block::{BlockFacts, Place, Ran, Render, Subject};
use markdown::state::{Markdown, FENCED, ORDER, REPORT, SLOT};
use markdown::sys::stub::Stub;
use markdown::sys::{Answer, Call, Level, Request};
use markdown::view::Node;

/// A render of this plugin's group, about one command.
fn render(command: &str) -> Render {
    Render {
        slot: String::from(SLOT),
        entry: String::from("markdown"),
        subject: Some(Subject::Block(BlockFacts {
            key: 7,
            ran: Some(Ran {
                command: Some(command.to_owned()),
                exit: Some(0),
            }),
            place: Some(Place {
                directory: String::from("/home/eugen/Work/crook"),
                branch: Some(String::from("main")),
                worktree: false,
            }),
        })),
    }
}

/// A plugin that has built and been drawn once, with everything the build
/// asked for forgotten.
fn drawn(host: &mut Stub, command: &str) -> Markdown {
    host.forget();
    let mut plugin = Markdown::new();
    plugin.build_on(host);
    plugin.render(&render(command));
    let _ = host.taken();
    plugin
}

/// What a request came out as, in order.
fn asked(host: &mut Stub) -> Vec<Request> {
    host.taken()
        .requests
        .into_iter()
        .map(|(_, request)| request)
        .collect()
}

#[test]
fn building_puts_one_group_in_the_menu_and_offers_two_actions() {
    let mut host = Stub::new();
    host.forget();
    let mut plugin = Markdown::new();
    plugin.build_on(&mut host);

    let asked = host.taken();
    assert_eq!(
        asked.contributions,
        vec![(String::from(SLOT), String::from("markdown"), ORDER)]
    );
    assert_eq!(
        asked.actions,
        vec![
            (String::from(FENCED), String::new()),
            (String::from(REPORT), String::new()),
        ],
        "neither is offered to a palette: an entry about a block is about nothing there"
    );
}

#[test]
fn a_render_about_no_block_at_all_still_draws_the_group() {
    let mut host = Stub::new();
    host.forget();
    let mut plugin = Markdown::new();
    plugin.build_on(&mut host);

    let drawn = plugin.render(&Render {
        slot: String::from(SLOT),
        entry: String::from("markdown"),
        subject: None,
    });

    assert_ne!(drawn, Node::Empty);
}

#[test]
fn pressing_an_entry_asks_what_it_printed_and_then_asks_for_the_clipboard() {
    let mut host = Stub::new();
    let mut plugin = drawn(&mut host, "cargo test");

    plugin.run_on(&mut host, FENCED);
    let (ticket, request) = host.last_ticket().expect("a ticket was handed out");
    assert_eq!(request, Request::Output, "it asked for something else");
    let _ = host.taken();

    plugin.deliver_on(
        &mut host,
        ticket,
        Answer::Output {
            text: String::from("ok"),
        },
    );
    assert_eq!(
        asked(&mut host),
        vec![Request::Copy {
            text: String::from("```console\n$ cargo test\nok\n```\n"),
        }],
        "the command it was drawn for is the command it copied"
    );
}

#[test]
fn two_entries_pressed_in_a_row_are_answered_as_the_shapes_they_asked_for() {
    let mut host = Stub::new();
    let mut plugin = drawn(&mut host, "cargo test");

    plugin.run_on(&mut host, FENCED);
    let (fenced_ticket, _) = host.last_ticket().expect("a ticket");
    plugin.run_on(&mut host, REPORT);
    let (report_ticket, _) = host.last_ticket().expect("a ticket");
    let _ = host.taken();

    plugin.deliver_on(
        &mut host,
        report_ticket,
        Answer::Output {
            text: String::from("ok"),
        },
    );
    plugin.deliver_on(
        &mut host,
        fenced_ticket,
        Answer::Output {
            text: String::from("ok"),
        },
    );

    let copied: Vec<String> = host
        .taken()
        .requests
        .into_iter()
        .filter_map(|(_, request)| match request {
            Request::Copy { text } => Some(text),
            _ => None,
        })
        .collect();
    assert!(copied[0].starts_with("### `cargo test`"), "{copied:?}");
    assert!(copied[1].starts_with("```console"), "{copied:?}");
}

#[test]
fn a_refusal_says_what_to_allow_rather_than_that_something_went_wrong() {
    let mut host = Stub::new();
    let mut plugin = drawn(&mut host, "cargo test");

    plugin.run_on(&mut host, FENCED);
    let (ticket, _) = host.last_ticket().expect("a ticket");
    let _ = host.taken();
    plugin.deliver_on(
        &mut host,
        ticket,
        Answer::Refused(String::from(
            "Read the command you run it on, and what it printed",
        )),
    );

    let asked = host.taken();
    assert!(asked.requests.is_empty(), "it asked for something anyway");
    assert!(
        asked.logs[0]
            .1
            .contains("Read the command you run it on, and what it printed"),
        "{:?}",
        asked.logs
    );
    assert!(asked.logs[0].1.contains("Plugins page"), "{:?}", asked.logs);
}

#[test]
fn a_block_with_nothing_in_it_replaces_nobody_s_clipboard() {
    let mut host = Stub::new();
    host.forget();
    let mut plugin = Markdown::new();
    plugin.build_on(&mut host);
    // Drawn for a block nothing is known about, and it printed nothing either.
    plugin.render(&Render {
        slot: String::from(SLOT),
        entry: String::from("markdown"),
        subject: None,
    });
    let _ = host.taken();

    plugin.run_on(&mut host, FENCED);
    let (ticket, _) = host.last_ticket().expect("a ticket");
    let _ = host.taken();
    plugin.deliver_on(
        &mut host,
        ticket,
        Answer::Output {
            text: String::from("   "),
        },
    );

    let asked = host.taken();
    assert!(
        asked.requests.is_empty(),
        "an empty fence went on the clipboard"
    );
    assert!(!asked.logs.is_empty(), "and nothing said why");
}

#[test]
fn an_answer_to_a_ticket_nobody_is_waiting_on_is_ignored() {
    let mut host = Stub::new();
    let mut plugin = drawn(&mut host, "cargo test");

    plugin.deliver_on(
        &mut host,
        404,
        Answer::Output {
            text: String::from("ok"),
        },
    );

    assert!(host.taken().requests.is_empty());
}

#[test]
fn an_action_with_no_such_name_is_logged_and_asks_nothing() {
    let mut host = Stub::new();
    let mut plugin = drawn(&mut host, "cargo test");

    plugin.run_on(&mut host, "copy-everything");

    let asked = host.taken();
    assert!(asked.requests.is_empty());
    assert_eq!(
        asked.logs,
        vec![(
            Level::Warn,
            String::from("nothing here is called \"copy-everything\"")
        )]
    );
}

#[test]
fn a_failure_and_an_unexpected_answer_are_warnings() {
    let mut host = Stub::new();
    let mut plugin = drawn(&mut host, "cargo test");

    plugin.run_on(&mut host, FENCED);
    let (first, _) = host.last_ticket().expect("a ticket");
    plugin.run_on(&mut host, REPORT);
    let (second, _) = host.last_ticket().expect("a ticket");
    let _ = host.taken();

    plugin.deliver_on(
        &mut host,
        first,
        Answer::Failed(String::from("the shell never said where its output began")),
    );
    plugin.deliver_on(&mut host, second, Answer::Other(String::from("Done")));

    let asked = host.taken();
    assert!(asked.requests.is_empty());
    assert_eq!(
        asked.logs,
        vec![
            (
                Level::Warn,
                String::from("the shell never said where its output began")
            ),
            (
                Level::Warn,
                String::from("that answer was not an output: Done")
            ),
        ]
    );
}

#[test]
fn a_ticket_is_answered_once_and_then_forgotten() {
    let mut host = Stub::new();
    let mut plugin = drawn(&mut host, "cargo test");

    plugin.run_on(&mut host, FENCED);
    let (ticket, _) = host.last_ticket().expect("a ticket");
    let answer = || Answer::Output {
        text: String::from("ok"),
    };
    plugin.deliver_on(&mut host, ticket, answer());
    let _ = host.taken();
    plugin.deliver_on(&mut host, ticket, answer());

    assert!(host.taken().requests.is_empty(), "the same answer was copied twice");
}

#[test]
fn tickets_count_up_from_one_and_forgetting_starts_them_again() {
    let mut host = Stub::new();
    let mut plugin = drawn(&mut host, "cargo test");

    plugin.run_on(&mut host, FENCED);
    assert_eq!(host.last_ticket().map(|(ticket, _)| ticket), Some(1));
    plugin.deliver_on(
        &mut host,
        1,
        Answer::Output {
            text: String::from("ok"),
        },
    );
    assert_eq!(host.last_ticket().map(|(ticket, _)| ticket), Some(2));
    assert_eq!(host.tickets_handed(), 2);

    host.forget();
    assert_eq!(host.last_ticket(), None);
    plugin.run_on(&mut host, REPORT);
    assert_eq!(host.last_ticket().map(|(ticket, _)| ticket), Some(1));
}

#[test]
fn building_again_forgets_what_was_being_waited_on() {
    let mut host = Stub::new();
    let mut plugin = drawn(&mut host, "cargo test");

    plugin.run_on(&mut host, FENCED);
    let (ticket, _) = host.last_ticket().expect("a ticket");
    plugin.build_on(&mut host);
    let _ = host.taken();

    plugin.deliver_on(
        &mut host,
        ticket,
        Answer::Output {
            text: String::from("ok"),
        },
    );
    assert!(host.taken().requests.is_empty());
}

#[test]
fn the_block_a_press_is_about_is_the_one_drawn_before_it() {
    let mut host = Stub::new();
    let mut plugin = drawn(&mut host, "cargo test");

    plugin.run_on(&mut host, FENCED);
    let (ticket, _) = host.last_ticket().expect("a ticket");
    // The menu is drawn for another block before the answer lands.
    plugin.render(&render("git status"));
    let _ = host.taken();

    plugin.deliver_on(
        &mut host,
        ticket,
        Answer::Output {
            text: String::from("ok"),
        },
    );
    assert_eq!(
        asked(&mut host),
        vec![Request::Copy {
            text: String::from("```console\n$ cargo test\nok\n```\n"),
        }]
    );
}

#[test]
fn the_calls_a_step_makes_are_the_calls_the_host_is_asked() {
    let mut plugin = Markdown::new();
    let calls = plugin.build();
    assert_eq!(
        calls,
        vec![
            Call::Contribute {
                slot: String::from(SLOT),
                entry: String::from("markdown"),
                order: ORDER,
            },
            Call::RegisterAction {
                name: String::from(FENCED),
                title: None,
            },
            Call::RegisterAction {
                name: String::from(REPORT),
                title: None,
            },
        ]
    );
    plugin.render(&render("cargo test"));
    assert_eq!(plugin.run(REPORT), Some(Call::Ask(Request::Output)));
    plugin.asked(Some(9));
    assert_eq!(
        plugin.deliver(
            9,
            Answer::Output {
                text: String::from("ok")
            }
        ),
        Some(Call::Ask(Request::Copy {
            text: String::from(
                "### `cargo test`\n\nSucceeded in `/home/eugen/Work/crook` on `main`.\n\n```console\n$ cargo test\nok\n```\n"
            ),
        }))
    );
    plugin.asked(Some(10));
    assert_eq!(
        plugin.deliver(
            10,
            Answer::Output {
                text: String::from("ok")
            }
        ),
        None
    );
}

#[test]
fn a_request_goes_to_the_wire_as_bytes() {
    let output = markdown::sys::request_bytes(&Request::Output).expect("it encodes");
    assert_eq!(output, vec![10]);
    assert_eq!(
        output,
        crook_plugin_api::to_bytes(&crook_plugin_api::Request::Output).unwrap()
    );
    let copy = markdown::sys::request_bytes(&Request::Copy {
        text: String::from("hello"),
    })
    .expect("it encodes");
    assert_eq!(copy, vec![11, 5, b'h', b'e', b'l', b'l', b'o']);
    let long = "é".repeat(100);
    let copy = markdown::sys::request_bytes(&Request::Copy { text: long.clone() })
        .expect("it encodes");
    let mut expected = vec![11, 0xc8, 0x01];
    expected.extend_from_slice(long.as_bytes());
    assert_eq!(copy, expected);
    let mut host = Stub::new();
    let mut plugin = drawn(&mut host, "cargo test");
    plugin.run_on(&mut host, FENCED);
    assert_eq!(host.taken().request_bytes, vec![1]);
    assert_eq!(markdown::sys::ticket_from(0), None);
    assert_eq!(markdown::sys::ticket_from(-3), None);
    assert_eq!(markdown::sys::ticket_from(12), Some(12));
    assert_eq!(Level::Error.code(), 1);
    assert_eq!(Level::Warn.code(), 2);
    assert_eq!(Level::Info.code(), 3);
}
