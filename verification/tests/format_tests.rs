//! What comes out, for the cases the shape of the text depends on.

use markdown::block::{BlockFacts, Place, Ran};
use markdown::format::{fence_for, longest_backtick_run, markdown, Shape};

/// A block as the host describes one to a plugin granted everything it asks.
fn block() -> BlockFacts {
    BlockFacts {
        key: 7,
        ran: Some(Ran {
            command: Some(String::from("cargo test")),
            exit: Some(0),
        }),
        place: Some(Place {
            directory: String::from("/home/eugen/Work/crook"),
            branch: Some(String::from("blocks-helpers")),
            worktree: false,
        }),
    }
}

const OUTPUT: &str = "running 3 tests\nok";

#[test]
fn a_fence_holds_the_command_with_a_prompt_and_the_output_under_it() {
    assert_eq!(
        markdown(Some(&block()), OUTPUT, Shape::Fenced),
        "```console\n$ cargo test\nrunning 3 tests\nok\n```\n"
    );
}

#[test]
fn a_report_says_what_became_of_it_and_where() {
    assert_eq!(
        markdown(Some(&block()), OUTPUT, Shape::Report),
        "### `cargo test`\n\nSucceeded in `/home/eugen/Work/crook` on `blocks-helpers`.\n\n\
         ```console\n$ cargo test\nrunning 3 tests\nok\n```\n"
    );
}

#[test]
fn a_command_that_failed_says_the_status_rather_than_that_it_succeeded() {
    let failed = BlockFacts {
        ran: Some(Ran {
            command: Some(String::from("cargo test")),
            exit: Some(101),
        }),
        ..block()
    };

    assert!(
        markdown(Some(&failed), OUTPUT, Shape::Report)
            .contains("Exited 101 in `/home/eugen/Work/crook`")
    );
}

#[test]
fn what_the_shell_never_said_contributes_nothing_rather_than_a_word_for_it() {
    let bare = BlockFacts {
        key: 3,
        ran: Some(Ran {
            command: Some(String::from("uname -a")),
            exit: None,
        }),
        place: None,
    };

    assert_eq!(
        markdown(Some(&bare), "Linux", Shape::Report),
        "### `uname -a`\n\n```console\n$ uname -a\nLinux\n```\n"
    );
}

#[test]
fn a_plugin_that_was_told_nothing_still_copies_what_it_was_handed() {
    assert_eq!(
        markdown(None, "Linux", Shape::Fenced),
        "```console\nLinux\n```\n"
    );
}

#[test]
fn a_command_that_printed_nothing_is_a_fence_with_one_line_in_it() {
    assert_eq!(
        markdown(Some(&block()), "   \n", Shape::Fenced),
        "```console\n$ cargo test\n```\n"
    );
}

#[test]
fn output_that_holds_a_fence_of_its_own_is_wrapped_in_a_longer_one() {
    let readme = BlockFacts {
        key: 3,
        ran: Some(Ran {
            command: Some(String::from("cat README.md")),
            exit: Some(0),
        }),
        place: None,
    };

    let text = markdown(
        Some(&readme),
        "Run it:\n\n```sh\ncargo run\n```",
        Shape::Fenced,
    );

    assert!(text.starts_with("````console\n"), "{text}");
    assert!(text.ends_with("````\n"), "{text}");
    assert!(text.contains("```sh\ncargo run\n```"), "{text}");
}

#[test]
fn a_block_with_neither_a_command_nor_any_output_is_nothing_to_copy() {
    assert!(markdown(None, "  \n ", Shape::Fenced).is_empty());
    assert!(
        markdown(
            Some(&BlockFacts {
                key: 1,
                ran: Some(Ran::default()),
                place: None
            }),
            "",
            Shape::Report
        )
        .is_empty()
    );
    assert!(!markdown(Some(&block()), OUTPUT, Shape::Fenced).is_empty());
}

#[test]
fn the_longest_run_counts_backticks_in_a_row_and_nothing_else() {
    assert_eq!(longest_backtick_run(""), 0);
    assert_eq!(longest_backtick_run("no ticks"), 0);
    assert_eq!(longest_backtick_run("a`b``c```d"), 3);
    assert_eq!(longest_backtick_run("````` and `"), 5);
    assert_eq!(longest_backtick_run("é`ü``"), 2);
}

#[test]
fn a_fence_is_never_shorter_than_three_and_always_outlasts_what_it_holds() {
    assert_eq!(fence_for(None, "plain"), "```");
    assert_eq!(fence_for(Some("echo `x`"), "``"), "```");
    assert_eq!(fence_for(Some("printf '````'"), "ok"), "`````");
    assert_eq!(fence_for(None, "``````"), "```````");
    let text = markdown(None, "``````", Shape::Fenced);
    assert_eq!(text, "```````console\n``````\n```````\n");
}

#[test]
fn a_negative_status_is_written_with_its_sign() {
    let block = BlockFacts {
        key: 1,
        ran: Some(Ran {
            command: Some(String::from("kill -9 $$")),
            exit: Some(-9),
        }),
        place: None,
    };
    assert_eq!(
        markdown(Some(&block), "", Shape::Report),
        "### `kill -9 $$`\n\nExited -9.\n\n```console\n$ kill -9 $$\n```\n"
    );
    let lowest = BlockFacts {
        key: 1,
        ran: Some(Ran {
            command: Some(String::from("x")),
            exit: Some(i32::MIN),
        }),
        place: None,
    };
    assert!(markdown(Some(&lowest), "", Shape::Report).contains("Exited -2147483648."));
}

#[test]
fn a_place_without_a_status_says_where_it_ran_on_its_own() {
    let block = BlockFacts {
        key: 1,
        ran: Some(Ran {
            command: Some(String::from("ls")),
            exit: None,
        }),
        place: Some(Place {
            directory: String::from("/tmp"),
            branch: None,
            worktree: false,
        }),
    };
    assert_eq!(
        markdown(Some(&block), "a\nb\n\n", Shape::Report),
        "### `ls`\n\nRan in `/tmp`.\n\n```console\n$ ls\na\nb\n```\n"
    );
}

#[test]
fn a_command_is_trimmed_and_one_of_only_whitespace_is_no_command() {
    let padded = BlockFacts {
        key: 1,
        ran: Some(Ran {
            command: Some(String::from("\t  make  \u{3000}")),
            exit: None,
        }),
        place: None,
    };
    assert_eq!(
        markdown(Some(&padded), "done", Shape::Fenced),
        "```console\n$ make\ndone\n```\n"
    );
    let blank = BlockFacts {
        key: 1,
        ran: Some(Ran {
            command: Some(String::from(" \n ")),
            exit: Some(0),
        }),
        place: None,
    };
    assert_eq!(markdown(Some(&blank), "\u{a0}\n", Shape::Report), "");
    assert_eq!(
        markdown(Some(&blank), "out", Shape::Report),
        "Succeeded.\n\n```console\nout\n```\n"
    );
}
