//! What the plugin says about itself, and where it draws.

use markdown::block::Render;
use markdown::state::{Markdown, SLOT};
use markdown::view::Node;
use markdown::{manifest, Capability};

/// The host's word for one of the capabilities the plugin asks for.
fn host_capability(capability: &Capability) -> crook_plugin_api::Capability {
    match capability {
        Capability::ReadBlock => crook_plugin_api::Capability::ReadBlock,
        Capability::ReadWorkingDirectory => crook_plugin_api::Capability::ReadWorkingDirectory,
        Capability::Clipboard => crook_plugin_api::Capability::Clipboard,
    }
}

#[test]
fn the_manifest_says_what_it_needs_in_sentences_a_person_can_refuse() {
    let manifest = manifest("0.2.1");

    assert_eq!(manifest.abi, crook_plugin_api::ABI_VERSION);
    assert_eq!(manifest.id, "theguriev/markdown");
    let sentences: Vec<String> = manifest
        .capabilities
        .iter()
        .map(|capability| host_capability(capability).sentence())
        .collect();
    assert_eq!(
        sentences,
        vec![
            String::from("Read the command you run it on, and what it printed"),
            String::from("See which project each tab is in"),
            String::from("Read and change your clipboard"),
        ]
    );
}

#[test]
fn what_it_asks_for_is_exactly_what_it_uses() {
    let keys: Vec<String> = manifest("0.2.1")
        .capabilities
        .iter()
        .flat_map(|capability| host_capability(capability).keys())
        .collect();

    assert_eq!(
        keys,
        vec![
            String::from("block.read"),
            String::from("cwd.read"),
            String::from("clipboard"),
        ]
    );
}

#[test]
fn the_only_slot_it_draws_in_is_the_one_it_contributed_to() {
    let mut plugin = Markdown::new();
    let drawn = plugin.render(&Render {
        slot: String::from(SLOT),
        entry: String::from("markdown"),
        subject: None,
    });
    assert_ne!(drawn, Node::Empty);

    let elsewhere = plugin.render(&Render {
        slot: String::from("header.right"),
        entry: String::from("markdown"),
        subject: None,
    });
    assert_eq!(
        elsewhere,
        Node::Empty,
        "asked about a slot it never contributed to, it drew something"
    );
}

#[test]
fn the_manifest_carries_the_version_it_is_given() {
    let manifest = manifest("1.4.0");
    assert_eq!(manifest.version, "1.4.0");
    assert_eq!(manifest.name, "Markdown");
    assert_eq!(
        manifest.description,
        "A command and its output, as Markdown ready to paste."
    );
}

#[test]
fn the_pictures_in_the_module_are_pngs() {
    assert!(markdown::CROOK_ICON.starts_with(b"\x89PNG\r\n\x1a\n"));
}
