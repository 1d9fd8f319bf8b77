//! What crosses the module's exports as bytes, and what those bytes mean.
//!
//! The host writes a render and an answer in its own wire format and reads a
//! drawn node and the manifest back in it; an action's name comes as plain
//! UTF-8. Reading and writing that format is `crook_plugin_api`'s, so it is
//! called here rather than written again. What is written is stated exactly
//! — the format is short to say for the few shapes this plugin sends — and
//! what is read is named: a render or an answer is whatever the host's own
//! decoder makes of the bytes, and everything the plugin does after that is
//! proved for every value it could have made.
use vstd::prelude::*;

use crook_plugin_api as api;

use crate::block::{BlockFacts, Place, Ran, Render, Subject};
use crate::sys::{string_wire, varint, Answer, AnswerView};
use crate::view::{MenuItem, Node};
use crate::{Capability, Manifest};

verus! {

/// One menu entry on the wire: its label, its action and its argument, each a
/// string, in that order.
pub open spec fn item_wire(item: MenuItem) -> Seq<u8> {
    string_wire(item.label@) + string_wire(item.action@) + string_wire(item.argument@)
}

/// Menu entries on the wire, one after another.
pub open spec fn items_wire(items: Seq<MenuItem>) -> Seq<u8>
    decreases items.len(),
{
    if items.len() == 0 {
        Seq::empty()
    } else {
        items_wire(items.drop_last()) + item_wire(items.last())
    }
}

/// The bytes the host's wire format gives what the plugin draws.
///
/// Nothing is the host's variant zero, a bare varint. A menu is variant
/// eighteen, then what it is hung on — nothing, so a zero — then how many
/// entries as a varint, then the entries.
pub open spec fn node_wire(node: Node) -> Seq<u8> {
    match node {
        Node::Empty => seq![0u8],
        Node::Menu { items } => seq![18u8, 0u8] + varint(items@.len()) + items_wire(items@),
    }
}

/// A capability's variant number in the host's own `Capability`.
pub open spec fn capability_number(capability: Capability) -> u8 {
    match capability {
        Capability::ReadWorkingDirectory => 2u8,
        Capability::Clipboard => 4u8,
        Capability::ReadBlock => 13u8,
    }
}

/// Capabilities on the wire, one variant number after another.
pub open spec fn capabilities_wire(capabilities: Seq<Capability>) -> Seq<u8>
    decreases capabilities.len(),
{
    if capabilities.len() == 0 {
        Seq::empty()
    } else {
        capabilities_wire(capabilities.drop_last()).push(capability_number(capabilities.last()))
    }
}

/// The bytes the host's wire format gives the manifest: the ABI version as a
/// varint, the four strings, then how many capabilities as a varint and their
/// variant numbers.
pub open spec fn manifest_wire(manifest: Manifest) -> Seq<u8> {
    varint(manifest.abi as nat) + string_wire(manifest.id@) + string_wire(manifest.name@)
        + string_wire(manifest.description@) + string_wire(manifest.version@) + varint(
        manifest.capabilities@.len(),
    ) + capabilities_wire(manifest.capabilities@)
}

/// The render the host's decoder reads out of `bytes`, as the plugin holds
/// one, or `None` for bytes it cannot read.
pub uninterp spec fn render_from_wire(bytes: Seq<u8>) -> Option<Render>;

/// The answer the host's decoder reads out of `bytes`, as the plugin tells
/// answers apart, or `None` for bytes it cannot read.
pub uninterp spec fn answer_from_wire(bytes: Seq<u8>) -> Option<AnswerView>;

/// Reads a render with `crook_plugin_api::from_bytes`, and keeps what the
/// plugin reads of it.
///
/// Postcard's decoding of the host's `Render`, field for field into the
/// plugin's own; a tab's facts are dropped, because this plugin never draws
/// for a tab. What comes out is named [`render_from_wire`] rather than
/// spelled out: it depends on the bytes alone.
#[verifier::external_body]
pub(crate) fn decode_render(bytes: &[u8]) -> (render: Option<Render>)
    ensures
        render == render_from_wire(bytes@),
{
    let render = api::from_bytes::<api::Render>(bytes).ok()?;
    let subject = render.subject.map(|subject| match subject {
        api::Subject::Tab(_) => Subject::Tab,
        api::Subject::Block(facts) => Subject::Block(BlockFacts {
            key: facts.key,
            ran: facts.ran.map(|ran| Ran { command: ran.command, exit: ran.exit }),
            place: facts.place.map(|place| Place { directory: place.directory, branch: place.branch, worktree: place.worktree }),
        }),
    });
    Some(Render { slot: render.slot, entry: render.entry, subject })
}

/// Reads an answer with `crook_plugin_api::from_bytes`, and tells apart the
/// answers the plugin has a use for.
///
/// The output, a refusal and a failure are moved across as they are; any
/// other answer is kept as what `Debug` writes of it, so that a log line can
/// name it. What comes out is named [`answer_from_wire`]: it depends on the
/// bytes alone.
#[verifier::external_body]
pub(crate) fn decode_answer(bytes: &[u8]) -> (answer: Option<Answer>)
    ensures
        match answer {
            Some(answer) => answer_from_wire(bytes@) == Some(answer@),
            None => answer_from_wire(bytes@) is None,
        },
{
    Some(match api::from_bytes::<api::Answer>(bytes).ok()? {
        api::Answer::Output { text } => Answer::Output { text },
        api::Answer::Refused(sentence) => Answer::Refused(sentence),
        api::Answer::Failed(why) => Answer::Failed(why),
        other => Answer::Other(format!("{other:?}")),
    })
}

/// Writes what the plugin draws with `crook_plugin_api::to_bytes`.
///
/// That is postcard's `to_allocvec` of the host's `Node`: a variant is its
/// number as a varint and then its fields in order, a list its length as a
/// varint and then its items, and a string its length in bytes as a varint
/// and then its UTF-8. A menu goes over as the host's menu hung on its
/// `Empty`. The output flavour only pushes onto a `Vec`, so it never fails:
/// the bytes are always there, and are [`node_wire`].
#[verifier::external_body]
fn encode_node(node: &Node) -> (bytes: Option<Vec<u8>>)
    ensures
        bytes matches Some(bytes) && bytes@ == node_wire(*node),
{
    let node = match node {
        Node::Empty => api::Node::Empty,
        Node::Menu { items } => api::Node::Menu {
            content: Box::new(api::Node::Empty),
            items: items.iter().map(|item| api::MenuItem { label: item.label.clone(), action: item.action.clone(), argument: item.argument.clone() }).collect(),
        },
    };
    api::to_bytes(&node).ok()
}

/// Writes the manifest with `crook_plugin_api::to_bytes`.
///
/// Postcard's `to_allocvec` of the host's `Manifest`, written the way
/// [`encode_node`] says, with each capability its variant in the host's
/// `Capability`. It never fails, and the bytes are [`manifest_wire`].
#[verifier::external_body]
fn encode_manifest(manifest: &Manifest) -> (bytes: Option<Vec<u8>>)
    ensures
        bytes matches Some(bytes) && bytes@ == manifest_wire(*manifest),
{
    let capabilities = manifest.capabilities.iter().map(|capability| match capability {
        Capability::ReadBlock => api::Capability::ReadBlock,
        Capability::ReadWorkingDirectory => api::Capability::ReadWorkingDirectory,
        Capability::Clipboard => api::Capability::Clipboard,
    });
    let (id, name) = (manifest.id.clone(), manifest.name.clone());
    let (description, version) = (manifest.description.clone(), manifest.version.clone());
    let manifest = api::Manifest { abi: manifest.abi, id, name, description, version, capabilities: capabilities.collect() };
    api::to_bytes(&manifest).ok()
}

/// The text `bytes` spell, with `std::str::from_utf8`: there exactly when
/// they are UTF-8, and then a string slice over those very bytes.
#[verifier::external_body]
pub(crate) fn utf8_text(bytes: &[u8]) -> (text: Option<&str>)
    ensures
        text is Some <==> vstd::utf8::valid_utf8(bytes@),
        text matches Some(text) ==> vstd::utf8::encode_utf8(text@) == bytes@,
{
    std::str::from_utf8(bytes).ok()
}

/// What the plugin draws, as the host reads it.
pub fn node_bytes(node: &Node) -> (bytes: Vec<u8>)
    ensures
        bytes@ == node_wire(*node),
{
    match encode_node(node) {
        Some(bytes) => bytes,
        None => Vec::new(),
    }
}

/// The manifest, as the host reads it.
pub fn manifest_bytes(manifest: &Manifest) -> (bytes: Vec<u8>)
    ensures
        bytes@ == manifest_wire(*manifest),
{
    match encode_manifest(manifest) {
        Some(bytes) => bytes,
        None => Vec::new(),
    }
}

} // verus!
