//! A command and its output, as Markdown ready to paste.
//!
//! Two entries in the menu a block's three dots open: one copies the command
//! and what it printed as a `console` fence, and the other copies the same
//! thing with a heading, the exit status, the directory and the branch around
//! it — which is a bug report somebody can read.
//!
//! It is a plugin for [Crook](https://github.com/theguriev/crook), and it does
//! what a plugin from a store may do and nothing else: it has no network, no
//! filesystem, no thread and no clock. It describes two rows, it asks for the
//! block a person ran it on, and it asks for text to be put on the clipboard.
//!
//! # How it is put together
//!
//! * [`format`] — what a block reads as, stated character for character.
//! * [`view`] — the two labels, and which of them is worth offering.
//! * [`state`] — the loop: a render says which command, a press asks for the
//!   output, the answer is asked to be copied. Each step is a function from
//!   what the plugin knows to what it knows next and the call it makes.
//! * [`sys`] — those calls, as values, and a host that writes them down.
//! * [`wire`] — the bytes the exports read and write, and what they mean.
//! * [`block`] and [`text`] — what the host says about a command, and the
//!   few facts about text the formatting leans on.
use vstd::prelude::*;

pub mod block;
pub mod format;
pub mod state;
pub mod sys;
pub mod text;
pub mod view;
pub mod wire;

verus! {

/// The plugin's face beside its name on the Plugins page and in the Store: a
/// square PNG, 32 pixels a side.
///
/// Carried inside the module as the host's `crook.icon` section, which the
/// interpreter never maps, so it costs no memory and no fuel.
pub const CROOK_ICON: [u8; 179] = [
    0x89, 0x50, 0x4e, 0x47, 0x0d, 0x0a, 0x1a, 0x0a, 0x00, 0x00, 0x00, 0x0d,
    0x49, 0x48, 0x44, 0x52, 0x00, 0x00, 0x00, 0x20, 0x00, 0x00, 0x00, 0x20,
    0x08, 0x03, 0x00, 0x00, 0x00, 0x44, 0xa4, 0x8a, 0xc6, 0x00, 0x00, 0x00,
    0x09, 0x50, 0x4c, 0x54, 0x45, 0x22, 0x26, 0x2e, 0xf5, 0xf5, 0xf5, 0x00,
    0x00, 0x00, 0xfb, 0xcc, 0xdb, 0xe7, 0x00, 0x00, 0x00, 0x03, 0x74, 0x52,
    0x4e, 0x53, 0xff, 0xff, 0x00, 0xd7, 0xca, 0x0d, 0x41, 0x00, 0x00, 0x00,
    0x56, 0x49, 0x44, 0x41, 0x54, 0x78, 0xda, 0x63, 0x60, 0x02, 0x02, 0x06,
    0x1c, 0x00, 0x2c, 0x87, 0x5b, 0x1a, 0xa2, 0x84, 0x01, 0xaf, 0x3c, 0x50,
    0x05, 0x61, 0x05, 0x83, 0x08, 0x30, 0x02, 0x01, 0x2e, 0x1e, 0x5c, 0x88,
    0x11, 0x2b, 0x07, 0x59, 0x8c, 0x11, 0x93, 0x8d, 0xac, 0x80, 0x01, 0x2a,
    0x8a, 0xc4, 0x44, 0x53, 0x80, 0x4e, 0x60, 0x2a, 0x40, 0x18, 0x8e, 0x4b,
    0x01, 0xdc, 0xf9, 0x38, 0x15, 0x30, 0xc0, 0x29, 0x5c, 0x0a, 0xb0, 0x73,
    0x47, 0x8e, 0x82, 0x01, 0x05, 0x94, 0xe7, 0x2c, 0xc2, 0x99, 0x97, 0x40,
    0xf6, 0x07, 0x00, 0xaa, 0xff, 0x00, 0xc5, 0x78, 0xb5, 0x21, 0xcd, 0x00,
    0x00, 0x00, 0x00, 0x49, 0x45, 0x4e, 0x44, 0xae, 0x42, 0x60, 0x82,
];

/// Something a plugin has to be allowed to do: the three of the host's
/// vocabulary this plugin asks for.
#[derive(Copy, Clone, Debug, PartialEq, Eq, Structural)]
pub enum Capability {
    /// Read the command a menu of this plugin's is open on, and what it
    /// printed.
    ReadBlock,
    /// Read the working directory and git facts of where it ran.
    ReadWorkingDirectory,
    /// Read and write the system clipboard.
    Clipboard,
}

/// What this plugin says about itself, before any of it runs.
#[derive(Clone, Debug, PartialEq, Eq)]
pub struct Manifest {
    /// The version of the host's vocabulary the plugin was built against.
    pub abi: u32,
    /// `owner/name`.
    pub id: String,
    /// What a person sees in a list.
    pub name: String,
    /// One line, for the row under the name.
    pub description: String,
    /// The plugin's own version.
    pub version: String,
    /// What it needs to be allowed to do.
    pub capabilities: Vec<Capability>,
}

/// `crook_plugin_api::ABI_VERSION`, the version of the vocabulary this was
/// built against.
///
/// The crate's source defines it as the constant 8, which is what this says.
#[verifier::external_body]
fn abi_version() -> (version: u32)
    ensures
        version == 8,
{
    crook_plugin_api::ABI_VERSION
}

/// What the plugin is and what it needs to be allowed to do, for a plugin at
/// `version`.
///
/// Three capabilities, and they are the whole of what this does: read the
/// block, see where it ran, and change the clipboard. No network and no files,
/// so nothing it copies can leave the machine.
pub fn manifest(version: &str) -> (manifest: Manifest)
    ensures
        manifest.abi == 8,
        manifest.id@ == "theguriev/markdown"@,
        manifest.name@ == "Markdown"@,
        manifest.description@ == "A command and its output, as Markdown ready to paste."@,
        manifest.version@ == version@,
        manifest.capabilities@ == seq![
            Capability::ReadBlock,
            Capability::ReadWorkingDirectory,
            Capability::Clipboard,
        ],
{
    let mut capabilities: Vec<Capability> = Vec::new();
    capabilities.push(Capability::ReadBlock);
    capabilities.push(Capability::ReadWorkingDirectory);
    capabilities.push(Capability::Clipboard);
    proof {
        assert(capabilities@ =~= seq![
            Capability::ReadBlock,
            Capability::ReadWorkingDirectory,
            Capability::Clipboard,
        ]);
    }
    Manifest {
        abi: abi_version(),
        id: "theguriev/markdown".to_owned(),
        name: "Markdown".to_owned(),
        description: "A command and its output, as Markdown ready to paste.".to_owned(),
        version: version.to_owned(),
        capabilities,
    }
}

} // verus!
