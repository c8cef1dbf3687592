//! The chips beside the prompt, as a sandboxed plugin: where the pane is,
//! which branch it is on, how much has changed and what one chord would do —
//! four small things at the foot of the pane, each of which opens something
//! when it is pressed.
//!
//! What it is allowed to do, in four sentences:
//!
//! * see which project the active pane is in — the directory, the branch and
//!   the line counts the chips print;
//! * see the names of the files under `~` — the directory picker's rows;
//! * type `cd …` and `git switch …` into the shell, and nothing else, only
//!   when somebody has pressed something;
//! * use two of Crook's own commands by name: the one the keys chip stands for
//!   and the one that records a new chord for it.
//!
//! [`api`] is the vocabulary plugin and host share, [`state`] is what the
//! chips know and what they ask for, and [`view`] is what they draw.
use vstd::prelude::*;

use crate::api::{ABI_VERSION, Capability, CapabilityView, Manifest, ManifestView};
use crate::state::{CD, REBIND, ROOT, SHOWN_COMMAND, SWITCH};

pub mod api;
pub mod laws;
pub mod state;
pub mod text;
pub mod view;

verus! {

/// The plugin's own version, kept equal to the package's.
pub const PLUGIN_VERSION: &'static str = "0.1.0";

/// What this plugin is and what it needs to be allowed to do: to read the
/// working directory, to list under `~`, to type `cd {}` and `git switch {}`,
/// to read Crook's commands, and to run the shown command and the one that
/// rebinds it.
pub open spec fn the_manifest() -> ManifestView {
    ManifestView {
        abi: ABI_VERSION,
        id: "theguriev/chips"@,
        name: "Chips"@,
        description: "Where the pane is, what branch it is on, and what a chord would do."@,
        version: PLUGIN_VERSION@,
        capabilities: seq![
            CapabilityView::ReadWorkingDirectory,
            CapabilityView::ListDirectories(seq![ROOT@]),
            CapabilityView::TypeCommands(seq![CD@, SWITCH@]),
            CapabilityView::ReadCommands,
            CapabilityView::RunCommands(seq![SHOWN_COMMAND@, REBIND@]),
        ],
    }
}

/// Two strings, in order.
fn pair(a: &str, b: &str) -> (v: Vec<String>)
    ensures
        v@.map_values(|s: String| s@) == seq![a@, b@],
{
    let mut v: Vec<String> = Vec::new();
    v.push(a.to_owned());
    v.push(b.to_owned());
    proof {
        assert(v@.map_values(|s: String| s@) =~= seq![a@, b@]);
    }
    v
}

/// The manifest, as a value: read before any of the plugin runs, which is
/// what lets a person see what it wants and refuse it.
pub fn manifest() -> (m: Manifest)
    ensures
        m@ == the_manifest(),
{
    let mut roots: Vec<String> = Vec::new();
    roots.push(ROOT.to_owned());
    proof {
        assert(roots@.map_values(|s: String| s@) =~= seq![ROOT@]);
    }
    let mut capabilities: Vec<Capability> = Vec::new();
    capabilities.push(Capability::ReadWorkingDirectory);
    capabilities.push(Capability::ListDirectories(roots));
    capabilities.push(Capability::TypeCommands(pair(CD, SWITCH)));
    capabilities.push(Capability::ReadCommands);
    capabilities.push(Capability::RunCommands(pair(SHOWN_COMMAND, REBIND)));
    let m = Manifest {
        abi: ABI_VERSION,
        id: "theguriev/chips".to_owned(),
        name: "Chips".to_owned(),
        description: "Where the pane is, what branch it is on, and what a chord would do.".to_owned(),
        version: PLUGIN_VERSION.to_owned(),
        capabilities,
    };
    proof {
        assert(m@.capabilities =~= the_manifest().capabilities);
    }
    m
}

} // verus!
