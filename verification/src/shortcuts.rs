//! The global shortcut set, registered once at startup.

use vstd::prelude::*;

verus! {

/// A global key combination bound to the toggle action. Every binding in this
/// system maps to the same action; the alternatives exist so that losing one
/// combination to another application is tolerable.
#[derive(Debug)]
pub struct ShortcutBinding {
    /// The key-combination string handed to the OS registrar.
    pub accelerator: String,
}

/// The fixed set of global shortcut bindings: a primary combination and one
/// alternative, both bound to toggle. Registration failure of either is
/// non-fatal to the shell.
pub fn shortcut_bindings() -> (v: Vec<ShortcutBinding>)
    ensures
        v@.len() == 2,
        v@[0].accelerator@ == "CmdOrCtrl+'"@,
        v@[1].accelerator@ == "CmdOrCtrl+Shift+A"@,
{
    let mut v: Vec<ShortcutBinding> = Vec::new();
    v.push(ShortcutBinding { accelerator: "CmdOrCtrl+'".to_owned() });
    v.push(ShortcutBinding { accelerator: "CmdOrCtrl+Shift+A".to_owned() });
    v
}

} // verus!
