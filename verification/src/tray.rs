//! The fixed tray menu, built once at startup and immutable thereafter.

use vstd::prelude::*;

verus! {

/// One entry of the tray menu: an actionable item with a stable id and a
/// display label, or a decorative separator with no action.
#[derive(Debug)]
pub enum TrayEntry {
    /// An actionable menu item.
    Item {
        /// The stable id the coordinator dispatches on.
        id: String,
        /// The label the OS displays.
        label: String,
    },
    /// A decorative separator.
    Separator,
}

/// Builds the fixed tray menu: Show Assistant, Hide Assistant, a separator,
/// Settings, a separator, Quit Aura.
pub fn tray_menu() -> (m: Vec<TrayEntry>)
    ensures
        m@.len() == 6,
        (m@[0] matches TrayEntry::Item { id, label } && id@ == "show"@ && label@
            == "Show Assistant"@),
        (m@[1] matches TrayEntry::Item { id, label } && id@ == "hide"@ && label@
            == "Hide Assistant"@),
        m@[2] is Separator,
        (m@[3] matches TrayEntry::Item { id, label } && id@ == "settings"@ && label@
            == "Settings"@),
        m@[4] is Separator,
        (m@[5] matches TrayEntry::Item { id, label } && id@ == "quit"@ && label@
            == "Quit Aura"@),
{
    let mut m: Vec<TrayEntry> = Vec::new();
    m.push(TrayEntry::Item { id: "show".to_owned(), label: "Show Assistant".to_owned() });
    m.push(TrayEntry::Item { id: "hide".to_owned(), label: "Hide Assistant".to_owned() });
    m.push(TrayEntry::Separator);
    m.push(TrayEntry::Item { id: "settings".to_owned(), label: "Settings".to_owned() });
    m.push(TrayEntry::Separator);
    m.push(TrayEntry::Item { id: "quit".to_owned(), label: "Quit Aura".to_owned() });
    m
}

} // verus!
