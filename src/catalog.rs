//! The widget types the builder knows, and how each takes children.
use vstd::prelude::*;
use crate::registry::ContainerKind;

verus! {

/// The supported widget types by native name, with the way each takes children.
pub open spec fn catalog() -> Seq<(Seq<char>, ContainerKind)> {
    seq![
        ("GtkWindow"@, ContainerKind::Single),
        ("GtkApplicationWindow"@, ContainerKind::Single),
        ("GtkAboutDialog"@, ContainerKind::Single),
        ("GtkAppChooserDialog"@, ContainerKind::Single),
        ("GtkColorChooserDialog"@, ContainerKind::Single),
        ("GtkDialog"@, ContainerKind::Single),
        ("GtkFileChooserDialog"@, ContainerKind::Single),
        ("GtkFontChooserDialog"@, ContainerKind::Single),
        ("GtkMessageDialog"@, ContainerKind::Single),
        ("GtkFrame"@, ContainerKind::Single),
        ("GtkAspectFrame"@, ContainerKind::Single),
        ("GtkExpander"@, ContainerKind::Single),
        ("GtkScrolledWindow"@, ContainerKind::Single),
        ("GtkOverlay"@, ContainerKind::Single),
        ("GtkButton"@, ContainerKind::Single),
        ("GtkToggleButton"@, ContainerKind::Single),
        ("GtkLinkButton"@, ContainerKind::Single),
        ("GtkMenuButton"@, ContainerKind::Single),
        ("GtkBox"@, ContainerKind::Append),
        ("GtkCenterBox"@, ContainerKind::Slots),
        ("GtkPaned"@, ContainerKind::Paned),
        ("GtkStack"@, ContainerKind::Stack),
        ("GtkNotebook"@, ContainerKind::Notebook),
        ("GtkHeaderBar"@, ContainerKind::PackEnd),
        ("GtkActionBar"@, ContainerKind::PackStart),
        ("GtkGrid"@, ContainerKind::Grid),
        ("GtkFixed"@, ContainerKind::Leaf),
        ("GtkStackSidebar"@, ContainerKind::Leaf),
        ("GtkStackSwitcher"@, ContainerKind::Leaf),
        ("GtkSeparator"@, ContainerKind::Leaf),
        ("GtkLabel"@, ContainerKind::Leaf),
        ("GtkEntry"@, ContainerKind::Leaf),
        ("GtkPasswordEntry"@, ContainerKind::Leaf),
        ("GtkSearchEntry"@, ContainerKind::Leaf),
        ("GtkSpinButton"@, ContainerKind::Leaf),
        ("GtkSwitch"@, ContainerKind::Leaf),
        ("GtkScale"@, ContainerKind::Leaf),
        ("GtkProgressBar"@, ContainerKind::Leaf),
        ("GtkSpinner"@, ContainerKind::Leaf),
        ("GtkLevelBar"@, ContainerKind::Leaf),
        ("GtkInfoBar"@, ContainerKind::Leaf),
        ("GtkStatusbar"@, ContainerKind::Leaf),
        ("GtkTextView"@, ContainerKind::Leaf),
        ("GtkImage"@, ContainerKind::Leaf),
        ("GtkPicture"@, ContainerKind::Leaf),
        ("GtkDrawingArea"@, ContainerKind::Leaf),
        ("GtkCalendar"@, ContainerKind::Leaf),
        ("GtkCheckButton"@, ContainerKind::Leaf),
        ("GtkColorButton"@, ContainerKind::Leaf),
        ("GtkFontButton"@, ContainerKind::Leaf),
        ("GtkDropDown"@, ContainerKind::Leaf),
        ("GtkVolumeButton"@, ContainerKind::Leaf),
        ("GtkSearchBar"@, ContainerKind::Leaf),
        ("GtkAppChooserButton"@, ContainerKind::Leaf),
        ("GtkListView"@, ContainerKind::Leaf),
    ]
}

/// The supported widget types, in the order they are registered.
pub fn init() -> (r: Vec<(String, ContainerKind)>)
    ensures
        r@.len() == catalog().len(),
        forall|i: int| 0 <= i < r@.len() ==> (#[trigger] r@[i]).0@ == catalog()[i].0 && r@[i].1 == catalog()[i].1,
{
    let mut out: Vec<(String, ContainerKind)> = Vec::new();
    out.push((String::from_str("GtkWindow"), ContainerKind::Single));
    out.push((String::from_str("GtkApplicationWindow"), ContainerKind::Single));
    out.push((String::from_str("GtkAboutDialog"), ContainerKind::Single));
    out.push((String::from_str("GtkAppChooserDialog"), ContainerKind::Single));
    out.push((String::from_str("GtkColorChooserDialog"), ContainerKind::Single));
    out.push((String::from_str("GtkDialog"), ContainerKind::Single));
    out.push((String::from_str("GtkFileChooserDialog"), ContainerKind::Single));
    out.push((String::from_str("GtkFontChooserDialog"), ContainerKind::Single));
    out.push((String::from_str("GtkMessageDialog"), ContainerKind::Single));
    out.push((String::from_str("GtkFrame"), ContainerKind::Single));
    out.push((String::from_str("GtkAspectFrame"), ContainerKind::Single));
    out.push((String::from_str("GtkExpander"), ContainerKind::Single));
    out.push((String::from_str("GtkScrolledWindow"), ContainerKind::Single));
    out.push((String::from_str("GtkOverlay"), ContainerKind::Single));
    out.push((String::from_str("GtkButton"), ContainerKind::Single));
    out.push((String::from_str("GtkToggleButton"), ContainerKind::Single));
    out.push((String::from_str("GtkLinkButton"), ContainerKind::Single));
    out.push((String::from_str("GtkMenuButton"), ContainerKind::Single));
    out.push((String::from_str("GtkBox"), ContainerKind::Append));
    out.push((String::from_str("GtkCenterBox"), ContainerKind::Slots));
    out.push((String::from_str("GtkPaned"), ContainerKind::Paned));
    out.push((String::from_str("GtkStack"), ContainerKind::Stack));
    out.push((String::from_str("GtkNotebook"), ContainerKind::Notebook));
    out.push((String::from_str("GtkHeaderBar"), ContainerKind::PackEnd));
    out.push((String::from_str("GtkActionBar"), ContainerKind::PackStart));
    out.push((String::from_str("GtkGrid"), ContainerKind::Grid));
    out.push((String::from_str("GtkFixed"), ContainerKind::Leaf));
    out.push((String::from_str("GtkStackSidebar"), ContainerKind::Leaf));
    out.push((String::from_str("GtkStackSwitcher"), ContainerKind::Leaf));
    out.push((String::from_str("GtkSeparator"), ContainerKind::Leaf));
    out.push((String::from_str("GtkLabel"), ContainerKind::Leaf));
    out.push((String::from_str("GtkEntry"), ContainerKind::Leaf));
    out.push((String::from_str("GtkPasswordEntry"), ContainerKind::Leaf));
    out.push((String::from_str("GtkSearchEntry"), ContainerKind::Leaf));
    out.push((String::from_str("GtkSpinButton"), ContainerKind::Leaf));
    out.push((String::from_str("GtkSwitch"), ContainerKind::Leaf));
    out.push((String::from_str("GtkScale"), ContainerKind::Leaf));
    out.push((String::from_str("GtkProgressBar"), ContainerKind::Leaf));
    out.push((String::from_str("GtkSpinner"), ContainerKind::Leaf));
    out.push((String::from_str("GtkLevelBar"), ContainerKind::Leaf));
    out.push((String::from_str("GtkInfoBar"), ContainerKind::Leaf));
    out.push((String::from_str("GtkStatusbar"), ContainerKind::Leaf));
    out.push((String::from_str("GtkTextView"), ContainerKind::Leaf));
    out.push((String::from_str("GtkImage"), ContainerKind::Leaf));
    out.push((String::from_str("GtkPicture"), ContainerKind::Leaf));
    out.push((String::from_str("GtkDrawingArea"), ContainerKind::Leaf));
    out.push((String::from_str("GtkCalendar"), ContainerKind::Leaf));
    out.push((String::from_str("GtkCheckButton"), ContainerKind::Leaf));
    out.push((String::from_str("GtkColorButton"), ContainerKind::Leaf));
    out.push((String::from_str("GtkFontButton"), ContainerKind::Leaf));
    out.push((String::from_str("GtkDropDown"), ContainerKind::Leaf));
    out.push((String::from_str("GtkVolumeButton"), ContainerKind::Leaf));
    out.push((String::from_str("GtkSearchBar"), ContainerKind::Leaf));
    out.push((String::from_str("GtkAppChooserButton"), ContainerKind::Leaf));
    out.push((String::from_str("GtkListView"), ContainerKind::Leaf));
    out
}

} // verus!
