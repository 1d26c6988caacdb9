//! The properties a tray item shows, from what its bus object reports.
use vstd::prelude::*;
use crate::desktop_entry::{lines_of, opt_view, scan_lines, DesktopEntry};

verus! {

/// Why reading a tray item failed.
#[derive(Debug)]
pub enum TrayApiError {
    DbusError(String),
    IoError(String),
    ImageError(String),
    PixmapConversionError(String),
    DesktopEntryError(String),
    Other(String),
}

/// The properties as the item's bus object reports them.
#[derive(Debug)]
pub struct RawTrayProperties {
    pub service: String,
    pub id: String,
    pub title: String,
    pub icon_name: String,
    pub status: String,
    pub tool_tip: String,
    /// The path of the item's desktop entry; empty when it has none.
    pub desktop_item: String,
}

/// The properties shown for a tray item. With no icon name, the item's
/// pixmap stands for its icon.
#[derive(Debug)]
pub struct TrayItemProperties {
    pub service: String,
    pub id: String,
    pub title: String,
    pub status: String,
    pub tool_tip: String,
    pub desktop_item: Option<String>,
    pub icon_name: Option<String>,
}

/// The reported title, or the id when the title is empty.
pub open spec fn base_title(raw: RawTrayProperties) -> Seq<char> {
    if raw.title@.len() == 0 { raw.id@ } else { raw.title@ }
}

/// The title and icon once the desktop entry, if any, has been read; `None`
/// when the item names a desktop entry that cannot be read or gives nothing.
pub open spec fn title_and_icon(raw: RawTrayProperties, desktop: Option<String>) -> Option<(Seq<char>, Seq<char>)> {
    if raw.desktop_item@.len() == 0 {
        Some((base_title(raw), raw.icon_name@))
    } else {
        match desktop {
            None => None,
            Some(content) => {
                let st = scan_lines(lines_of(content@));
                if st.name is None && st.icon is None {
                    None
                } else {
                    Some((
                        match st.name { Some(n) => n, None => base_title(raw) },
                        match st.icon { Some(i) => i, None => raw.icon_name@ },
                    ))
                }
            },
        }
    }
}

/// Merges what a tray item reports with its desktop entry. `desktop` is the
/// text of the entry at `raw.desktop_item`, or `None` when it could not be
/// read; it is not looked at when the item names no entry. The desktop
/// entry's name and icon take the place of the reported ones.
pub fn get_item_properties_processed(raw: RawTrayProperties, desktop: Option<String>) -> (r: Result<TrayItemProperties, TrayApiError>)
    ensures
        match title_and_icon(raw, desktop) {
            None => r matches Err(TrayApiError::DesktopEntryError(p)) && p == raw.desktop_item,
            Some((title, icon)) => r matches Ok(props) && {
                &&& props.service == raw.service
                &&& props.id == raw.id
                &&& props.status == raw.status
                &&& props.tool_tip == raw.tool_tip
                &&& props.title@ == title
                &&& props.desktop_item == (if raw.desktop_item@.len() == 0 { None } else { Some(raw.desktop_item) })
                &&& opt_view(props.icon_name) == (if icon.len() == 0 { None } else { Some(icon) })
            },
        },
{
    let RawTrayProperties { service, id, title, icon_name, status, tool_tip, desktop_item } = raw;
    let mut title = if title.as_str().unicode_len() == 0 { id.clone() } else { title };
    let mut icon_name = icon_name;
    let mut item: Option<String> = None;
    if desktop_item.as_str().unicode_len() > 0 {
        let entry = match &desktop {
            Some(content) => DesktopEntry::parse_from_string(content.as_str()),
            None => None,
        };
        match entry {
            Some(e) => {
                if let Some(n) = e.name {
                    title = n;
                }
                if let Some(i) = e.icon {
                    icon_name = i;
                }
            },
            None => {
                return Err(TrayApiError::DesktopEntryError(desktop_item));
            },
        }
        item = Some(desktop_item);
    }
    let icon = if icon_name.as_str().unicode_len() == 0 { None } else { Some(icon_name) };
    Ok(TrayItemProperties { service, id, title, status, tool_tip, desktop_item: item, icon_name: icon })
}

} // verus!
