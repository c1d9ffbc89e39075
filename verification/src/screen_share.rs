//! What can be shared on screen, and why sharing can be refused.
use vstd::prelude::*;
use crate::text::{decimal, push_decimal};

verus! {

/// Reasons screen capture is refused.
#[derive(Clone, Copy, Debug, PartialEq, Eq, Structural)]
pub enum Error {
    PermissionDenied,
    NotSupported,
    UnknownError,
}

impl Error {
    /// The message shown for the error.
    pub fn message(&self) -> (s: &'static str)
        ensures
            s@ == (match *self {
                Error::PermissionDenied => "No permission"@,
                Error::NotSupported => "Screen share requires at least macOS 12.3"@,
                Error::UnknownError => "Unknown error occurred"@,
            }),
    {
        match self {
            Error::PermissionDenied => "No permission",
            Error::NotSupported => "Screen share requires at least macOS 12.3",
            Error::UnknownError => "Unknown error occurred",
        }
    }
}

/// Kinds of shareable content.
#[derive(Clone, Copy, Debug, PartialEq, Eq, Structural)]
pub enum SharableKind {
    Window,
    Display,
    App,
}

/// A shareable display or window, with the title shown to the user.
pub struct SharableItem {
    pub kind: SharableKind,
    pub title: String,
    /// Id of the display or window.
    pub id: i64,
}

/// A display as the capture framework reports it.
#[derive(Clone, Copy, Debug, PartialEq, Eq, Structural)]
pub struct DisplayInfo {
    pub display_id: u32,
    pub width: u64,
    pub height: u64,
}

/// The title of a display: `Primary Display (WxH)` or `Display (WxH)`.
pub open spec fn spec_display_title(is_primary: bool, width: u64, height: u64) -> Seq<char> {
    (if is_primary { "Primary Display"@ } else { "Display"@ }) + " ("@ + decimal(width as nat) + "x"@
        + decimal(height as nat) + ")"@
}

/// The shareable item of a display, titled after its size and whether it is the
/// main display.
pub fn display_item(display: DisplayInfo, primary_id: u32) -> (item: SharableItem)
    ensures
        item.kind == SharableKind::Display,
        item.id == display.display_id as i64,
        item.title@ == spec_display_title(display.display_id == primary_id, display.width, display.height),
{
    let is_primary = display.display_id == primary_id;
    let mut title = if is_primary { String::from_str("Primary Display") } else { String::from_str("Display") };
    title.append(" (");
    push_decimal(&mut title, display.width);
    title.append("x");
    push_decimal(&mut title, display.height);
    title.append(")");
    SharableItem { kind: SharableKind::Display, title, id: display.display_id as i64 }
}

/// The displays that can be shared, in the order reported; refused without the
/// screen-recording permission.
pub fn sharable_displays(has_permission: bool, displays: &[DisplayInfo], primary_id: u32) -> (r: Result<Vec<SharableItem>, Error>)
    ensures
        !has_permission ==> r == Err::<Vec<SharableItem>, Error>(Error::PermissionDenied),
        has_permission ==> (r matches Ok(items) && items@.len() == displays@.len() && forall|i: int|
            0 <= i < items@.len() ==> {
                &&& (#[trigger] items@[i]).kind == SharableKind::Display
                &&& items@[i].id == displays@[i].display_id as i64
                &&& items@[i].title@ == spec_display_title(
                    displays@[i].display_id == primary_id,
                    displays@[i].width,
                    displays@[i].height,
                )
            }),
{
    if !has_permission {
        return Err(Error::PermissionDenied);
    }
    let mut items: Vec<SharableItem> = Vec::new();
    let mut i: usize = 0;
    while i < displays.len()
        invariant
            i <= displays@.len(),
            items@.len() == i,
            forall|k: int| 0 <= k < i ==> {
                &&& (#[trigger] items@[k]).kind == SharableKind::Display
                &&& items@[k].id == displays@[k].display_id as i64
                &&& items@[k].title@ == spec_display_title(
                    displays@[k].display_id == primary_id,
                    displays@[k].width,
                    displays@[k].height,
                )
            },
        decreases displays@.len() - i,
    {
        items.push(display_item(displays[i], primary_id));
        i = i + 1;
    }
    Ok(items)
}

/// Whether a capture may start: the system must support screen capture, then the
/// app must hold the permission.
pub fn check_capture_allowed(is_supported: bool, has_permission: bool) -> (r: Result<(), Error>)
    ensures
        r == (if !is_supported {
            Err(Error::NotSupported)
        } else if !has_permission {
            Err(Error::PermissionDenied)
        } else {
            Ok(())
        }),
{
    if !is_supported {
        return Err(Error::NotSupported);
    }
    if !has_permission {
        return Err(Error::PermissionDenied);
    }
    Ok(())
}

} // verus!
