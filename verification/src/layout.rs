//! Responsive layout selection for phone and 2-in-1 windows.
//!
//! Window widths are whole logical pixels; the breakpoints are whole numbers,
//! so `width >= breakpoint` reads the same on the integer part of a width.

use vstd::prelude::*;
use crate::text::{ascii_lower, ascii_lower_chars, chars_eq_str, chars_of, trim, trim_chars};

verus! {

/// Width from which an ordinary window switches to the desktop layout.
pub const DESKTOP_BREAKPOINT: u32 = 840;

/// Width from which a window of a device with a pointer switches to the desktop layout.
pub const POINTER_DESKTOP_BREAKPOINT: u32 = 840;

/// The device class the host platform reports.
#[derive(Clone, Copy, Debug, PartialEq, Eq, Structural)]
pub enum DeviceClass {
    Phone,
    TwoInOne,
    Other,
}

impl Default for DeviceClass {
    fn default() -> (d: Self)
        ensures
            d == DeviceClass::Other,
    {
        DeviceClass::Other
    }
}

/// The two page layouts.
#[derive(Clone, Copy, Debug, PartialEq, Eq, Structural)]
pub enum LayoutMode {
    Phone,
    Desktop,
}

/// The device class a platform device-type label names, after trimming and
/// ASCII lower-casing: "phone"/"default" and "2in1"/"pc"; anything else is `Other`.
pub open spec fn device_class_of_label(label: Seq<char>) -> DeviceClass {
    let n = ascii_lower(trim(label));
    if n == "phone"@ || n == "default"@ {
        DeviceClass::Phone
    } else if n == "2in1"@ || n == "pc"@ {
        DeviceClass::TwoInOne
    } else {
        DeviceClass::Other
    }
}

/// Reads the device-type label the platform reports ("phone", "2in1", ...).
pub fn parse_device_class(device_type: &str) -> (d: DeviceClass)
    ensures
        d == device_class_of_label(device_type@),
{
    let raw = chars_of(device_type);
    let trimmed = trim_chars(raw.as_slice());
    let n = ascii_lower_chars(trimmed.as_slice());
    if chars_eq_str(n.as_slice(), "phone") || chars_eq_str(n.as_slice(), "default") {
        DeviceClass::Phone
    } else if chars_eq_str(n.as_slice(), "2in1") || chars_eq_str(n.as_slice(), "pc") {
        DeviceClass::TwoInOne
    } else {
        DeviceClass::Other
    }
}

/// The breakpoint of a device class; `None` means the desktop layout is never used.
pub open spec fn desktop_breakpoint(device_class: DeviceClass, has_pointer: bool) -> Option<u32> {
    match device_class {
        DeviceClass::Phone => None,
        DeviceClass::TwoInOne => Some(POINTER_DESKTOP_BREAKPOINT),
        DeviceClass::Other => if has_pointer {
            Some(POINTER_DESKTOP_BREAKPOINT)
        } else {
            Some(DESKTOP_BREAKPOINT)
        },
    }
}

/// The layout a window of `width` logical pixels gets.
pub open spec fn layout_for(width: u32, has_pointer: bool, device_class: DeviceClass) -> LayoutMode {
    match desktop_breakpoint(device_class, has_pointer) {
        Some(b) => if width >= b {
            LayoutMode::Desktop
        } else {
            LayoutMode::Phone
        },
        None => LayoutMode::Phone,
    }
}

/// Chooses the layout for a window width, pointer presence and device class.
pub fn classify_layout(width: u32, has_pointer: bool, device_class: DeviceClass) -> (mode: LayoutMode)
    ensures
        mode == layout_for(width, has_pointer, device_class),
{
    let desktop_width: Option<u32> = match device_class {
        DeviceClass::Phone => None,
        DeviceClass::TwoInOne => Some(POINTER_DESKTOP_BREAKPOINT),
        DeviceClass::Other => if has_pointer {
            Some(POINTER_DESKTOP_BREAKPOINT)
        } else {
            Some(DESKTOP_BREAKPOINT)
        },
    };
    match desktop_width {
        Some(b) => if width >= b {
            LayoutMode::Desktop
        } else {
            LayoutMode::Phone
        },
        None => LayoutMode::Phone,
    }
}

/// Layout metrics of a page, in logical pixels.
#[derive(Clone, Copy, Debug)]
pub struct ResponsiveLayout {
    pub mode: LayoutMode,
    pub content_width: u32,
    pub page_padding: u32,
}

impl ResponsiveLayout {
    /// The metrics that belong to a layout mode: 640/16 on phones, 1180/24 on desktops.
    pub open spec fn spec_for_mode(mode: LayoutMode) -> ResponsiveLayout {
        match mode {
            LayoutMode::Phone => ResponsiveLayout { mode, content_width: 640, page_padding: 16 },
            LayoutMode::Desktop => ResponsiveLayout { mode, content_width: 1180, page_padding: 24 },
        }
    }

    /// The metrics of a layout mode.
    pub fn for_mode(mode: LayoutMode) -> (l: Self)
        ensures
            l == Self::spec_for_mode(mode),
    {
        match mode {
            LayoutMode::Phone => ResponsiveLayout { mode, content_width: 640, page_padding: 16 },
            LayoutMode::Desktop => ResponsiveLayout { mode, content_width: 1180, page_padding: 24 },
        }
    }

    /// The layout of the current window, from its width, whether a pointer
    /// device is attached, and the platform's device class.
    pub fn current(width: u32, has_pointer: bool, device_class: DeviceClass) -> (l: Self)
        ensures
            l == Self::spec_for_mode(layout_for(width, has_pointer, device_class)),
    {
        let mode = classify_layout(width, has_pointer, device_class);
        Self::for_mode(mode)
    }

    pub fn is_desktop(self) -> (b: bool)
        ensures
            b == (self.mode == LayoutMode::Desktop),
    {
        match self.mode {
            LayoutMode::Desktop => true,
            LayoutMode::Phone => false,
        }
    }

    /// Content width of a page that asks for `desktop_width` on desktops; phones keep theirs.
    pub fn content_max_width(self, desktop_width: u32) -> (w: u32)
        ensures
            w == (match self.mode {
                LayoutMode::Phone => self.content_width,
                LayoutMode::Desktop => desktop_width,
            }),
    {
        match self.mode {
            LayoutMode::Phone => self.content_width,
            LayoutMode::Desktop => desktop_width,
        }
    }
}

} // verus!
