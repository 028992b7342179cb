//! A member's stored reading preferences, per device class.

use vstd::prelude::*;

use crate::display::SectionDisplay;

verus! {

/// The reader's colour theme.
#[derive(Debug, Clone, Copy, PartialEq, Eq, Structural)]
pub enum ReaderColor {
    Default,
    Black,
}

impl Default for ReaderColor {
    fn default() -> (r: Self)
        ensures
            r == ReaderColor::Default,
    {
        ReaderColor::Default
    }
}

/// How a member reads on one device class: progress display, full-screen
/// behaviour, viewport size, text size, theme, and the stored forms of the
/// display mode and section-load policy.
#[derive(Debug, Clone, Copy, PartialEq, Eq, Structural)]
pub struct MemberReaderPreferences {
    pub always_show_progress: bool,
    pub auto_full_screen: bool,
    pub default_full_screen: bool,
    pub width: u32,
    pub height: u32,
    pub text_size: u32,
    pub color: ReaderColor,
    pub display_type: u8,
    pub load_type: u8,
}

/// The preferences a member starts with.
pub open spec fn spec_default_reader_prefs() -> MemberReaderPreferences {
    MemberReaderPreferences {
        always_show_progress: false,
        auto_full_screen: false,
        default_full_screen: false,
        width: 1040u32,
        height: 548u32,
        text_size: 0u32,
        color: ReaderColor::Default,
        display_type: 1u8,
        load_type: 1u8,
    }
}

impl Default for MemberReaderPreferences {
    fn default() -> (r: Self)
        ensures
            r == spec_default_reader_prefs(),
            r == (MemberReaderPreferences {
                always_show_progress: false,
                auto_full_screen: false,
                default_full_screen: false,
                width: 1040u32,
                height: 548u32,
                text_size: 0u32,
                color: ReaderColor::Default,
                display_type: 1u8,
                load_type: 1u8,
            }),
    {
        MemberReaderPreferences {
            always_show_progress: false,
            auto_full_screen: false,
            default_full_screen: false,
            width: 1040,
            height: 548,
            text_size: 0,
            color: ReaderColor::Default,
            // The double-page layout.
            display_type: 1,
            // Load sections selectively, near the reading position.
            load_type: 1,
        }
    }
}

impl MemberReaderPreferences {
    /// The display mode these preferences select.
    pub fn display_mode(&self) -> (r: SectionDisplay)
        ensures
            r == match self.display_type {
                0u8 => SectionDisplay::Single,
                2u8 => SectionDisplay::Scroll,
                _ => SectionDisplay::Double,
            },
    {
        SectionDisplay::from_u8(self.display_type)
    }
}

/// A member's preferences on one device class.
#[derive(Debug, Clone, Copy, PartialEq, Eq, Structural)]
pub struct MemberBasicPreferences {
    pub reader: MemberReaderPreferences,
}

impl Default for MemberBasicPreferences {
    fn default() -> (r: Self)
        ensures
            r.reader == spec_default_reader_prefs(),
    {
        MemberBasicPreferences { reader: MemberReaderPreferences::default() }
    }
}

/// A member's stored preferences: a format version and one preference set
/// per device class.
#[derive(Debug, Clone, Copy, PartialEq, Eq, Structural)]
pub struct MemberPreferences {
    pub version: usize,
    pub desktop: MemberBasicPreferences,
    pub mobile: MemberBasicPreferences,
}

impl Default for MemberPreferences {
    fn default() -> (r: Self)
        ensures
            r.version == 0,
            r.desktop.reader == spec_default_reader_prefs(),
            r.mobile.reader == spec_default_reader_prefs(),
    {
        MemberPreferences {
            version: 0,
            desktop: MemberBasicPreferences::default(),
            mobile: MemberBasicPreferences::default(),
        }
    }
}

} // verus!
