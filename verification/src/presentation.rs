//! Window presentation enforcer: the window attributes that are put back on
//! every tick, whatever the window system or the user did in between.
//!
//! The attributes are the style and extended-style words of a Win32 window.
//! This module only says what they are; writing them to a live window is the
//! embedding program's part.

use vstd::prelude::*;

verus! {

/// Win32 `WS_VISIBLE`: the window is shown.
pub const WS_VISIBLE: u32 = 0x1000_0000;

/// Win32 `WS_CLIPSIBLINGS`: sibling windows are clipped against each other.
pub const WS_CLIPSIBLINGS: u32 = 0x0400_0000;

/// Win32 `WS_CLIPCHILDREN`: the area of child windows is left out when
/// drawing.
pub const WS_CLIPCHILDREN: u32 = 0x0200_0000;

/// Win32 `WS_CAPTION`: the title bar, made of the border bit and the
/// dialog-frame bit. The overlay leaves both clear.
pub const WS_CAPTION: u32 = 0x00C0_0000;

/// Win32 `WS_BORDER`: the thin-border bit, part of [`WS_CAPTION`]. The
/// overlay leaves it clear.
pub const WS_BORDER: u32 = 0x0080_0000;

/// Win32 `WS_SYSMENU`: the window has a system menu.
pub const WS_SYSMENU: u32 = 0x0008_0000;

/// Win32 `WS_MINIMIZEBOX`: the window can be minimized.
pub const WS_MINIMIZEBOX: u32 = 0x0002_0000;

/// Win32 `WS_EX_TOPMOST`: the window stays above all others.
pub const WS_EX_TOPMOST: u32 = 0x0000_0008;

/// Win32 `WS_EX_ACCEPTFILES`: files may be dropped on the window.
pub const WS_EX_ACCEPTFILES: u32 = 0x0000_0010;

/// Win32 `WS_EX_TRANSPARENT`: pointer input falls through to what lies
/// beneath.
pub const WS_EX_TRANSPARENT: u32 = 0x0000_0020;

/// Win32 `WS_EX_TOOLWINDOW`: the window has no taskbar icon.
pub const WS_EX_TOOLWINDOW: u32 = 0x0000_0080;

/// Win32 `WS_EX_WINDOWEDGE`: the raised-edge bit. The overlay leaves it
/// clear.
pub const WS_EX_WINDOWEDGE: u32 = 0x0000_0100;

/// Win32 `WS_EX_LAYERED`: the window is composited, so undrawn pixels show
/// the desktop.
pub const WS_EX_LAYERED: u32 = 0x0008_0000;

/// The style word of the overlay: system menu, sibling and child clipping,
/// minimize box and visible, and nothing else.
pub const OVERLAY_STYLE: u32 = 0x160A_0000;

/// The extended-style word of the overlay: click-through, layered, topmost,
/// tool window and accepts files, and nothing else.
pub const OVERLAY_EX_STYLE: u32 = 0x0008_00B8;

/// The screen position the overlay is held at.
pub const ORIGIN: (i32, i32) = (0, 0);

/// A window's style word and extended-style word.
#[derive(Clone, Copy, Debug, PartialEq, Eq)]
pub struct PresentationFlags {
    pub style: u32,
    pub ex_style: u32,
}

/// What is to be applied to the window: where it goes and how it presents.
#[derive(Clone, Copy, Debug, PartialEq, Eq)]
pub struct PresentationCommand {
    pub position: (i32, i32),
    pub flags: PresentationFlags,
}

/// How the window is asked for when the program starts. Nothing of it can
/// be changed while the overlay runs.
#[derive(Clone, Copy, Debug, PartialEq, Eq)]
pub struct StartupConfig {
    pub width: i32,
    pub height: i32,
    pub decorations: bool,
    pub mouse_passthrough: bool,
    pub vsync: bool,
    pub transparent: bool,
    pub always_on_top: bool,
    pub fullscreen: bool,
}

/// The window of the overlay: 1500 by 1000 pixels, without decorations,
/// click-through, paced by vsync, transparent, above all other windows,
/// and not fullscreen.
pub open spec fn overlay_startup() -> StartupConfig {
    StartupConfig {
        width: 1500,
        height: 1000,
        decorations: false,
        mouse_passthrough: true,
        vsync: true,
        transparent: true,
        always_on_top: true,
        fullscreen: false,
    }
}

/// The configuration the overlay's window is created with.
pub fn startup_config() -> (config: StartupConfig)
    ensures
        config == overlay_startup(),
{
    StartupConfig {
        width: 1500,
        height: 1000,
        decorations: false,
        mouse_passthrough: true,
        vsync: true,
        transparent: true,
        always_on_top: true,
        fullscreen: false,
    }
}

/// The flags of the overlay.
pub open spec fn overlay_flags() -> PresentationFlags {
    PresentationFlags { style: OVERLAY_STYLE, ex_style: OVERLAY_EX_STYLE }
}

/// The one command that is ever issued: the overlay's flags, at the origin.
pub open spec fn overlay_presentation() -> PresentationCommand {
    PresentationCommand { position: (0, 0), flags: overlay_flags() }
}

impl PresentationFlags {
    /// All of `bits` are set in the style word.
    pub open spec fn has_style(self, bits: u32) -> bool {
        self.style & bits == bits
    }

    /// All of `bits` are set in the extended-style word.
    pub open spec fn has_ex_style(self, bits: u32) -> bool {
        self.ex_style & bits == bits
    }

    /// None of `bits` is set in the style word.
    pub open spec fn lacks_style(self, bits: u32) -> bool {
        self.style & bits == 0
    }

    /// None of `bits` is set in the extended-style word.
    pub open spec fn lacks_ex_style(self, bits: u32) -> bool {
        self.ex_style & bits == 0
    }

    /// The window has no title bar, no border and no raised edge.
    pub open spec fn borderless(self) -> bool {
        self.lacks_style(WS_CAPTION) && self.lacks_ex_style(WS_EX_WINDOWEDGE)
    }

    /// Pointer input falls through the window.
    pub open spec fn click_through(self) -> bool {
        self.has_ex_style(WS_EX_TRANSPARENT)
    }

    /// The window is composited over the desktop.
    pub open spec fn layered(self) -> bool {
        self.has_ex_style(WS_EX_LAYERED)
    }

    /// The window stays above all others.
    pub open spec fn topmost(self) -> bool {
        self.has_ex_style(WS_EX_TOPMOST)
    }

    /// The window has no taskbar icon.
    pub open spec fn off_taskbar(self) -> bool {
        self.has_ex_style(WS_EX_TOOLWINDOW)
    }

    /// Files may be dropped on the window.
    pub open spec fn accepts_files(self) -> bool {
        self.has_ex_style(WS_EX_ACCEPTFILES)
    }

    /// The window is shown.
    pub open spec fn visible(self) -> bool {
        self.has_style(WS_VISIBLE)
    }

    /// The flags of the overlay, put together from the single attributes:
    /// system menu, sibling and child clipping, minimize box and visible;
    /// click-through, layered, topmost, tool window and accepts files. No
    /// caption, border or raised-edge bit is among them: the window is
    /// borderless.
    pub fn overlay() -> (flags: PresentationFlags)
        ensures
            flags == overlay_flags(),
    {
        let style: u32 = WS_SYSMENU | WS_CLIPSIBLINGS | WS_CLIPCHILDREN | WS_MINIMIZEBOX
            | WS_VISIBLE;
        let ex_style: u32 = WS_EX_TRANSPARENT | WS_EX_LAYERED | WS_EX_TOPMOST
            | WS_EX_TOOLWINDOW | WS_EX_ACCEPTFILES;
        assert(0x0008_0000u32 | 0x0400_0000 | 0x0200_0000 | 0x0002_0000 | 0x1000_0000
            == 0x160A_0000) by (bit_vector);
        assert(0x0000_0020u32 | 0x0008_0000 | 0x0000_0008 | 0x0000_0080 | 0x0000_0010
            == 0x0008_00B8) by (bit_vector);
        PresentationFlags { style, ex_style }
    }

    /// Whether all of `bits` are set in the style word.
    pub fn contains_style(&self, bits: u32) -> (yes: bool)
        ensures
            yes == self.has_style(bits),
    {
        self.style & bits == bits
    }

    /// Whether all of `bits` are set in the extended-style word.
    pub fn contains_ex_style(&self, bits: u32) -> (yes: bool)
        ensures
            yes == self.has_ex_style(bits),
    {
        self.ex_style & bits == bits
    }

    /// Whether the window has no title bar, no border and no raised edge.
    pub fn is_borderless(&self) -> (yes: bool)
        ensures
            yes == self.borderless(),
    {
        self.style & WS_CAPTION == 0 && self.ex_style & WS_EX_WINDOWEDGE == 0
    }
}

/// The command of one tick. It does not look at anything: every tick gets
/// the same flags and the same position, so applying it again changes
/// nothing that an earlier application had set. The flags keep the window
/// borderless, click-through and topmost.
pub fn enforce() -> (command: PresentationCommand)
    ensures
        command == overlay_presentation(),
        command.position == (0i32, 0i32),
        command.flags.borderless(),
        command.flags.click_through(),
        command.flags.topmost(),
{
    proof {
        lemma_overlay_attributes();
    }
    PresentationCommand { position: ORIGIN, flags: PresentationFlags::overlay() }
}

/// What the overlay's flags say: the window is borderless (no caption, no
/// border, no raised edge), visible, composited, click-through, topmost, off
/// the taskbar and accepts dropped files; it has a system menu and a minimize
/// box and clips siblings and children; each word is exactly the union of
/// its attributes; and both words are non-negative when read as signed
/// 32-bit values, which is how the window system takes them.
pub proof fn lemma_overlay_attributes()
    ensures
        overlay_flags().borderless(),
        overlay_flags().lacks_style(WS_CAPTION),
        overlay_flags().lacks_style(WS_BORDER),
        overlay_flags().lacks_ex_style(WS_EX_WINDOWEDGE),
        overlay_flags().visible(),
        overlay_flags().layered(),
        overlay_flags().click_through(),
        overlay_flags().topmost(),
        overlay_flags().off_taskbar(),
        overlay_flags().accepts_files(),
        overlay_flags().has_style(WS_MINIMIZEBOX),
        overlay_flags().has_style(WS_SYSMENU),
        overlay_flags().has_style(WS_CLIPSIBLINGS),
        overlay_flags().has_style(WS_CLIPCHILDREN),
        overlay_flags().style == WS_SYSMENU | WS_CLIPSIBLINGS | WS_CLIPCHILDREN | WS_MINIMIZEBOX
            | WS_VISIBLE,
        overlay_flags().ex_style == WS_EX_TRANSPARENT | WS_EX_LAYERED | WS_EX_TOPMOST
            | WS_EX_TOOLWINDOW | WS_EX_ACCEPTFILES,
        overlay_flags().style <= i32::MAX,
        overlay_flags().ex_style <= i32::MAX,
{
    assert(0x160A_0000u32 & 0x00C0_0000 == 0) by (bit_vector);
    assert(0x160A_0000u32 & 0x0080_0000 == 0) by (bit_vector);
    assert(0x0008_00B8u32 & 0x0000_0100 == 0) by (bit_vector);
    assert(0x160A_0000u32 & 0x1000_0000 == 0x1000_0000) by (bit_vector);
    assert(0x160A_0000u32 & 0x0002_0000 == 0x0002_0000) by (bit_vector);
    assert(0x160A_0000u32 & 0x0008_0000 == 0x0008_0000) by (bit_vector);
    assert(0x160A_0000u32 & 0x0400_0000 == 0x0400_0000) by (bit_vector);
    assert(0x160A_0000u32 & 0x0200_0000 == 0x0200_0000) by (bit_vector);
    assert(0x0008_00B8u32 & 0x0008_0000 == 0x0008_0000) by (bit_vector);
    assert(0x0008_00B8u32 & 0x0000_0020 == 0x0000_0020) by (bit_vector);
    assert(0x0008_00B8u32 & 0x0000_0008 == 0x0000_0008) by (bit_vector);
    assert(0x0008_00B8u32 & 0x0000_0080 == 0x0000_0080) by (bit_vector);
    assert(0x0008_00B8u32 & 0x0000_0010 == 0x0000_0010) by (bit_vector);
    assert(0x0008_0000u32 | 0x0400_0000 | 0x0200_0000 | 0x0002_0000 | 0x1000_0000
        == 0x160A_0000) by (bit_vector);
    assert(0x0000_0020u32 | 0x0008_0000 | 0x0000_0008 | 0x0000_0080 | 0x0000_0010
        == 0x0008_00B8) by (bit_vector);
}

} // verus!
