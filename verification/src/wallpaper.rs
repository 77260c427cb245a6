//! Display-server detection and the wallpaper window description.
use vstd::prelude::*;
use crate::error::Result;
use crate::text::str_eq;

verus! {

/// Display server type.
#[derive(Debug, Clone, Copy, PartialEq, Eq, Structural)]
pub enum DisplayServer {
    X11,
    Wayland,
}

/// The display server the session variables point to: `XDG_SESSION_TYPE`
/// decides when it reads `x11` or `wayland`; otherwise a set
/// `WAYLAND_DISPLAY` means Wayland; otherwise X11, whether or not `DISPLAY`
/// is set.
pub open spec fn detected_server(
    session_type: Option<Seq<char>>,
    wayland_display_set: bool,
) -> DisplayServer {
    if session_type == Some("x11"@) {
        DisplayServer::X11
    } else if session_type == Some("wayland"@) {
        DisplayServer::Wayland
    } else if wayland_display_set {
        DisplayServer::Wayland
    } else {
        DisplayServer::X11
    }
}

impl DisplayServer {
    /// Detect the display server from the session's environment:
    /// `session_type` is `XDG_SESSION_TYPE` (if set and readable),
    /// `wayland_display_set` and `display_set` tell whether
    /// `WAYLAND_DISPLAY` and `DISPLAY` are set. Detection always succeeds;
    /// X11 is the fallback.
    pub fn detect(
        session_type: Option<&str>,
        wayland_display_set: bool,
        display_set: bool,
    ) -> (r: Result<DisplayServer>)
        ensures
            r matches Ok(d) && d == detected_server(
                match session_type {
                    Some(s) => Some(s@),
                    None => None,
                },
                wayland_display_set,
            ),
    {
        if let Some(s) = session_type {
            if str_eq(s, "x11") {
                return Ok(DisplayServer::X11);
            }
            if str_eq(s, "wayland") {
                return Ok(DisplayServer::Wayland);
            }
        }
        if wayland_display_set {
            return Ok(DisplayServer::Wayland);
        }
        if display_set {
            return Ok(DisplayServer::X11);
        }
        Ok(DisplayServer::X11)
    }
}

/// Wallpaper window configuration.
pub struct WallpaperWindow {
    pub display_server: DisplayServer,
    pub width: u32,
    pub height: u32,
}

impl WallpaperWindow {
    /// Create a new wallpaper window configuration.
    pub fn new(display_server: DisplayServer, width: u32, height: u32) -> (w: Self)
        ensures
            w.display_server == display_server,
            w.width == width,
            w.height == height,
    {
        WallpaperWindow { display_server, width, height }
    }

    /// Initialize the wallpaper window properties for its display server.
    /// The desktop-window hints are applied by the compositor or by the
    /// X11 pinning of the renderer, so this step always succeeds.
    pub fn init(&self) -> (r: Result<()>)
        ensures
            r is Ok,
    {
        match self.display_server {
            DisplayServer::X11 => self.init_x11(),
            DisplayServer::Wayland => self.init_wayland(),
        }
    }

    /// X11 EWMH properties: nothing to set up front.
    fn init_x11(&self) -> (r: Result<()>)
        ensures
            r is Ok,
    {
        Ok(())
    }

    /// Wayland layer-shell properties: nothing to set up front.
    fn init_wayland(&self) -> (r: Result<()>)
        ensures
            r is Ok,
    {
        Ok(())
    }
}

} // verus!
