//! The two backends and the choice between them.
use vstd::prelude::*;
use crate::state::Backend;
use crate::utils::text::str_eq;

pub mod drm;
pub mod winit;

use self::drm::DrmBackend;
use self::winit::WinitBackend;

verus! {

/// What a choice of backend comes to.
#[derive(Clone, Copy, Debug, PartialEq, Eq, Structural)]
pub enum BackendChoice {
    /// Start the backend that drives the hardware directly.
    Drm,
    /// Start the backend that runs in a window.
    Winit,
    /// The name is that of the X11 backend, which is reserved and not
    /// there yet: say so, and start nothing.
    Unimplemented,
    /// The name is no backend's: say so, and start nothing.
    Unknown,
}

/// What the name of a backend comes to.
pub open spec fn backend_named(name: Seq<char>) -> BackendChoice {
    if name == "drm"@ {
        BackendChoice::Drm
    } else if name == "winit"@ {
        BackendChoice::Winit
    } else if name == "x11"@ {
        BackendChoice::Unimplemented
    } else {
        BackendChoice::Unknown
    }
}

/// The backend that the environment calls for: the window when a Wayland
/// display is announced, else the window when an X display is announced,
/// else the hardware.
pub open spec fn auto_backend(wayland_display: bool, x_display: bool) -> BackendChoice {
    if wayland_display {
        BackendChoice::Winit
    } else if x_display {
        BackendChoice::Winit
    } else {
        BackendChoice::Drm
    }
}

/// The names of the three backends are three different strings.
pub proof fn lemma_backend_names()
    ensures
        backend_named("drm"@) == BackendChoice::Drm,
        backend_named("winit"@) == BackendChoice::Winit,
        backend_named("x11"@) == BackendChoice::Unimplemented,
{
    reveal_strlit("drm");
    reveal_strlit("winit");
    reveal_strlit("x11");
    assert("drm"@.len() == 3 && "winit"@.len() == 5 && "x11"@.len() == 3);
    assert("drm"@[0] == 'd' && "x11"@[0] == 'x');
}

/// Decides which backend a name stands for.
pub fn backend_init_from_name(name: &str) -> (choice: BackendChoice)
    ensures
        choice == backend_named(name@),
{
    if str_eq(name, "drm") {
        BackendChoice::Drm
    } else if str_eq(name, "winit") {
        BackendChoice::Winit
    } else if str_eq(name, "x11") {
        BackendChoice::Unimplemented
    } else {
        BackendChoice::Unknown
    }
}

/// Decides which backend to start when the user named none.
///
/// `wayland_display` says whether the environment announces a Wayland
/// display, `x_display` whether it announces an X display. The answer
/// depends on nothing else, and is always one of the two backends that are
/// there.
pub fn backend_autoinit(wayland_display: bool, x_display: bool) -> (choice: BackendChoice)
    ensures
        choice == auto_backend(wayland_display, x_display),
        choice == BackendChoice::Winit || choice == BackendChoice::Drm,
{
    proof {
        lemma_backend_names();
    }
    if wayland_display || x_display {
        backend_init_from_name("winit")
    } else {
        backend_init_from_name("drm")
    }
}

/// The backend of a process: one of the two, for as long as it runs.
pub enum BackendHandle {
    Drm(DrmBackend),
    Winit(WinitBackend),
}

impl BackendHandle {
    /// Which of the backends this is.
    pub fn kind(&self) -> (choice: BackendChoice)
        ensures
            choice == (match self {
                BackendHandle::Drm(_) => BackendChoice::Drm,
                BackendHandle::Winit(_) => BackendChoice::Winit,
            }),
    {
        match self {
            BackendHandle::Drm(_) => BackendChoice::Drm,
            BackendHandle::Winit(_) => BackendChoice::Winit,
        }
    }
}

impl Backend for BackendHandle {
    open spec fn seat_name_spec(&self) -> Seq<char> {
        match self {
            BackendHandle::Drm(backend) => backend.seat_name_spec(),
            BackendHandle::Winit(backend) => backend.seat_name_spec(),
        }
    }

    fn seat_name(&self) -> (name: String) {
        match self {
            BackendHandle::Drm(backend) => backend.seat_name(),
            BackendHandle::Winit(backend) => backend.seat_name(),
        }
    }
}

} // verus!
