use waysight::backend::drm::DrmBackend;
use waysight::backend::winit::WinitBackend;
use waysight::backend::{backend_autoinit, backend_init_from_name, BackendChoice, BackendHandle};
use waysight::state::Backend;

#[test]
fn autoinit_covers_all_four_combinations() {
    assert_eq!(backend_autoinit(true, true), BackendChoice::Winit);
    assert_eq!(backend_autoinit(true, false), BackendChoice::Winit);
    assert_eq!(backend_autoinit(false, true), BackendChoice::Winit);
    assert_eq!(backend_autoinit(false, false), BackendChoice::Drm);
}

#[test]
fn autoinit_is_deterministic() {
    for nested in [false, true] {
        for legacy in [false, true] {
            assert_eq!(backend_autoinit(nested, legacy), backend_autoinit(nested, legacy));
        }
    }
}

#[test]
fn names_of_the_backends() {
    assert_eq!(backend_init_from_name("drm"), BackendChoice::Drm);
    assert_eq!(backend_init_from_name("winit"), BackendChoice::Winit);
}

#[test]
fn x11_is_reserved_and_not_silent() {
    assert_eq!(backend_init_from_name("x11"), BackendChoice::Unimplemented);
}

#[test]
fn other_names_are_unknown() {
    for name in ["", "DRM", "drm ", "wayland", "winit2", "x", "x1", "x111"] {
        assert_eq!(backend_init_from_name(name), BackendChoice::Unknown);
    }
}

#[test]
fn winit_seat_name_is_fixed() {
    assert_eq!(WinitBackend {}.seat_name(), "waysight-seat");
}

#[test]
fn drm_seat_name_is_the_session_seat() {
    let backend = DrmBackend {
        primary_gpu: 1,
        devices: std::collections::HashMap::new(),
        seat: "seat0".to_string(),
    };
    assert_eq!(backend.seat_name(), "seat0");
}

#[test]
fn backend_handle_answers_for_its_variant() {
    let winit = BackendHandle::Winit(WinitBackend {});
    assert_eq!(winit.kind(), BackendChoice::Winit);
    assert_eq!(winit.seat_name(), "waysight-seat");
    let drm = BackendHandle::Drm(DrmBackend {
        primary_gpu: 7,
        devices: std::collections::HashMap::new(),
        seat: "seat1".to_string(),
    });
    assert_eq!(drm.kind(), BackendChoice::Drm);
    assert_eq!(drm.seat_name(), "seat1");
}
