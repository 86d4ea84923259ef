use rbar::error::{RenderError, SurfaceError};

#[test]
fn acquisition_failures_are_reported_under_their_names() {
    assert_eq!(RenderError::from_acquire(SurfaceError::Timeout), RenderError::SurfaceAcquireTimeout);
    assert_eq!(RenderError::from_acquire(SurfaceError::Outdated), RenderError::SurfaceAcquireOutdated);
    assert_eq!(RenderError::from_acquire(SurfaceError::Lost), RenderError::SurfaceLost);
}

#[test]
fn other_acquisition_failures_count_as_a_lost_surface() {
    assert_eq!(RenderError::from_acquire(SurfaceError::OutOfMemory), RenderError::SurfaceLost);
    assert_eq!(RenderError::from_acquire(SurfaceError::Other), RenderError::SurfaceLost);
}

#[test]
fn only_timeout_and_outdated_are_recoverable() {
    assert!(RenderError::SurfaceAcquireTimeout.is_recoverable());
    assert!(RenderError::SurfaceAcquireOutdated.is_recoverable());
    assert!(!RenderError::SurfaceLost.is_recoverable());
    assert!(!RenderError::AdapterUnavailable.is_recoverable());
    assert!(!RenderError::DeviceCreationFailed.is_recoverable());
}

#[test]
fn every_failure_has_its_own_message() {
    let all = [
        RenderError::AdapterUnavailable,
        RenderError::DeviceCreationFailed,
        RenderError::SurfaceAcquireTimeout,
        RenderError::SurfaceAcquireOutdated,
        RenderError::SurfaceLost,
    ];
    for (i, a) in all.iter().enumerate() {
        assert!(!a.message().is_empty());
        for b in &all[i + 1..] {
            assert_ne!(a.message(), b.message());
        }
    }
    assert_eq!(RenderError::SurfaceLost.message(), "the surface is lost");
    assert_eq!(RenderError::AdapterUnavailable.message(), "no graphics adapter is available");
}
