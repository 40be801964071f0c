//! The display handles of `raw_window_handle`, declared so that contracts can speak of them.
//!
//! The variants of a display handle are read from the crate itself, and so is what the one of UIKit
//! holds; what the others hold is opaque.

use vstd::prelude::*;

verus! {

/// Declares `raw_window_handle::RawDisplayHandle` with its variants.
#[verifier::external_type_specification]
pub struct ExRawDisplayHandle(raw_window_handle::RawDisplayHandle);

/// Declares `raw_window_handle::HandleError`.
#[verifier::external_type_specification]
#[verifier::external_body]
pub struct ExHandleError(raw_window_handle::HandleError);

/// Specifies `raw_window_handle::UiKitDisplayHandle::new`, which takes nothing and makes the one
/// value of its type. Nothing is claimed of the call beyond its type.
pub assume_specification[ raw_window_handle::UiKitDisplayHandle::new ]() -> (handle:
    raw_window_handle::UiKitDisplayHandle)
;

/// Declares what the display handle of UIKit holds, which is nothing.
#[verifier::external_type_specification]
pub struct ExUiKitDisplayHandle(raw_window_handle::UiKitDisplayHandle);

/// Declares what the display handle of AppKit holds.
#[verifier::external_type_specification]
#[verifier::external_body]
pub struct ExAppKitDisplayHandle(raw_window_handle::AppKitDisplayHandle);

/// Declares what the display handle of Orbital holds.
#[verifier::external_type_specification]
#[verifier::external_body]
pub struct ExOrbitalDisplayHandle(raw_window_handle::OrbitalDisplayHandle);

/// Declares what the display handle of OpenHarmony holds.
#[verifier::external_type_specification]
#[verifier::external_body]
pub struct ExOhosDisplayHandle(raw_window_handle::OhosDisplayHandle);

/// Declares what the display handle of Xlib holds.
#[verifier::external_type_specification]
#[verifier::external_body]
pub struct ExXlibDisplayHandle(raw_window_handle::XlibDisplayHandle);

/// Declares what the display handle of XCB holds.
#[verifier::external_type_specification]
#[verifier::external_body]
pub struct ExXcbDisplayHandle(raw_window_handle::XcbDisplayHandle);

/// Declares what the display handle of Wayland holds.
#[verifier::external_type_specification]
#[verifier::external_body]
pub struct ExWaylandDisplayHandle(raw_window_handle::WaylandDisplayHandle);

/// Declares what the display handle of the Linux direct rendering manager holds.
#[verifier::external_type_specification]
#[verifier::external_body]
pub struct ExDrmDisplayHandle(raw_window_handle::DrmDisplayHandle);

/// Declares what the display handle of the Linux generic buffer manager holds.
#[verifier::external_type_specification]
#[verifier::external_body]
pub struct ExGbmDisplayHandle(raw_window_handle::GbmDisplayHandle);

/// Declares what the display handle of Windows holds.
#[verifier::external_type_specification]
#[verifier::external_body]
pub struct ExWindowsDisplayHandle(raw_window_handle::WindowsDisplayHandle);

/// Declares what the display handle of the web holds.
#[verifier::external_type_specification]
#[verifier::external_body]
pub struct ExWebDisplayHandle(raw_window_handle::WebDisplayHandle);

/// Declares what the display handle of Android holds.
#[verifier::external_type_specification]
#[verifier::external_body]
pub struct ExAndroidDisplayHandle(raw_window_handle::AndroidDisplayHandle);

/// Declares what the display handle of Haiku holds.
#[verifier::external_type_specification]
#[verifier::external_body]
pub struct ExHaikuDisplayHandle(raw_window_handle::HaikuDisplayHandle);

} // verus!
