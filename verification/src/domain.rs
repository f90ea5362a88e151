//! The identity and credentials under which a camera is reached.

use vstd::prelude::*;

verus! {

/// Identifier of a camera.
pub type CameraId = usize;

/// Frames per second, as a whole number.
pub type FpsValue = u64;

/// The task a camera performs at its site.
#[derive(Debug, Clone, Copy, PartialEq, Eq, Structural)]
pub enum CameraRole {
    View,
    Register,
    Other,
}

/// The manufacturer of a camera.
#[derive(Debug, Clone, Copy, PartialEq, Eq, Structural)]
pub enum CameraModelName {
    Axis,
    Dahua,
    Stilsoft,
    Hikvision,
    Other,
}

/// Address and credentials of a camera; each part may be missing.
#[derive(Debug, Clone)]
pub struct OnvifParams {
    pub host: Option<String>,
    pub username: Option<String>,
    pub password: Option<String>,
}

impl OnvifParams {
    /// Parameters with no part set.
    pub fn unset() -> (params: Self)
        ensures
            params.host is None,
            params.username is None,
            params.password is None,
    {
        OnvifParams { host: None, username: None, password: None }
    }
}

/// The profile of one camera, as its owner records it.
#[derive(Debug, Clone)]
pub struct Resource {
    pub id: CameraId,
    pub model_name: CameraModelName,
    pub role: CameraRole,
    pub onvif: Option<OnvifParams>,
}

/// The view of an optional string: the characters, where there are any.
pub open spec fn opt_view(s: Option<String>) -> Option<Seq<char>> {
    match s {
        Some(text) => Some(text@),
        None => None,
    }
}

} // verus!
