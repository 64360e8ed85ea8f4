use vstd::prelude::*;

use crate::text::{decimal, push_decimal};

verus! {

/// The list of known capture backends to the library.
/// - `Auto` is special - it tells the Camera struct to automatically choose a backend most
///   suited for the current platform.
/// - `AVFoundation` - Uses `AVFoundation` on Mac.
/// - `Video4Linux` - `Video4Linux2`, a linux specific backend.
/// - `UniversalVideoClass` - Universal Video Class. Platform agnostic.
/// - `MediaFoundation` - MSMF, Windows only.
/// - `OpenCv` - Uses `OpenCV` to capture. Platform agnostic.
/// - `GStreamer` - Uses `GStreamer` RTP to capture. Platform agnostic.
#[derive(Clone, Copy, Debug, PartialEq, Eq, Structural)]
pub enum CaptureAPIBackend {
    Auto,
    AVFoundation,
    Video4Linux,
    UniversalVideoClass,
    MediaFoundation,
    OpenCv,
    GStreamer,
}

/// The name of a backend.
pub open spec fn backend_text(b: CaptureAPIBackend) -> Seq<char> {
    match b {
        CaptureAPIBackend::Auto => "Auto"@,
        CaptureAPIBackend::AVFoundation => "AVFoundation"@,
        CaptureAPIBackend::Video4Linux => "Video4Linux"@,
        CaptureAPIBackend::UniversalVideoClass => "UniversalVideoClass"@,
        CaptureAPIBackend::MediaFoundation => "MediaFoundation"@,
        CaptureAPIBackend::OpenCv => "OpenCv"@,
        CaptureAPIBackend::GStreamer => "GStreamer"@,
    }
}

impl CaptureAPIBackend {
    /// The name of this backend.
    pub fn to_string(&self) -> (s: String)
        ensures
            s@ == backend_text(*self),
    {
        match self {
            CaptureAPIBackend::Auto => "Auto".to_string(),
            CaptureAPIBackend::AVFoundation => "AVFoundation".to_string(),
            CaptureAPIBackend::Video4Linux => "Video4Linux".to_string(),
            CaptureAPIBackend::UniversalVideoClass => "UniversalVideoClass".to_string(),
            CaptureAPIBackend::MediaFoundation => "MediaFoundation".to_string(),
            CaptureAPIBackend::OpenCv => "OpenCv".to_string(),
            CaptureAPIBackend::GStreamer => "GStreamer".to_string(),
        }
    }
}

/// The `OpenCV` backend supports both native cameras and IP Cameras, so this is an enum to
/// differentiate them.
/// The `IPCamera`'s string follows the pattern `<protocol>://<IP>:<port>/`,
/// but please consult the manufacturer's specification for more details.
/// The index is a standard webcam index.
#[derive(Clone, Debug, PartialEq)]
pub enum CameraIndexType {
    Index(u32),
    IPCamera(String),
}

/// The text of a [`CameraIndexType`]: the index in decimal, or the address.
pub open spec fn camera_index_text(i: CameraIndexType) -> Seq<char> {
    match i {
        CameraIndexType::Index(idx) => decimal(idx as nat),
        CameraIndexType::IPCamera(ip) => ip@,
    }
}

impl CameraIndexType {
    /// The index in decimal, or the address of the IP camera.
    pub fn to_string(&self) -> (s: String)
        ensures
            s@ == camera_index_text(*self),
    {
        match self {
            CameraIndexType::Index(idx) => {
                let mut s = String::new();
                push_decimal(&mut s, *idx as u64);
                s
            },
            CameraIndexType::IPCamera(ip) => ip.clone(),
        }
    }
}

} // verus!
