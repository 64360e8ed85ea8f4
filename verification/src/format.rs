use vstd::prelude::*;

use crate::text::{decimal, push_decimal};

verus! {

/// Describes a frame format (i.e. how the bytes themselves are encoded). Often called `FourCC`.
/// YUYV is a mathematical color space.
/// MJPEG is a motion-jpeg compressed frame, it allows for high frame rates.
#[derive(Copy, Clone, Debug, PartialEq, Eq, Structural, Hash, PartialOrd, Ord)]
pub enum FrameFormat {
    MJPEG,
    YUYV,
}

/// The text of a [`FrameFormat`].
pub open spec fn frame_format_text(f: FrameFormat) -> Seq<char> {
    match f {
        FrameFormat::MJPEG => "MJPEG"@,
        FrameFormat::YUYV => "YUYV"@,
    }
}

/// The `FourCC` code of a [`FrameFormat`], as the four bytes that name it.
pub open spec fn fourcc_spec(f: FrameFormat) -> Seq<u8> {
    match f {
        FrameFormat::MJPEG => seq![77u8, 74u8, 80u8, 71u8],
        FrameFormat::YUYV => seq![89u8, 85u8, 89u8, 86u8],
    }
}

impl FrameFormat {
    /// The name of the format: `MJPEG` or `YUYV`.
    pub fn to_string(&self) -> (s: String)
        ensures
            s@ == frame_format_text(*self),
    {
        match self {
            FrameFormat::MJPEG => "MJPEG".to_string(),
            FrameFormat::YUYV => "YUYV".to_string(),
        }
    }

    /// The `FourCC` code of the format: `MJPG` for MJPEG, `YUYV` for YUYV.
    pub fn fourcc(&self) -> (code: [u8; 4])
        ensures
            code@ == fourcc_spec(*self),
    {
        let code = match self {
            FrameFormat::MJPEG => [77u8, 74u8, 80u8, 71u8],
            FrameFormat::YUYV => [89u8, 85u8, 89u8, 86u8],
        };
        assert(code@ =~= fourcc_spec(*self));
        code
    }
}

/// Describes a Resolution.
/// This struct consists of a Width and a Height value (x,y).
/// Note: the ordering of this struct is flipped from highest to lowest.
#[derive(Copy, Clone, Debug, Eq, PartialEq, Structural, Hash)]
pub struct Resolution {
    pub width_x: u32,
    pub height_y: u32,
}

/// The text of a [`Resolution`]: `{width}x{height}`.
pub open spec fn resolution_text(r: Resolution) -> Seq<char> {
    decimal(r.width_x as nat) + "x"@ + decimal(r.height_y as nat)
}

impl Resolution {
    /// Create a new resolution from 2 image size coordinates.
    pub fn new(x: u32, y: u32) -> (r: Self)
        ensures
            r.width_x == x,
            r.height_y == y,
    {
        Resolution { width_x: x, height_y: y }
    }

    /// Get the width of Resolution
    pub fn width(self) -> (w: u32)
        ensures
            w == self.width_x,
    {
        self.width_x
    }

    /// Get the height of Resolution
    pub fn height(self) -> (h: u32)
        ensures
            h == self.height_y,
    {
        self.height_y
    }

    /// Get the x (width) of Resolution
    pub fn x(self) -> (x: u32)
        ensures
            x == self.width_x,
    {
        self.width_x
    }

    /// Get the y (height) of Resolution
    pub fn y(self) -> (y: u32)
        ensures
            y == self.height_y,
    {
        self.height_y
    }

    /// The resolution as text, `{width}x{height}`.
    pub fn to_string(&self) -> (s: String)
        ensures
            s@ == resolution_text(*self),
    {
        let mut s = String::new();
        push_decimal(&mut s, self.width_x as u64);
        s.append("x");
        push_decimal(&mut s, self.height_y as u64);
        s
    }
}

/// What a [`CameraFormat`] holds.
pub struct CameraFormatView {
    pub resolution: Resolution,
    pub format: FrameFormat,
    pub framerate: u32,
}

/// This is a convenience struct that holds all information about the format of a webcam stream.
/// It consists of a [`Resolution`], [`FrameFormat`], and a framerate.
#[derive(Copy, Clone, Debug, Hash, PartialEq)]
pub struct CameraFormat {
    resolution: Resolution,
    format: FrameFormat,
    framerate: u32,
}

impl View for CameraFormat {
    type V = CameraFormatView;

    closed spec fn view(&self) -> CameraFormatView {
        CameraFormatView {
            resolution: self.resolution,
            format: self.format,
            framerate: self.framerate,
        }
    }
}

/// The text of a [`CameraFormat`]: `{resolution}@{framerate}FPS, {format} Format`.
pub open spec fn camera_format_text(f: CameraFormatView) -> Seq<char> {
    resolution_text(f.resolution) + "@"@ + decimal(f.framerate as nat) + "FPS, "@
        + frame_format_text(f.format) + " Format"@
}

impl CameraFormat {
    /// Construct a new [`CameraFormat`]
    pub fn new(resolution: Resolution, format: FrameFormat, framerate: u32) -> (f: Self)
        ensures
            f@ == (CameraFormatView { resolution, format, framerate }),
    {
        CameraFormat { resolution, format, framerate }
    }

    /// [`CameraFormat::new()`], but raw.
    pub fn new_from(res_x: u32, res_y: u32, format: FrameFormat, fps: u32) -> (f: Self)
        ensures
            f@ == (CameraFormatView {
                resolution: Resolution { width_x: res_x, height_y: res_y },
                format,
                framerate: fps,
            }),
    {
        CameraFormat {
            resolution: Resolution { width_x: res_x, height_y: res_y },
            format,
            framerate: fps,
        }
    }

    /// Get the resolution of the current [`CameraFormat`]
    pub fn resolution(&self) -> (r: Resolution)
        ensures
            r == self@.resolution,
    {
        self.resolution
    }

    /// Get the width of the resolution of the current [`CameraFormat`]
    pub fn width(&self) -> (w: u32)
        ensures
            w == self@.resolution.width_x,
    {
        self.resolution.width()
    }

    /// Get the height of the resolution of the current [`CameraFormat`]
    pub fn height(&self) -> (h: u32)
        ensures
            h == self@.resolution.height_y,
    {
        self.resolution.height()
    }

    /// Set the [`CameraFormat`]'s resolution.
    pub fn set_resolution(&mut self, resolution: Resolution)
        ensures
            final(self)@ == (CameraFormatView { resolution, ..old(self)@ }),
    {
        self.resolution = resolution;
    }

    /// Get the framerate of the current [`CameraFormat`]
    pub fn framerate(&self) -> (fps: u32)
        ensures
            fps == self@.framerate,
    {
        self.framerate
    }

    /// Set the [`CameraFormat`]'s framerate.
    pub fn set_framerate(&mut self, framerate: u32)
        ensures
            final(self)@ == (CameraFormatView { framerate, ..old(self)@ }),
    {
        self.framerate = framerate;
    }

    /// Get the [`CameraFormat`]'s format.
    pub fn format(&self) -> (f: FrameFormat)
        ensures
            f == self@.format,
    {
        self.format
    }

    /// Set the [`CameraFormat`]'s format.
    pub fn set_format(&mut self, format: FrameFormat)
        ensures
            final(self)@ == (CameraFormatView { format, ..old(self)@ }),
    {
        self.format = format;
    }

    /// The format as text, `{resolution}@{framerate}FPS, {format} Format`.
    pub fn to_string(&self) -> (s: String)
        ensures
            s@ == camera_format_text(self@),
    {
        let mut s = self.resolution.to_string();
        s.append("@");
        push_decimal(&mut s, self.framerate as u64);
        s.append("FPS, ");
        let f = self.format.to_string();
        s.append(f.as_str());
        s.append(" Format");
        s
    }
}

impl Default for CameraFormat {
    /// 640x480 MJPEG at 15 frames per second.
    fn default() -> (f: Self)
        ensures
            f@ == (CameraFormatView {
                resolution: Resolution { width_x: 640, height_y: 480 },
                format: FrameFormat::MJPEG,
                framerate: 15,
            }),
    {
        CameraFormat {
            resolution: Resolution::new(640, 480),
            format: FrameFormat::MJPEG,
            framerate: 15,
        }
    }
}

} // verus!
