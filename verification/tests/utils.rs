use nokhwa::backend::{CameraIndexType, CaptureAPIBackend};
use nokhwa::control::{CameraControl, KnownCameraControlFlag, KnownCameraControls};
use nokhwa::convert::{yuyv422_to_rgb888, yuyv444_to_rgb888};
use nokhwa::error::NokhwaError;
use nokhwa::format::{CameraFormat, FrameFormat, Resolution};
use nokhwa::info::CameraInfo;
use nokhwa::mjpeg::{mjpeg_decode_to_rgb888, rgb_pixels_to_bytes};
use std::cmp::Ordering;

fn structure_error(message: &str) -> NokhwaError {
    NokhwaError::StructureError {
        structure: "CameraControl".to_string(),
        error: message.to_string(),
    }
}

fn brightness(min: i32, max: i32, value: i32, step: i32) -> Result<CameraControl, NokhwaError> {
    CameraControl::new(
        KnownCameraControls::Brightness,
        min,
        max,
        value,
        step,
        0,
        KnownCameraControlFlag::Manual,
        true,
    )
}

#[test]
fn yuyv444_black_and_white() {
    assert_eq!(yuyv444_to_rgb888(16, 128, 128), [0, 0, 0]);
    assert_eq!(yuyv444_to_rgb888(235, 128, 128), [255, 255, 255]);
}

#[test]
fn yuyv444_primary_colours() {
    assert_eq!(yuyv444_to_rgb888(81, 90, 240), [255, 0, 0]);
    assert_eq!(yuyv444_to_rgb888(145, 54, 34), [0, 255, 1]);
    assert_eq!(yuyv444_to_rgb888(41, 240, 110), [0, 0, 255]);
    assert_eq!(yuyv444_to_rgb888(100, 200, 50), [0, 133, 243]);
}

#[test]
fn yuyv444_negative_sum_rounds_down_and_clamps() {
    // (298 * 0 + 516 * (90 - 128) + 128) is negative: the blue channel clamps to 0.
    assert_eq!(yuyv444_to_rgb888(16, 90, 240), [179, 0, 0]);
}

#[test]
fn yuyv422_two_pixels_per_group() {
    let data = [81u8, 90, 16, 240];
    let rgb = yuyv422_to_rgb888(&data).unwrap();
    assert_eq!(rgb, vec![255, 0, 0, 179, 0, 0]);
}

#[test]
fn yuyv422_several_groups() {
    let data = [16u8, 128, 235, 128, 81, 90, 16, 240];
    let rgb = yuyv422_to_rgb888(&data).unwrap();
    assert_eq!(rgb.len(), 12);
    assert_eq!(rgb, vec![0, 0, 0, 255, 255, 255, 255, 0, 0, 179, 0, 0]);
}

#[test]
fn yuyv422_empty_stream() {
    assert_eq!(yuyv422_to_rgb888(&[]).unwrap(), Vec::<u8>::new());
}

#[test]
fn yuyv422_wrong_length_is_refused() {
    let err = yuyv422_to_rgb888(&[1, 2, 3]).unwrap_err();
    assert_eq!(
        err,
        NokhwaError::ProcessFrameError {
            src: FrameFormat::YUYV,
            destination: "RGB888".to_string(),
            error: "Assertion failure, the YUV stream isn't 4:2:2! (wrong number of bytes)"
                .to_string(),
        }
    );
}

#[test]
fn rgb_pixels_are_laid_out_in_order() {
    let pixels = [[1u8, 2, 3], [4, 5, 6]];
    assert_eq!(rgb_pixels_to_bytes(&pixels), vec![1, 2, 3, 4, 5, 6]);
}

#[test]
fn mjpeg_decode_reports_failed_read() {
    let err = mjpeg_decode_to_rgb888(Err(None)).unwrap_err();
    assert_eq!(
        err,
        NokhwaError::ProcessFrameError {
            src: FrameFormat::MJPEG,
            destination: "RGB888".to_string(),
            error: "Failed to get read readlines into RGB888 pixels!".to_string(),
        }
    );
    assert_eq!(mjpeg_decode_to_rgb888(Ok(vec![[9, 8, 7]])).unwrap(), vec![9, 8, 7]);
}

#[test]
fn mjpeg_decodes_an_encoded_image() {
    let width = 16usize;
    let height = 8usize;
    let mut pixels = Vec::new();
    for _ in 0..width * height {
        pixels.extend_from_slice(&[200u8, 40, 40]);
    }
    let mut comp = mozjpeg::Compress::new(mozjpeg::ColorSpace::JCS_RGB);
    comp.set_size(width, height);
    comp.set_quality(95.0);
    comp.set_mem_dest();
    comp.start_compress();
    assert!(comp.write_scanlines(&pixels));
    comp.finish_compress();
    let jpeg = comp.data_to_vec().unwrap();

    let pixels = mozjpeg::Decompress::new_mem(&jpeg)
        .unwrap()
        .rgb()
        .unwrap()
        .read_scanlines::<[u8; 3]>();
    let rgb = mjpeg_decode_to_rgb888(pixels.ok_or(None)).unwrap();
    assert_eq!(rgb.len(), width * height * 3);
    for px in rgb.chunks(3) {
        assert!((px[0] as i32 - 200).abs() <= 8);
        assert!((px[1] as i32 - 40).abs() <= 8);
        assert!((px[2] as i32 - 40).abs() <= 8);
    }
}

#[test]
fn mjpeg_decode_reports_decoder_message() {
    let err = mjpeg_decode_to_rgb888(Err(Some("JPEG err 0".to_string()))).unwrap_err();
    assert_eq!(
        err,
        NokhwaError::ProcessFrameError {
            src: FrameFormat::MJPEG,
            destination: "RGB888".to_string(),
            error: "JPEG err 0".to_string(),
        }
    );
}

#[test]
fn resolution_accessors() {
    let r = Resolution::new(1920, 1080);
    assert_eq!(r.width(), 1920);
    assert_eq!(r.height(), 1080);
    assert_eq!(r.x(), 1920);
    assert_eq!(r.y(), 1080);
    assert_eq!(r.to_string(), "1920x1080");
    assert_eq!(Resolution::new(0, 7).to_string(), "0x7");
}

#[test]
fn resolution_order_is_highest_first() {
    let big = Resolution::new(1920, 1080);
    let small = Resolution::new(640, 480);
    let tall = Resolution::new(1920, 1200);
    assert_eq!(big.cmp(&small), Ordering::Less);
    assert_eq!(small.cmp(&big), Ordering::Greater);
    assert_eq!(tall.cmp(&big), Ordering::Less);
    assert_eq!(big.cmp(&big), Ordering::Equal);
    assert_eq!(big.partial_cmp(&small), Some(Ordering::Less));
    assert!(big < small);
    let mut list = vec![small, tall, big];
    list.sort_by(|a, b| a.cmp(b));
    assert_eq!(list, vec![tall, big, small]);
}

#[test]
fn frame_format_names() {
    assert_eq!(FrameFormat::MJPEG.to_string(), "MJPEG");
    assert_eq!(FrameFormat::YUYV.to_string(), "YUYV");
    assert_eq!(&FrameFormat::MJPEG.fourcc(), b"MJPG");
    assert_eq!(&FrameFormat::YUYV.fourcc(), b"YUYV");
}

#[test]
fn camera_format_accessors_and_setters() {
    let mut f = CameraFormat::new(Resolution::new(1280, 720), FrameFormat::YUYV, 30);
    assert_eq!(f.resolution(), Resolution::new(1280, 720));
    assert_eq!(f.width(), 1280);
    assert_eq!(f.height(), 720);
    assert_eq!(f.framerate(), 30);
    assert_eq!(f.format(), FrameFormat::YUYV);
    f.set_resolution(Resolution::new(320, 240));
    f.set_framerate(60);
    f.set_format(FrameFormat::MJPEG);
    assert_eq!(f, CameraFormat::new_from(320, 240, FrameFormat::MJPEG, 60));
    assert_eq!(f.to_string(), "320x240@60FPS, MJPEG Format");
}

#[test]
fn camera_format_default() {
    let f = CameraFormat::default();
    assert_eq!(f, CameraFormat::new(Resolution::new(640, 480), FrameFormat::MJPEG, 15));
    assert_eq!(f.to_string(), "640x480@15FPS, MJPEG Format");
}

#[test]
fn camera_info_accessors_and_setters() {
    let mut info = CameraInfo::new("Cam".to_string(), "Desc".to_string(), "Misc".to_string(), 2);
    assert_eq!(info.human_name(), "Cam");
    assert_eq!(info.description(), "Desc");
    assert_eq!(info.misc(), "Misc");
    assert_eq!(*info.index(), 2);
    info.set_human_name("Front".to_string());
    info.set_description("USB".to_string());
    info.set_misc("/dev/video0".to_string());
    info.set_index(10);
    assert_eq!(
        info.to_string(),
        "Name: Front, Description: USB, Extra: /dev/video0, Index: 10"
    );
    assert_eq!(
        CameraInfo::default(),
        CameraInfo::new(String::new(), String::new(), String::new(), 0)
    );
}

#[test]
fn camera_info_order_is_by_index() {
    let a = CameraInfo::new("Z".to_string(), String::new(), String::new(), 1);
    let b = CameraInfo::new("A".to_string(), String::new(), String::new(), 3);
    let c = CameraInfo::new("Other".to_string(), "x".to_string(), String::new(), 1);
    assert_eq!(a.cmp(&b), Ordering::Less);
    assert_eq!(b.cmp(&a), Ordering::Greater);
    assert_eq!(a.cmp(&c), Ordering::Equal);
    assert!(a != c);
    assert_eq!(a.partial_cmp(&b), Some(Ordering::Less));
}

#[test]
fn camera_control_accepts_value_in_range() {
    let c = brightness(0, 100, 50, 5).unwrap();
    assert_eq!(c.control(), KnownCameraControls::Brightness);
    assert_eq!(c.min(), 0);
    assert_eq!(c.max(), 100);
    assert_eq!(c.value(), 50);
    assert_eq!(c.step(), 5);
    assert_eq!(c.default(), 0);
    assert_eq!(c.flag(), KnownCameraControlFlag::Manual);
    assert!(c.active());
}

#[test]
fn camera_control_bounds_are_inclusive() {
    assert!(brightness(0, 100, 0, 5).is_ok());
    assert!(brightness(0, 100, 100, 5).is_ok());
    assert!(brightness(-10, 10, -10, -5).is_ok());
    assert!(brightness(i32::MIN, 0, i32::MIN, -1).is_ok());
}

#[test]
fn camera_control_refuses_bad_values() {
    assert_eq!(brightness(0, 100, 101, 1).unwrap_err(), structure_error("Value too large"));
    assert_eq!(brightness(0, 100, -1, 1).unwrap_err(), structure_error("Value too low"));
    assert_eq!(brightness(0, 100, 7, 5).unwrap_err(), structure_error("Not aligned with step"));
    assert_eq!(brightness(10, 0, 20, 0).unwrap_err(), structure_error("Value too large"));
}

#[test]
fn camera_control_set_value() {
    let mut c = brightness(0, 100, 50, 5).unwrap();
    assert!(c.set_value(75).is_ok());
    assert_eq!(c.value(), 75);
    assert_eq!(c.set_value(200).unwrap_err(), structure_error("Value too large"));
    assert_eq!(c.set_value(-5).unwrap_err(), structure_error("Value too low"));
    assert_eq!(c.set_value(33).unwrap_err(), structure_error("Not aligned with step"));
    assert_eq!(c.value(), 75);
    assert!(c.set_value(100).is_ok());
    assert_eq!(c.value(), 100);
    let mut low = brightness(i32::MIN, 0, 0, -1).unwrap();
    assert!(low.set_value(i32::MIN).is_ok());
    assert_eq!(low.value(), i32::MIN);
}

#[test]
fn camera_control_order_is_by_control() {
    let a = brightness(0, 100, 50, 5).unwrap();
    let b = CameraControl::new(
        KnownCameraControls::Focus,
        0,
        10,
        0,
        1,
        0,
        KnownCameraControlFlag::Automatic,
        false,
    )
    .unwrap();
    let c = brightness(0, 10, 10, 1).unwrap();
    assert_eq!(a.cmp(&b), Ordering::Less);
    assert_eq!(b.cmp(&a), Ordering::Greater);
    assert_eq!(a.cmp(&c), Ordering::Equal);
    assert_eq!(b.partial_cmp(&a), Some(Ordering::Greater));
}

#[test]
fn known_control_names_and_ranks() {
    assert_eq!(KnownCameraControls::Brightness.to_string(), "Brightness");
    assert_eq!(KnownCameraControls::WhiteBalance.to_string(), "WhiteBalance");
    assert_eq!(KnownCameraControls::Focus.to_string(), "Focus");
    assert_eq!(KnownCameraControls::Brightness.rank(), 0);
    assert_eq!(KnownCameraControls::Focus.rank(), 16);
}

#[test]
fn backend_and_index_names() {
    assert_eq!(CaptureAPIBackend::Auto.to_string(), "Auto");
    assert_eq!(CaptureAPIBackend::UniversalVideoClass.to_string(), "UniversalVideoClass");
    assert_eq!(CaptureAPIBackend::GStreamer.to_string(), "GStreamer");
    assert_eq!(CameraIndexType::Index(42).to_string(), "42");
    assert_eq!(CameraIndexType::Index(0).to_string(), "0");
    assert_eq!(
        CameraIndexType::IPCamera("rtsp://10.0.0.2:554/".to_string()).to_string(),
        "rtsp://10.0.0.2:554/"
    );
}
