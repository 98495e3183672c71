use blaze_rs::blend::additive;
use blaze_rs::blend::multiply;
use blaze_rs::blend::normal;
use blaze_rs::blend::set_blend_mode;
use blaze_rs::blend::BlendFactor;
use blaze_rs::blend::BlendFunc;
use blaze_rs::blend::BlendState;
use blaze_rs::internal::try_get_err;
use blaze_rs::internal::wrap_result;
use blaze_rs::texture::check_path;
use blaze_rs::texture::ImageChannels;
use blaze_rs::texture::ImageFlags;
use blaze_rs::texture::SaveImageFormat;
use blaze_rs::texture::Texture;
use blaze_rs::texture::IMAGE_FLAG_INVERT_Y;
use blaze_rs::texture::IMAGE_FLAG_MIPMAPS;
use blaze_rs::texture::IMAGE_FLAG_POWER_OF_TWO;
use blaze_rs::CapacityKind;
use blaze_rs::Error;
use bytes::Bytes;

#[test]
fn test_from_memory_carries_length_and_codes() {
    let data = Bytes::from_static(&[1, 2, 3, 4, 5]);
    let req = Texture::from_memory(&data, ImageChannels::RGBA, None, ImageFlags::none()).unwrap();
    assert_eq!(req.data_len, 5);
    assert_eq!(req.channels_code, 4);
    assert_eq!(req.texture_id, 0);
    assert_eq!(req.flag_bits, 0);
}

#[test]
fn test_from_memory_requested_id() {
    let data = Bytes::from_static(&[0u8; 3]);
    let req = Texture::from_memory(&data, ImageChannels::Auto, Some(7), ImageFlags::none());
    assert_eq!(req.unwrap().texture_id, 7);

    let zero = Texture::from_memory(&data, ImageChannels::Auto, Some(0), ImageFlags::none());
    assert!(matches!(zero, Err(Error::InvalidArgument)));
}

#[test]
fn test_from_file_validates_id_and_path() {
    let flags = ImageFlags::none().with(IMAGE_FLAG_MIPMAPS);
    let req = Texture::from_file("sprites/hero.png", ImageChannels::RGB, Some(3), flags).unwrap();
    assert_eq!(req.channels_code, 3);
    assert_eq!(req.texture_id, 3);
    assert_eq!(req.flag_bits, IMAGE_FLAG_MIPMAPS);

    assert!(matches!(
        Texture::from_file("x.png", ImageChannels::Auto, Some(0), ImageFlags::none()),
        Err(Error::InvalidArgument)
    ));
    assert!(matches!(
        Texture::from_file("bad\0path", ImageChannels::Auto, None, ImageFlags::none()),
        Err(Error::InvalidArgument)
    ));
}

#[test]
fn test_check_path() {
    assert!(check_path("assets/tex.png"));
    assert!(check_path(""));
    assert!(!check_path("a\0b"));
}

#[test]
fn test_from_load_outcome() {
    let tex = Texture { id: 2, width: 64, height: 32 };
    let ok = Texture::from_load_outcome(Some(tex), None);
    assert_eq!(ok.unwrap(), tex);

    let failed = Texture::from_load_outcome(None, Some("decoder choked".to_string()));
    assert!(matches!(failed, Err(Error::BackendError(m)) if m == "decoder choked"));

    let silent = Texture::from_load_outcome(None, None);
    assert!(matches!(silent, Err(Error::BackendError(m)) if m == "Unknown error"));
}

#[test]
fn test_wrap_result_and_try_get_err() {
    assert!(wrap_result(1, None).is_ok());
    assert!(wrap_result(42, Some("ignored".to_string())).is_ok());

    let err = wrap_result(0, Some("boom".to_string()));
    assert!(matches!(err, Err(Error::BackendError(m)) if m == "boom"));

    let fallback = wrap_result(-3, None);
    assert!(matches!(fallback, Err(Error::BackendError(m)) if m == "Unknown error"));

    assert_eq!(try_get_err(Some("last".to_string())), "last");
    assert_eq!(try_get_err(None), "Unknown error");
}

#[test]
fn test_error_messages() {
    assert_eq!(Error::InvalidArgument.message(), "Invalid argument");
    assert_eq!(
        Error::CapacityExceeded(CapacityKind::Buckets).message(),
        "Bucket capacity exceeded"
    );
    assert_eq!(
        Error::CapacityExceeded(CapacityKind::Sprites).message(),
        "Sprite capacity exceeded"
    );
    assert_eq!(Error::BackendError("driver lost".to_string()).message(), "driver lost");
}

#[test]
fn test_image_flags_bitset() {
    let all = ImageFlags::from_bits(0x3ff).unwrap();
    assert!(all.contains(IMAGE_FLAG_POWER_OF_TWO));
    assert!(all.contains(IMAGE_FLAG_INVERT_Y));
    assert!(ImageFlags::from_bits(0x400).is_none());
    assert!(ImageFlags::from_bits(0).is_some());

    let f = ImageFlags::none().with(IMAGE_FLAG_POWER_OF_TWO).with(IMAGE_FLAG_MIPMAPS);
    assert_eq!(f.bits, IMAGE_FLAG_POWER_OF_TWO | IMAGE_FLAG_MIPMAPS);
    assert!(f.contains(IMAGE_FLAG_MIPMAPS));
    assert!(!f.contains(IMAGE_FLAG_INVERT_Y));
}

#[test]
fn test_channel_and_format_codes() {
    assert_eq!(ImageChannels::Auto.code(), 0);
    assert_eq!(ImageChannels::Grayscale.code(), 1);
    assert_eq!(ImageChannels::GrayscaleAlpha.code(), 2);
    assert_eq!(ImageChannels::RGB.code(), 3);
    assert_eq!(ImageChannels::RGBA.code(), 4);

    assert_eq!(SaveImageFormat::TGA.code(), 0);
    assert_eq!(SaveImageFormat::BMP.code(), 1);
    assert_eq!(SaveImageFormat::DDS.code(), 2);
}

#[test]
fn test_blend_presets_and_codes() {
    let n = normal();
    assert_eq!(n.src, BlendFactor::SrcAlpha);
    assert_eq!(n.dst, BlendFactor::OneMinusSrcAlpha);
    let a = additive();
    assert_eq!(a.src, BlendFactor::One);
    assert_eq!(a.dst, BlendFactor::One);
    let m = multiply();
    assert_eq!(m.src, BlendFactor::DstColor);
    assert_eq!(m.dst, BlendFactor::Zero);

    let f = BlendFunc::from(n);
    assert_eq!(f.source, 0x0302);
    assert_eq!(f.destination, 0x0303);
    let fm = BlendFunc::from(m);
    assert_eq!(fm.source, 0x0306);
    assert_eq!(fm.destination, 0);
}

#[test]
fn test_set_blend_mode_last_writer_wins() {
    let mut state = BlendState::new();
    assert_eq!(state.mode, normal());
    set_blend_mode(&mut state, additive());
    assert_eq!(state.mode, additive());
    set_blend_mode(&mut state, multiply());
    assert_eq!(state.mode, multiply());
}
