use sdl2_image::cstr::to_c_bytes;
use sdl2_image::flags::activated_flags;
use sdl2_image::flags::flags_to_mask;
use sdl2_image::resource::save_result;
use sdl2_image::ImageError;
use sdl2_image::ImageVersion;
use sdl2_image::InitFlag;
use sdl2_image::NativeHandle;
use sdl2_image::Surface;
use sdl2_image::Texture;

#[test]
fn version_formats_basic() {
    let v = ImageVersion::from_sdl_version(2, 0, 5);
    assert_eq!(v.to_str(), "2.0.5");
}

#[test]
fn version_formats_zero() {
    let v = ImageVersion::from_sdl_version(0, 0, 0);
    assert_eq!(v.to_str(), "0.0.0");
}

#[test]
fn version_formats_wide() {
    let v = ImageVersion::from_sdl_version(255, 100, 10);
    assert_eq!(v.to_str(), "255.100.10");
}

#[test]
fn version_keeps_fields() {
    let v = ImageVersion::from_sdl_version(1, 2, 3);
    assert_eq!(v, ImageVersion { major: 1, minor: 2, patch: 3 });
}

#[test]
fn mask_of_nothing_is_zero() {
    let requested: Vec<InitFlag> = Vec::new();
    assert_eq!(flags_to_mask(&requested), 0);
}

#[test]
fn mask_of_every_backend() {
    let requested = vec![
        InitFlag::InitJpg,
        InitFlag::InitPng,
        InitFlag::InitTif,
        InitFlag::InitWebp,
    ];
    assert_eq!(flags_to_mask(&requested), 15);
}

#[test]
fn mask_keeps_duplicates_harmless() {
    let requested = vec![InitFlag::InitPng, InitFlag::InitPng];
    assert_eq!(flags_to_mask(&requested), 2);
}

#[test]
fn activated_is_subset_of_request() {
    let requested = vec![InitFlag::InitJpg, InitFlag::InitPng, InitFlag::InitWebp];
    let active = activated_flags(&requested, 0b1010);
    assert_eq!(active, vec![InitFlag::InitPng, InitFlag::InitWebp]);
    for f in &active {
        assert!(requested.contains(f));
    }
}

#[test]
fn activated_keeps_order_and_duplicates() {
    let requested = vec![InitFlag::InitPng, InitFlag::InitJpg, InitFlag::InitPng];
    let active = activated_flags(&requested, 0b0010);
    assert_eq!(active, vec![InitFlag::InitPng, InitFlag::InitPng]);
}

#[test]
fn activated_of_zero_mask_is_empty() {
    let requested = vec![InitFlag::InitJpg, InitFlag::InitTif];
    assert_eq!(activated_flags(&requested, 0), Vec::new());
}

#[test]
fn activated_ignores_unrequested_bits() {
    let requested = vec![InitFlag::InitJpg];
    assert_eq!(activated_flags(&requested, 0b1110), Vec::new());
}

#[test]
fn c_bytes_appends_one_nul() {
    let r = to_c_bytes("image.png");
    assert_eq!(r, Ok(b"image.png\0".to_vec()));
}

#[test]
fn c_bytes_of_empty_text() {
    assert_eq!(to_c_bytes(""), Ok(vec![0u8]));
}

#[test]
fn c_bytes_rejects_embedded_nul() {
    let r = to_c_bytes("a\0b");
    assert_eq!(r, Err(ImageError::PathConversionError));
}

#[test]
fn null_surface_load_is_an_error() {
    let r = Surface::from_load_result(0, String::from("boom"));
    match r {
        Err(ImageError::LoadError(s)) => assert_eq!(s, "boom"),
        _ => panic!("a null native result must become a load error"),
    }
}

#[test]
fn nonnull_surface_load_is_owned() {
    let r = Surface::from_load_result(42, String::new());
    match r {
        Ok(s) => {
            assert_eq!(s.handle.raw(), 42);
            assert!(s.handle.owned());
            assert!(!s.handle.released());
        }
        Err(_) => panic!("a non-null native result must become a surface"),
    }
}

#[test]
fn null_texture_load_is_an_error() {
    let r = Texture::from_load_result(0, String::from("no texture"));
    match r {
        Err(ImageError::LoadError(s)) => assert_eq!(s, "no texture"),
        _ => panic!("a null native result must become a load error"),
    }
}

#[test]
fn nonnull_texture_load_is_owned() {
    let r = Texture::from_load_result(7, String::new());
    match r {
        Ok(t) => {
            assert_eq!(t.handle.raw(), 7);
            assert!(t.handle.owned());
        }
        Err(_) => panic!("a non-null native result must become a texture"),
    }
}

#[test]
fn save_status_zero_is_ok() {
    assert_eq!(save_result(0, String::from("ignored")), Ok(()));
}

#[test]
fn save_status_nonzero_is_an_error() {
    let r = save_result(-1, String::from("disk full"));
    assert_eq!(r, Err(ImageError::SaveError(String::from("disk full"))));
}

#[test]
fn release_fires_exactly_once() {
    let mut s = Surface::from_load_result(9, String::new()).ok().unwrap();
    assert!(s.handle.close());
    assert!(!s.handle.close());
    assert!(!s.handle.close());
}

#[test]
fn borrowed_handle_never_fires_release() {
    let mut h = NativeHandle::new_borrowed(9);
    assert!(!h.close());
    assert!(!h.close());
}

#[test]
fn error_messages() {
    assert_eq!(
        ImageError::PathConversionError.message(),
        "path holds an embedded null byte"
    );
    assert_eq!(ImageError::LoadError(String::from("x")).message(), "x");
    assert_eq!(ImageError::SaveError(String::from("y")).message(), "y");
}
