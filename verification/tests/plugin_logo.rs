use orbit::logo::LogoImage;
use orbit::plugin_manager::{DirEntry, ManifestFile, Plugin, Store};

const RGBA_2X1: [u8; 71] = [
    137, 80, 78, 71, 13, 10, 26, 10, 0, 0, 0, 13, 73, 72, 68, 82, 0, 0, 0, 2, 0, 0, 0, 1, 8, 6, 0,
    0, 0, 244, 34, 127, 138, 0, 0, 0, 14, 73, 68, 65, 84, 120, 156, 99, 248, 207, 192, 0, 66, 13,
    0, 15, 122, 3, 126, 119, 233, 127, 151, 0, 0, 0, 0, 73, 69, 78, 68, 174, 66, 96, 130,
];

const RGB_1X2: [u8; 73] = [
    137, 80, 78, 71, 13, 10, 26, 10, 0, 0, 0, 13, 73, 72, 68, 82, 0, 0, 0, 1, 0, 0, 0, 2, 8, 2, 0,
    0, 0, 22, 227, 33, 112, 0, 0, 0, 16, 73, 68, 65, 84, 120, 156, 99, 224, 18, 145, 99, 208, 48,
    178, 1, 0, 2, 116, 0, 211, 126, 76, 99, 26, 0, 0, 0, 0, 73, 69, 78, 68, 174, 66, 96, 130,
];

fn plugin(logo: Option<&str>) -> Plugin {
    let xml = match logo {
        Some(path) => format!("<p><name>N</name><logo>{}</logo></p>", path),
        None => "<p><name>N</name></p>".to_string(),
    };
    let entry = DirEntry { name: "n".to_string(), is_dir: true, manifest: ManifestFile::Text(xml) };
    Plugin::from_entry(&entry, Store::Active)
}

fn decode(data: &[u8]) -> Option<LogoImage> {
    let image = image::load_from_memory(data).ok()?;
    let pixels = image.to_rgba8().as_flat_samples().as_slice().to_vec();
    LogoImage::new(image.width(), image.height(), pixels)
}

#[test]
fn a_decoded_png_makes_a_logo() {
    let logo = decode(&RGBA_2X1).unwrap();
    assert_eq!(logo.width(), 2);
    assert_eq!(logo.height(), 1);
    assert_eq!(logo.rgba(), &vec![255, 0, 0, 255, 0, 0, 255, 128]);
}

#[test]
fn a_decoded_image_without_alpha_makes_an_opaque_logo() {
    let logo = decode(&RGB_1X2).unwrap();
    assert_eq!(logo.width(), 1);
    assert_eq!(logo.height(), 2);
    assert_eq!(logo.rgba(), &vec![10, 20, 30, 255, 40, 50, 60, 255]);
}

#[test]
fn a_logo_needs_exactly_its_pixels() {
    assert!(LogoImage::new(1, 1, vec![1, 2, 3, 4]).is_some());
    assert!(LogoImage::new(0, 5, vec![]).is_some());
    assert!(LogoImage::new(1, 1, vec![1, 2, 3]).is_none());
    assert!(LogoImage::new(1, 1, vec![1, 2, 3, 4, 5]).is_none());
    assert!(LogoImage::new(2, 1, vec![1, 2, 3, 4]).is_none());
    assert!(LogoImage::new(4294967295, 4294967295, vec![0; 4]).is_none());
    let logo = LogoImage::new(2, 3, vec![7; 24]).unwrap();
    assert_eq!((logo.width(), logo.height(), logo.rgba().len()), (2, 3, 24));
}

#[test]
fn a_plugin_wants_its_logo_until_it_is_loaded() {
    let mut with_logo = plugin(Some("logo.png"));
    assert_eq!(with_logo.logo_path, Some("logo.png".to_string()));
    assert!(with_logo.wants_logo());
    with_logo.load_logo(LogoImage::new(2, 1, vec![9; 8]));
    assert!(!with_logo.wants_logo());
    let kept = with_logo.texture.as_ref().unwrap();
    assert_eq!((kept.width(), kept.height()), (2, 1));
    with_logo.load_logo(LogoImage::new(1, 2, vec![1; 8]));
    let kept = with_logo.texture.as_ref().unwrap();
    assert_eq!((kept.width(), kept.height()), (2, 1));
    with_logo.load_logo(None);
    assert!(with_logo.texture.is_some());
}

#[test]
fn a_logo_that_did_not_decode_stays_wanted() {
    let mut with_logo = plugin(Some("logo.png"));
    with_logo.load_logo(decode(b"garbage"));
    assert!(with_logo.texture.is_none());
    assert!(with_logo.wants_logo());
    with_logo.load_logo(None);
    assert!(with_logo.wants_logo());
}

#[test]
fn a_plugin_without_a_logo_path_never_holds_one() {
    let mut without = plugin(None);
    assert!(!without.wants_logo());
    without.load_logo(LogoImage::new(2, 1, vec![9; 8]));
    assert!(without.texture.is_none());
}
