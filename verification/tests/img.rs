use gitjobs_server::img::{
    generate_versions, is_svg, prepare_versions, version_from_encoding, ImageFormat,
    InvalidImageFormat,
};

fn sample_png(width: u32, height: u32) -> Vec<u8> {
    let img = image::RgbaImage::from_pixel(width, height, image::Rgba([10, 20, 30, 255]));
    let mut buf = Vec::new();
    image::DynamicImage::ImageRgba8(img)
        .write_to(&mut std::io::Cursor::new(&mut buf), image::ImageFormat::Png)
        .unwrap();
    buf
}

#[test]
fn svg_extension_is_detected_case_insensitively() {
    assert!(is_svg("logo.svg"));
    assert!(is_svg("LOGO.SVG"));
    assert!(is_svg("my.company.Svg"));
    assert!(is_svg(".svg"));
    assert!(is_svg("a.png.svg"));
}

#[test]
fn name_without_extension_is_not_svg() {
    assert!(!is_svg("svg"));
    assert!(!is_svg("SVG"));
    assert!(!is_svg("logo"));
}

#[test]
fn other_extensions_are_not_svg() {
    assert!(!is_svg("logo.png"));
    assert!(!is_svg("logo.svg.png"));
    assert!(!is_svg("logo.svgz"));
    assert!(!is_svg("logo."));
    assert!(!is_svg(""));
    assert!(!is_svg("svg.jpeg"));
}

#[test]
fn image_format_names() {
    assert_eq!(ImageFormat::try_from("png"), Ok(ImageFormat::Png));
    assert_eq!(ImageFormat::try_from("svg"), Ok(ImageFormat::Svg));
    assert!(ImageFormat::try_from("PNG").is_err());
    assert!(ImageFormat::try_from("jpeg").is_err());
    assert!(ImageFormat::try_from("").is_err());
    assert_eq!(ImageFormat::Png.as_str(), "png");
    assert_eq!(ImageFormat::Svg.as_str(), "svg");
    for f in [ImageFormat::Png, ImageFormat::Svg] {
        assert_eq!(ImageFormat::try_from(f.as_str()), Ok(f));
    }
}

#[test]
fn image_content_types() {
    assert_eq!(ImageFormat::Png.content_type(), "image/png");
    assert_eq!(ImageFormat::Svg.content_type(), "image/svg+xml");
}

#[test]
fn versions_are_generated_for_each_size() {
    let versions = generate_versions(&sample_png(800, 400)).unwrap();
    let labels: Vec<&str> = versions.iter().map(|v| v.version.as_str()).collect();
    assert_eq!(labels, vec!["small", "medium", "large"]);
    let sizes: Vec<(u32, u32)> = versions
        .iter()
        .map(|v| {
            let img = image::load_from_memory(&v.data).unwrap();
            (img.width(), img.height())
        })
        .collect();
    assert_eq!(sizes, vec![(100, 50), (200, 100), (400, 200)]);
    for v in &versions {
        assert_eq!(image::guess_format(&v.data).unwrap(), image::ImageFormat::Png);
    }
}

#[test]
fn invalid_image_data_is_rejected() {
    assert!(generate_versions(b"definitely not an image").is_err());
    assert!(prepare_versions("photo.png", b"garbage".to_vec()).is_err());
}

#[test]
fn svg_upload_is_kept_as_is() {
    let data = b"<svg xmlns=\"http://www.w3.org/2000/svg\"></svg>".to_vec();
    let versions = prepare_versions("Logo.SVG", data.clone()).unwrap();
    assert_eq!(versions.len(), 1);
    assert_eq!(versions[0].version, "svg");
    assert_eq!(versions[0].data, data);
}

#[test]
fn raster_upload_gets_resized_versions() {
    let versions = prepare_versions("avatar.png", sample_png(50, 50)).unwrap();
    let labels: Vec<&str> = versions.iter().map(|v| v.version.as_str()).collect();
    assert_eq!(labels, vec!["small", "medium", "large"]);
}

#[test]
fn svg_detection_ignores_letter_case() {
    for name in ["diagram.svg", "a.b.png", "svg", "logo.svgz", "x.", "ÉTÉ.Svg", "naïve.svg"] {
        let upper = name.to_ascii_uppercase();
        let mixed: String = name
            .chars()
            .enumerate()
            .map(|(i, c)| if i % 2 == 0 { c.to_ascii_uppercase() } else { c })
            .collect();
        assert_eq!(is_svg(name), is_svg(&upper));
        assert_eq!(is_svg(name), is_svg(&mixed));
    }
}

#[test]
fn version_from_encoding_keeps_bytes_or_error() {
    let v = version_from_encoding("medium", Ok(vec![1, 2, 3])).unwrap();
    assert_eq!(v.version, "medium");
    assert_eq!(v.data, vec![1, 2, 3]);
    let err = image::ImageError::IoError(std::io::Error::other("disk full"));
    match version_from_encoding("small", Err(err)) {
        Err(image::ImageError::IoError(e)) => assert_eq!(e.to_string(), "disk full"),
        other => panic!("unexpected result {other:?}"),
    }
}

#[test]
fn invalid_image_format_message() {
    assert_eq!(ImageFormat::try_from("gif"), Err(InvalidImageFormat));
    assert_eq!(InvalidImageFormat.message(), "invalid image format");
}
