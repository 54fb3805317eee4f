use agent_workflow::squeeze::error::CompressionError;
use agent_workflow::squeeze::formats::determine_output_format;
use agent_workflow::squeeze::formats::OutputFormat;
use std::path::Path;
use std::str::FromStr;

#[test]
fn test_output_format_from_str() {
    assert_eq!(OutputFormat::from_str("jpeg").unwrap(), OutputFormat::Jpeg);
    assert_eq!(OutputFormat::from_str("jpg").unwrap(), OutputFormat::Jpeg);
    assert_eq!(OutputFormat::from_str("PNG").unwrap(), OutputFormat::Png);
    assert_eq!(OutputFormat::from_str("webp").unwrap(), OutputFormat::WebP);

    assert!(OutputFormat::from_str("unsupported").is_err());
}

#[test]
fn test_output_format_extension() {
    assert_eq!(OutputFormat::Jpeg.extension(), "jpg");
    assert_eq!(OutputFormat::Png.extension(), "png");
    assert_eq!(OutputFormat::WebP.extension(), "webp");
}

#[test]
fn test_determine_output_format_from_path() {
    let path = Path::new("test.jpg");
    assert_eq!(determine_output_format(path, None).unwrap(), OutputFormat::Jpeg);

    let path = Path::new("test.PNG");
    assert_eq!(determine_output_format(path, None).unwrap(), OutputFormat::Png);

    let path = Path::new("test.webp");
    assert_eq!(determine_output_format(path, None).unwrap(), OutputFormat::WebP);

    let path = Path::new("test.unknown");
    assert_eq!(determine_output_format(path, None).unwrap(), OutputFormat::Jpeg);
}

#[test]
fn formats_test_determine_output_format_with_override() {
    let path = Path::new("test.jpg");
    assert_eq!(
        determine_output_format(path, Some("png")).unwrap(),
        OutputFormat::Png
    );
}

#[test]
fn test_output_format_display() {
    assert_eq!(OutputFormat::Jpeg.to_string(), "JPEG");
    assert_eq!(OutputFormat::Png.to_string(), "PNG");
    assert_eq!(OutputFormat::WebP.to_string(), "WebP");
}

#[test]
fn parse_keeps_the_name_as_given_in_the_error() {
    match OutputFormat::parse("TIFF") {
        Err(CompressionError::UnsupportedFormat(name)) => assert_eq!(name, "TIFF"),
        other => panic!("unexpected: {:?}", other),
    }
}

#[test]
fn override_decides_before_the_extension() {
    let path = Path::new("picture.png");
    assert_eq!(determine_output_format(path, Some("JPG")).unwrap(), OutputFormat::Jpeg);
    assert!(matches!(
        determine_output_format(path, Some("bmp")),
        Err(CompressionError::UnsupportedFormat(_))
    ));
}

#[test]
fn path_without_extension_is_jpeg() {
    assert_eq!(determine_output_format(Path::new("picture"), None).unwrap(), OutputFormat::Jpeg);
}

#[test]
fn all_formats_and_names_are_in_order() {
    assert_eq!(
        OutputFormat::all_formats(),
        vec![OutputFormat::Jpeg, OutputFormat::Png, OutputFormat::WebP]
    );
    assert_eq!(OutputFormat::format_names(), vec!["jpeg", "png", "webp"]);
}

#[test]
fn format_names_are_read_as_text_is_parsed() {
    for name in ["jpeg", "JPG", "Png", "WEBP", "webp ", "", "avif", "jpeg2000"] {
        let read: Result<OutputFormat, _> = name.parse();
        match (read, OutputFormat::parse(name)) {
            (Ok(a), Ok(b)) => assert_eq!(a, b),
            (Err(a), Err(b)) => assert_eq!(a.message(), b.message()),
            (a, b) => panic!("{:?} read as {:?} and as {:?}", name, a, b),
        }
    }
    match "Tiff".parse::<OutputFormat>() {
        Err(e) => assert_eq!(e.message(), "Unsupported format: Tiff"),
        Ok(f) => panic!("read as {:?}", f),
    }
}
