use threemf2::thumbnail_handle::ImageFormat;

#[test]
fn from_ext_test() {
    let png = ImageFormat::from_ext("PNG");
    let jpg = ImageFormat::from_ext("JPG");
    let jpeg = ImageFormat::from_ext("JPEG");
    let unknown = ImageFormat::from_ext("tiff");

    assert_eq!(png, ImageFormat::Png);
    assert_eq!(jpg, ImageFormat::Jpeg);
    assert_eq!(jpeg, ImageFormat::Jpeg);
    assert_eq!(unknown, ImageFormat::Unknown("tiff".into()));
}

#[test]
fn from_ext_keeps_unknown_extension_as_written() {
    assert_eq!(ImageFormat::from_ext("TiFf"), ImageFormat::Unknown("TiFf".into()));
    assert_eq!(ImageFormat::from_ext("pNg"), ImageFormat::Png);
    assert_eq!(ImageFormat::from_ext(""), ImageFormat::Unknown("".into()));
    assert_eq!(ImageFormat::from_ext("jpgx"), ImageFormat::Unknown("jpgx".into()));
}

#[test]
fn as_str_names_each_format() {
    assert_eq!(ImageFormat::Png.as_str(), "png");
    assert_eq!(ImageFormat::Jpeg.as_str(), "jpeg");
    assert_eq!(ImageFormat::Unknown("bmp".into()).as_str(), "bmp");
    assert_eq!(ImageFormat::from_ext("JPG").as_str(), "jpeg");
}
