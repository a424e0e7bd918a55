use photo_transfer::{output_name, join_path, TargetFormat};

#[test]
fn photo_jpg_becomes_photo_png() {
    assert_eq!(output_name("photo.JPG", TargetFormat::Png).as_deref(), Some("photo.png"));
    assert_eq!(output_name("photo.jpg", TargetFormat::Png).as_deref(), Some("photo.png"));
    assert_eq!(output_name("photo.Jpeg", TargetFormat::Png).as_deref(), Some("photo.png"));
}

#[test]
fn jpeg_target_uses_jpeg_extension() {
    assert_eq!(output_name("IMG_1.heic", TargetFormat::Jpeg).as_deref(), Some("IMG_1.jpeg"));
    assert_eq!(output_name("a.b.png", TargetFormat::Jpeg).as_deref(), Some("a.jpeg"));
    assert_eq!(output_name(".png", TargetFormat::Jpeg).as_deref(), Some(".jpeg"));
}

#[test]
fn output_name_needs_a_dot() {
    assert_eq!(output_name("photo", TargetFormat::Png), None);
}

#[test]
fn join_path_puts_one_separator() {
    assert_eq!(join_path("out", "a.png"), "out/a.png");
    assert_eq!(join_path("out/", "a.png"), "out/a.png");
    assert_eq!(join_path("/tmp/x", "b.txt"), "/tmp/x/b.txt");
    assert_eq!(join_path("", "a.png"), "a.png");
}

#[test]
fn target_tokens() {
    assert_eq!(TargetFormat::from_token(".png"), Some(TargetFormat::Png));
    assert_eq!(TargetFormat::from_token(".jpeg"), Some(TargetFormat::Jpeg));
    assert_eq!(TargetFormat::from_token(".jpg"), None);
    assert_eq!(TargetFormat::from_token(".PNG"), None);
    assert_eq!(TargetFormat::from_token("png"), None);
    assert_eq!(TargetFormat::from_token(""), None);
    assert_eq!(TargetFormat::Png.extension(), ".png");
    assert_eq!(TargetFormat::Jpeg.extension(), ".jpeg");
}
