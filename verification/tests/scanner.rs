use goobert::file_scanner::FileScanner;

#[test]
fn test_video_extensions() {
    let scanner = FileScanner::new();
    assert!(scanner.is_media_file("video.mp4"));
    assert!(scanner.is_media_file("video.MKV"));
    assert!(scanner.is_media_file("video.WebM"));
}

#[test]
fn test_image_extensions() {
    let scanner = FileScanner::new();
    assert!(scanner.is_media_file("image.jpg"));
    assert!(scanner.is_media_file("image.PNG"));
    assert!(scanner.is_image("image.gif"));
}

#[test]
fn test_non_media_files() {
    let scanner = FileScanner::new();
    assert!(!scanner.is_media_file("document.txt"));
    assert!(!scanner.is_media_file("script.py"));
}

#[test]
fn hidden_files_and_bare_names_are_not_media() {
    let scanner = FileScanner::new();
    assert!(!scanner.is_media_file("Makefile"));
    assert!(!scanner.is_media_file(".mp4"));
    assert!(!scanner.is_media_file("/media/.png"));
    assert!(!scanner.is_media_file(""));
    assert!(!scanner.is_media_file("trailing."));
}

#[test]
fn extension_comes_from_last_component() {
    let scanner = FileScanner::new();
    assert!(scanner.is_media_file("/home/user/clips/archive.tar/movie.avi"));
    assert!(scanner.is_media_file("some.dir/clip.3gp"));
    assert!(!scanner.is_media_file("movie.avi/listing.txt"));
    assert!(scanner.is_image("/pics/photo.JPEG"));
    assert!(!scanner.is_image("/pics/clip.mp4"));
}

#[test]
fn explicit_extension_queries() {
    let scanner = FileScanner::new();
    assert!(scanner.is_video_ext("ts"));
    assert!(scanner.is_image_ext("tif"));
    assert!(!scanner.is_video_ext("TS"));
    assert!(!scanner.is_image_ext("doc"));
}
