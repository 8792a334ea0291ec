use chat_hub::uploads::{CloudinaryConfig, FileUpload, FileValidator};

fn s(x: &str) -> String {
    x.to_string()
}

fn file(name: &str, size: usize) -> FileUpload {
    FileUpload::new(s(name), vec![0u8; size], None)
}

#[test]
fn extension_is_lowercased_part_after_last_dot() {
    assert_eq!(file("Photo.Final.JPG", 1).extension(), Some(s("jpg")));
    assert_eq!(file("README", 1).extension(), Some(s("readme")));
    assert_eq!(file("archive.", 1).extension(), Some(s("")));
    assert_eq!(file("", 1).extension(), Some(s("")));
}

#[test]
fn size_counts_bytes() {
    assert_eq!(file("a.png", 0).size(), 0);
    assert_eq!(FileUpload::new(s("a.png"), vec![1, 2, 3], Some(s("image/png"))).size(), 3);
}

#[test]
fn presets() {
    let d = FileValidator::new();
    assert_eq!(d.allowed_extensions, vec![s("jpg"), s("jpeg"), s("png"), s("gif"), s("webp")]);
    assert_eq!(d.max_file_size, 5 * 1024 * 1024);
    assert_eq!(d.min_file_size, None);
    assert_eq!(d.max_file_count, Some(10));
    let i = FileValidator::images();
    assert_eq!(i.allowed_extensions.len(), 7);
    assert_eq!(i.max_file_size, 10 * 1024 * 1024);
    assert_eq!(i.min_file_size, Some(1024));
    let v = FileValidator::videos();
    assert_eq!(v.allowed_extensions, vec![s("mp4"), s("mov"), s("avi"), s("mkv"), s("webm")]);
    assert_eq!(v.max_file_size, 100 * 1024 * 1024);
    assert_eq!(v.max_file_count, Some(5));
    let doc = FileValidator::documents();
    assert_eq!(doc.allowed_extensions, vec![s("pdf"), s("doc"), s("docx"), s("txt"), s("xls"), s("xlsx")]);
    assert_eq!(doc.max_file_size, 25 * 1024 * 1024);
}

#[test]
fn builders_set_one_field_each() {
    let v = FileValidator::new()
        .with_extensions(vec!["PNG", "Tiff"])
        .with_max_size(100)
        .with_min_size(2)
        .with_max_count(3);
    assert_eq!(v.allowed_extensions, vec![s("png"), s("tiff")]);
    assert_eq!(v.max_file_size, 100);
    assert_eq!(v.min_file_size, Some(2));
    assert_eq!(v.max_file_count, Some(3));
    assert_eq!(FileValidator::new().with_max_size_mb(3).max_file_size, 3 * 1024 * 1024);
}

#[test]
fn validate_accepts_a_good_file() {
    assert_eq!(FileValidator::new().validate(&file("cat.PNG", 10)), Ok(()));
}

#[test]
fn validate_rejects_wrong_type() {
    let r = FileValidator::new().validate(&file("notes.txt", 10));
    assert_eq!(r, Err(s("Invalid file type 'txt'. Allowed types: jpg, jpeg, png, gif, webp")));
}

#[test]
fn validate_rejects_too_large() {
    let r = FileValidator::new().with_max_size(5).validate(&file("a.png", 6));
    assert_eq!(r, Err(s("File too large. Maximum size: 5 bytes, file size: 6 bytes")));
    assert_eq!(FileValidator::new().with_max_size(5).validate(&file("a.png", 5)), Ok(()));
}

#[test]
fn validate_rejects_too_small() {
    let r = FileValidator::images().validate(&file("a.png", 1023));
    assert_eq!(r, Err(s("File too small. Minimum size: 1024 bytes, file size: 1023 bytes")));
}

#[test]
fn validate_rejects_empty() {
    assert_eq!(FileValidator::new().validate(&file("a.png", 0)), Err(s("File is empty")));
}

#[test]
fn file_count_is_checked() {
    let v = FileValidator::videos();
    assert_eq!(v.check_file_count(0), Err(s("No files provided for upload")));
    assert_eq!(v.check_file_count(5), Ok(()));
    assert_eq!(v.check_file_count(6), Err(s("Too many files. Maximum allowed: 5, provided: 6")));
}

#[test]
fn resource_type_by_extension() {
    let v = FileValidator::new();
    assert_eq!(v.get_resource_type("x.JPEG"), "image");
    assert_eq!(v.get_resource_type("icon.ico"), "image");
    assert_eq!(v.get_resource_type("clip.Mkv"), "video");
    assert_eq!(v.get_resource_type("doc.pdf"), "raw");
    assert_eq!(v.get_resource_type("noext"), "raw");
}

fn config() -> CloudinaryConfig {
    CloudinaryConfig { cloud_name: s("demo"), api_key: s("key"), api_secret: s("abc"), upload_preset: None }
}

#[test]
fn upload_url_names_cloud_and_type() {
    assert_eq!(config().upload_url("image"), "https://api.cloudinary.com/v1_1/demo/image/upload");
}

#[test]
fn signature_is_sha1_hex_of_params_timestamp_secret() {
    assert_eq!(config().generate_signature("folder=x", 1700000000), "96e5c14669be7e49d3c6226a40cf15b71cedde4c");
    let other = CloudinaryConfig { api_secret: s("s"), ..config() };
    assert_eq!(other.generate_signature("", -5), "439c02a0b28aa3aaa95438913343ede7d43ca84c");
}

fn size_as_float_text(bytes: usize) -> String {
    const KB: usize = 1024;
    const MB: usize = KB * 1024;
    const GB: usize = MB * 1024;
    if bytes >= GB {
        format!("{:.2} GB", bytes as f64 / GB as f64)
    } else if bytes >= MB {
        format!("{:.2} MB", bytes as f64 / MB as f64)
    } else if bytes >= KB {
        format!("{:.2} KB", bytes as f64 / KB as f64)
    } else {
        format!("{} bytes", bytes)
    }
}

#[test]
fn format_size_examples() {
    assert_eq!(FileValidator::format_size(0), "0 bytes");
    assert_eq!(FileValidator::format_size(1023), "1023 bytes");
    assert_eq!(FileValidator::format_size(1024), "1.00 KB");
    assert_eq!(FileValidator::format_size(1536), "1.50 KB");
    assert_eq!(FileValidator::format_size(5 * 1024 * 1024), "5.00 MB");
    assert_eq!(FileValidator::format_size(1024 * 1024 * 1024 + 256 * 1024 * 1024), "1.25 GB");
}

#[test]
fn format_size_matches_float_formatting() {
    for b in 0..200_000usize {
        assert_eq!(FileValidator::format_size(b), size_as_float_text(b), "bytes = {}", b);
    }
    let mut x: u64 = 0x9e37_79b9_7f4a_7c15;
    for _ in 0..200_000 {
        x = x.wrapping_mul(6364136223846793005).wrapping_add(1442695040888963407);
        for b in [x as usize, (x >> 20) as usize, (x >> 33) as usize, (x >> 40) as usize] {
            assert_eq!(FileValidator::format_size(b), size_as_float_text(b), "bytes = {}", b);
        }
    }
    for b in [usize::MAX, usize::MAX - 1, 1usize << 53, (1usize << 53) + 1, (1usize << 54) + 2, (1usize << 54) + 6, 1usize << 63] {
        assert_eq!(FileValidator::format_size(b), size_as_float_text(b), "bytes = {}", b);
    }
}
