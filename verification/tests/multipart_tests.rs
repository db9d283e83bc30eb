use bytes::Bytes;
use pincer::multipart::{boundary_from, file_extension, guess_content_type, mime_for_extension};
use pincer::{Form, Part};

#[test]
fn part_text() {
    let part = Part::text("field", "value");
    assert_eq!(part.name(), "field");
    assert_eq!(part.data().as_ref(), b"value");
    assert_eq!(part.content_type(), Some("text/plain; charset=utf-8"));
    assert!(part.filename().is_none());
}

#[test]
fn part_bytes() {
    let part = Part::binary("data", Bytes::from(vec![1, 2, 3]));
    assert_eq!(part.name(), "data");
    assert_eq!(part.data().as_ref(), &[1, 2, 3]);
    assert_eq!(part.content_type(), Some("application/octet-stream"));
}

#[test]
fn part_file() {
    let part = Part::file("upload", "photo.jpg", Bytes::from(vec![0xFF, 0xD8, 0xFF]));
    assert_eq!(part.name(), "upload");
    assert_eq!(part.filename(), Some("photo.jpg"));
    assert_eq!(part.content_type(), Some("image/jpeg"));
}

#[test]
fn part_with_modifiers() {
    let part = Part::new("field", Bytes::from("data"))
        .with_filename("custom.bin")
        .with_content_type("application/custom");
    assert_eq!(part.filename(), Some("custom.bin"));
    assert_eq!(part.content_type(), Some("application/custom"));
}

#[test]
fn form_empty() {
    let form = Form::new();
    assert!(form.parts().is_empty());
    assert!(form.boundary().starts_with("----PincerBoundary"));
}

#[test]
fn form_with_parts() {
    let form = Form::new().text("name", "John").file(
        "avatar",
        "photo.png",
        Bytes::from(vec![0x89, 0x50, 0x4E, 0x47]),
    );

    assert_eq!(form.parts().len(), 2);
    assert_eq!(form.parts().first().expect("part 0").name(), "name");
    assert_eq!(form.parts().get(1).expect("part 1").name(), "avatar");
}

#[test]
fn form_content_type() {
    let form = Form::with_boundary("test-boundary");
    assert_eq!(
        form.content_type(),
        "multipart/form-data; boundary=test-boundary"
    );
}

#[test]
fn form_encode() {
    let form = Form::with_boundary("boundary123").text("field", "value");

    let (content_type, body) = form.into_body();

    assert_eq!(content_type, "multipart/form-data; boundary=boundary123");

    let body_str = String::from_utf8_lossy(&body);
    assert!(body_str.contains("--boundary123\r\n"));
    assert!(body_str.contains("Content-Disposition: form-data; name=\"field\"\r\n"));
    assert!(body_str.contains("value\r\n"));
    assert!(body_str.contains("--boundary123--\r\n"));
}

#[test]
fn form_encode_with_file() {
    let form = Form::with_boundary("boundary456").file(
        "upload",
        "test.txt",
        Bytes::from("file content"),
    );

    let (_, body) = form.into_body();
    let body_str = String::from_utf8_lossy(&body);

    assert!(body_str.contains("name=\"upload\"; filename=\"test.txt\""));
    assert!(body_str.contains("Content-Type: text/plain\r\n"));
    assert!(body_str.contains("file content\r\n"));
}

#[test]
fn form_encode_exact_bytes() {
    let form = Form::with_boundary("b")
        .text("a", "1")
        .part(Part::new("raw", Bytes::from(vec![0u8, 255u8])))
        .file("f", "x.png", Bytes::from("PNG"));
    let body = form.encode();
    let mut want: Vec<u8> = Vec::new();
    want.extend_from_slice(
        b"--b\r\nContent-Disposition: form-data; name=\"a\"\r\nContent-Type: text/plain; charset=utf-8\r\n\r\n1\r\n",
    );
    want.extend_from_slice(b"--b\r\nContent-Disposition: form-data; name=\"raw\"\r\n\r\n");
    want.extend_from_slice(&[0u8, 255u8]);
    want.extend_from_slice(b"\r\n");
    want.extend_from_slice(
        b"--b\r\nContent-Disposition: form-data; name=\"f\"; filename=\"x.png\"\r\nContent-Type: image/png\r\n\r\nPNG\r\n",
    );
    want.extend_from_slice(b"--b--\r\n");
    assert_eq!(body.as_ref(), want.as_slice());
}

#[test]
fn form_encode_without_parts() {
    let body = Form::with_boundary("xyz").encode();
    assert_eq!(body.as_ref(), b"--xyz--\r\n");
}

#[test]
fn guess_content_type_common() {
    assert_eq!(guess_content_type("photo.jpg"), "image/jpeg");
    assert_eq!(guess_content_type("photo.jpeg"), "image/jpeg");
    assert_eq!(guess_content_type("image.png"), "image/png");
    assert_eq!(guess_content_type("doc.pdf"), "application/pdf");
    assert_eq!(guess_content_type("data.json"), "application/json");
    assert_eq!(
        guess_content_type("unknown.xyz"),
        "application/octet-stream"
    );
}

#[test]
fn guess_content_type_case_insensitive() {
    assert_eq!(guess_content_type("PHOTO.JPG"), "image/jpeg");
    assert_eq!(guess_content_type("Image.PNG"), "image/png");
}

#[test]
fn guess_content_type_table() {
    let table = [
        ("gif", "image/gif"),
        ("webp", "image/webp"),
        ("svg", "image/svg+xml"),
        ("ico", "image/x-icon"),
        ("bmp", "image/bmp"),
        ("doc", "application/msword"),
        (
            "docx",
            "application/vnd.openxmlformats-officedocument.wordprocessingml.document",
        ),
        ("xls", "application/vnd.ms-excel"),
        (
            "xlsx",
            "application/vnd.openxmlformats-officedocument.spreadsheetml.sheet",
        ),
        ("ppt", "application/vnd.ms-powerpoint"),
        (
            "pptx",
            "application/vnd.openxmlformats-officedocument.presentationml.presentation",
        ),
        ("txt", "text/plain"),
        ("html", "text/html"),
        ("htm", "text/html"),
        ("css", "text/css"),
        ("js", "application/javascript"),
        ("xml", "application/xml"),
        ("csv", "text/csv"),
        ("md", "text/markdown"),
        ("zip", "application/zip"),
        ("tar", "application/x-tar"),
        ("gz", "application/gzip"),
        ("gzip", "application/gzip"),
        ("rar", "application/vnd.rar"),
        ("7z", "application/x-7z-compressed"),
        ("mp3", "audio/mpeg"),
        ("wav", "audio/wav"),
        ("ogg", "audio/ogg"),
        ("mp4", "video/mp4"),
        ("webm", "video/webm"),
        ("avi", "video/x-msvideo"),
        ("wasm", "application/wasm"),
    ];
    for (ext, mime) in table {
        assert_eq!(mime_for_extension(ext), mime);
        assert_eq!(guess_content_type(&format!("file.{ext}")), mime);
    }
    assert_eq!(mime_for_extension("PNG"), "application/octet-stream");
}

#[test]
fn file_extension_is_what_follows_the_last_dot() {
    assert_eq!(file_extension("a.tar.gz"), "gz");
    assert_eq!(file_extension("png"), "png");
    assert_eq!(file_extension("name."), "");
    assert_eq!(file_extension(""), "");
    assert_eq!(guess_content_type("png"), "image/png");
    assert_eq!(guess_content_type("archive.tar.GZ"), "application/gzip");
}

#[test]
fn boundary_is_prefix_and_lower_hex() {
    assert_eq!(boundary_from(0), "----PincerBoundary0");
    assert_eq!(boundary_from(255), "----PincerBoundaryff");
    assert_eq!(boundary_from(0x1234_abcd), "----PincerBoundary1234abcd");
    assert_eq!(
        boundary_from(u128::MAX),
        format!("----PincerBoundary{:x}", u128::MAX)
    );
}
