use llm_kit::generated_file::{GeneratedFile, GeneratedFileWithType};

#[test]
fn test_from_base64() {
    let file = GeneratedFile::from_base64("SGVsbG8gV29ybGQh", "text/plain");
    assert_eq!(file.media_type, "text/plain");
    assert_eq!(file.base64(), "SGVsbG8gV29ybGQh");
    assert_eq!(file.bytes(), b"Hello World!");
}

#[test]
fn generated_file_test_from_bytes() {
    let file = GeneratedFile::from_bytes(b"Hello World!".to_vec(), "text/plain");
    assert_eq!(file.media_type, "text/plain");
    assert_eq!(file.bytes(), b"Hello World!");
    assert_eq!(file.base64(), "SGVsbG8gV29ybGQh");
}

#[test]
fn generated_file_test_with_name() {
    let file = GeneratedFile::from_base64("SGVsbG8gV29ybGQh", "text/plain").with_name("hello.txt");
    assert_eq!(file.name, Some("hello.txt".to_string()));
}

#[test]
fn test_lazy_conversion_base64_to_bytes() {
    let file = GeneratedFile::from_base64("SGVsbG8gV29ybGQh", "text/plain");
    let bytes1 = file.bytes();
    let bytes2 = file.bytes();
    assert_eq!(bytes1, bytes2);
    assert_eq!(bytes1, b"Hello World!");
}

#[test]
fn test_lazy_conversion_bytes_to_base64() {
    let file = GeneratedFile::from_bytes(b"Hello World!".to_vec(), "text/plain");
    let base64_1 = file.base64();
    let base64_2 = file.base64();
    assert_eq!(base64_1, base64_2);
    assert_eq!(base64_1, "SGVsbG8gV29ybGQh");
}

#[test]
fn test_equality_same_representation() {
    let file1 = GeneratedFile::from_base64("SGVsbG8gV29ybGQh", "text/plain");
    let file2 = GeneratedFile::from_base64("SGVsbG8gV29ybGQh", "text/plain");
    assert_eq!(file1, file2);
}

#[test]
fn test_equality_different_representation() {
    let file1 = GeneratedFile::from_base64("SGVsbG8gV29ybGQh", "text/plain");
    let file2 = GeneratedFile::from_bytes(b"Hello World!".to_vec(), "text/plain");
    assert_eq!(file1, file2);
}

#[test]
fn generated_file_test_inequality_different_content() {
    let file1 = GeneratedFile::from_base64("SGVsbG8gV29ybGQh", "text/plain");
    let file2 = GeneratedFile::from_base64("R29vZGJ5ZQ==", "text/plain");
    assert_ne!(file1, file2);
}

#[test]
fn test_inequality_different_media_type() {
    let file1 = GeneratedFile::from_base64("SGVsbG8gV29ybGQh", "text/plain");
    let file2 = GeneratedFile::from_base64("SGVsbG8gV29ybGQh", "text/html");
    assert_ne!(file1, file2);
}

#[test]
fn generated_file_test_to_vec() {
    let file = GeneratedFile::from_base64("SGVsbG8gV29ybGQh", "text/plain");
    let vec = file.to_vec();
    assert_eq!(vec, b"Hello World!");
}

#[test]
fn test_generated_file_with_type() {
    let file = GeneratedFileWithType::from_base64("SGVsbG8gV29ybGQh", "text/plain");
    assert_eq!(file.kind, "file");
}

#[test]
fn test_generated_file_with_type_from_bytes() {
    let file = GeneratedFileWithType::from_bytes(b"Hello World!".to_vec(), "text/plain");
    assert_eq!(file.kind, "file");
}

#[test]
fn generated_file_test_clone() {
    let file1 = GeneratedFile::from_base64("SGVsbG8gV29ybGQh", "text/plain").with_name("test.txt");
    let file2 = file1.clone();
    assert_eq!(file1, file2);
    assert_eq!(file1.name, file2.name);
}

#[test]
fn invalid_base64_has_no_bytes() {
    let file = GeneratedFile::from_base64("not base64!", "text/plain");
    assert_eq!(file.bytes(), Vec::<u8>::new());
}

#[test]
fn files_with_the_same_content_and_different_names_differ() {
    let a = GeneratedFile::from_base64("SGVsbG8gV29ybGQh", "text/plain").with_name("a.txt");
    let b = GeneratedFile::from_base64("SGVsbG8gV29ybGQh", "text/plain");
    assert_ne!(a, b);
}
