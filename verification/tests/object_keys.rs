use docparse::digest::sha256_hex;
use docparse::object_keys::{
    build_image_object_key, build_markdown_object_key, image_ext_suffix, image_object_key_for_file,
};

#[test]
fn test_build_object_key_formats_match_legacy() {
    assert_eq!(
        build_markdown_object_key(None, "task_123"),
        "processed_markdown/task_123/task_123.md"
    );
    assert_eq!(
        build_image_object_key(None, "task_123", "abc123", ".jpg"),
        "parsed_images/task_123/sha256/abc123.jpg"
    );
    assert_eq!(
        build_markdown_object_key(Some("my_bucket"), "task_456"),
        "my_bucket/processed_markdown/task_456/task_456.md"
    );
    assert_eq!(
        build_image_object_key(Some("my_bucket"), "task_456", "def456", ".png"),
        "my_bucket/parsed_images/task_456/sha256/def456.png"
    );
    assert_eq!(
        build_markdown_object_key(Some("/proj/docs/"), "task_1"),
        "proj/docs/processed_markdown/task_1/task_1.md"
    );
    assert_eq!(
        build_markdown_object_key(Some("/"), "task_1"),
        "processed_markdown/task_1/task_1.md"
    );
    assert_eq!(
        build_image_object_key(None, "task_1", "hash", ""),
        "parsed_images/task_1/sha256/hash"
    );
}

#[test]
fn object_key_bucket_of_slashes_only_is_dropped() {
    assert_eq!(
        build_image_object_key(Some("///"), "t", "h", ".png"),
        "parsed_images/t/sha256/h.png"
    );
    assert_eq!(
        build_image_object_key(Some("//a/b//"), "t", "h", ""),
        "a/b/parsed_images/t/sha256/h"
    );
}

#[test]
fn image_keys_hash_the_content_and_keep_the_extension() {
    assert_eq!(
        sha256_hex(b"hello"),
        "2cf24dba5fb0a30e26e83b2ac5b9e29e1b161e5c1fa7425e73043362938b9824"
    );
    assert_eq!(image_ext_suffix(Some("PNG")), ".png");
    assert_eq!(image_ext_suffix(Some("")), "");
    assert_eq!(image_ext_suffix(None), "");
    assert_eq!(
        image_object_key_for_file(Some("b"), "t1", b"hello", Some("JPG")),
        "b/parsed_images/t1/sha256/2cf24dba5fb0a30e26e83b2ac5b9e29e1b161e5c1fa7425e73043362938b9824.jpg"
    );
}
