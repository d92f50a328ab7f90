use archdrop::{hash_path, validate_filename, validate_path, ValidationError};

// Tests for validate_filename (used for send mode)
#[test]
fn test_validate_filename_parent_directory() {
    // Direct parent directory traversal
    assert!(matches!(
        validate_filename("../etc/passwd"),
        Err(ValidationError::ContainsParentDir)
    ));

    // Nested parent directory traversal
    assert!(matches!(
        validate_filename("dir/../../../etc/passwd"),
        Err(ValidationError::ContainsParentDir)
    ));

    // Multiple parent dirs
    assert!(matches!(
        validate_filename("../../secrets.txt"),
        Err(ValidationError::ContainsParentDir)
    ));
}

#[test]
fn test_validate_filename_absolute_path() {
    // Unix absolute path
    assert!(matches!(
        validate_filename("/etc/passwd"),
        Err(ValidationError::AbsolutePath)
    ));

    // Another Unix absolute path
    assert!(matches!(
        validate_filename("/home/user/file.txt"),
        Err(ValidationError::AbsolutePath)
    ));

    // Root only
    assert!(matches!(
        validate_filename("/"),
        Err(ValidationError::AbsolutePath)
    ));
}

#[test]
fn test_validate_filename_null_byte() {
    // Null byte in middle
    assert!(matches!(
        validate_filename("file\0.txt"),
        Err(ValidationError::NullByte)
    ));

    // Null byte used to hide path traversal
    assert!(matches!(
        validate_filename("normal\0../etc/passwd"),
        Err(ValidationError::NullByte)
    ));

    // Null byte at end
    assert!(matches!(
        validate_filename("file.txt\0"),
        Err(ValidationError::NullByte)
    ));
}

#[test]
fn test_validate_filename_empty() {
    // Empty string should be rejected
    assert!(matches!(validate_filename(""), Err(ValidationError::Empty)));
}

#[test]
fn test_validate_filename_rejects_directory_separators() {
    assert!(matches!(
        validate_filename("dir/file.txt"),
        Err(ValidationError::ContainsDirectorySeparator)
    ));
    assert!(matches!(
        validate_filename("dir/subdir/file.txt"),
        Err(ValidationError::ContainsDirectorySeparator)
    ));
    assert!(matches!(
        validate_filename("./file.txt"),
        Err(ValidationError::ContainsDirectorySeparator)
    ));
    assert!(matches!(
        validate_filename("dir\\file.txt"),
        Err(ValidationError::ContainsDirectorySeparator)
    ));
}

#[test]
fn test_validate_filename_valid() {
    assert!(validate_filename("file.txt").is_ok());
    assert!(validate_filename("file-with-dashes_and_underscores.tar.gz").is_ok());
    assert!(validate_filename("my file.txt").is_ok());
    assert!(validate_filename(".gitignore").is_ok());
    assert!(validate_filename("archive.tar.gz.gpg").is_ok());
}

#[test]
fn test_hash_path_deterministic() {
    // Same input should produce same hash
    let hash1 = hash_path("test/path");
    let hash2 = hash_path("test/path");
    assert_eq!(hash1, hash2);

    // Different inputs should produce different hashes
    let hash3 = hash_path("different/path");
    assert_ne!(hash1, hash3);

    // Hash should be 16 characters
    assert_eq!(hash1.len(), 16);
    assert_eq!(hash3.len(), 16);

    // Hash should be hex (lowercase)
    assert!(hash1.chars().all(|c| c.is_ascii_hexdigit()));
    assert!(hash3.chars().all(|c| c.is_ascii_hexdigit()));
}

#[test]
fn test_hash_path_various_inputs() {
    // Empty path
    let hash_empty = hash_path("");
    assert_eq!(hash_empty.len(), 16);

    // Path with special characters
    let hash_special = hash_path("path/with/special-chars_123");
    assert_eq!(hash_special.len(), 16);

    // Very long path
    let long_path = "a".repeat(1000);
    let hash_long = hash_path(&long_path);
    assert_eq!(hash_long.len(), 16);

    // All hashes should be different
    assert_ne!(hash_empty, hash_special);
    assert_ne!(hash_special, hash_long);
    assert_ne!(hash_empty, hash_long);
}

// Tests for validate_path (used for receive mode - full path validation)
#[test]
fn test_validate_path_accepts_valid() {
    // These should all be valid
    assert!(validate_path("file.txt").is_ok());
    assert!(validate_path("dir/file.txt").is_ok());
    assert!(validate_path("./file.txt").is_ok());
    assert!(validate_path("a/b/c/file.txt").is_ok());
}

#[test]
fn test_validate_path_rejects_parent_dir() {
    // These should all fail due to parent directory traversal
    assert!(matches!(
        validate_path("../file.txt"),
        Err(ValidationError::ContainsParentDir)
    ));
    assert!(matches!(
        validate_path("dir/../../file.txt"),
        Err(ValidationError::ContainsParentDir)
    ));
}

#[test]
fn test_validate_path_rejects_absolute() {
    // These should fail due to absolute paths
    assert!(matches!(
        validate_path("/etc/passwd"),
        Err(ValidationError::AbsolutePath)
    ));
    assert!(matches!(
        validate_path("/file.txt"),
        Err(ValidationError::AbsolutePath)
    ));
}

#[test]
fn test_validate_path_rejects_null_byte() {
    // Should fail due to null byte
    assert!(matches!(
        validate_path("file\0.txt"),
        Err(ValidationError::NullByte)
    ));
}

#[test]
fn test_validate_path_rejects_empty() {
    // Should fail due to empty path
    assert!(matches!(validate_path(""), Err(ValidationError::Empty)));
}
