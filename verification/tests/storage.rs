use std::path::PathBuf;

use ytdlp_web::storage::TempMediaFile;

const TOKEN: &str = "67e55044-10b1-426f-9247-bb680e5fe0c8";

#[test]
fn file_name_has_prefix_token_and_extension() {
    let file = TempMediaFile::new(PathBuf::from("/tmp"), TOKEN);
    assert_eq!(file.name, "ytdlp-web-67e55044-10b1-426f-9247-bb680e5fe0c8.mp4");
    assert_eq!(file.directory, PathBuf::from("/tmp"));
}

#[test]
fn path_is_directory_and_name() {
    let file = TempMediaFile::new(PathBuf::from("/var/tmp"), TOKEN);
    assert_eq!(
        file.path(),
        PathBuf::from("/var/tmp/ytdlp-web-67e55044-10b1-426f-9247-bb680e5fe0c8.mp4")
    );
    assert_eq!(file.path(), file.directory.join(&file.name));
}

#[test]
fn different_tokens_give_different_names() {
    let first = TempMediaFile::new(PathBuf::from("/tmp"), TOKEN);
    let second = TempMediaFile::new(PathBuf::from("/tmp"), "67e55044-10b1-426f-9247-bb680e5fe0c9");
    assert_ne!(first.name, second.name);
    assert_ne!(first.path(), second.path());
}

#[test]
fn allocated_file_lies_in_the_temp_directory() {
    let file = TempMediaFile::allocate();
    assert_eq!(file.directory, tempfile::env::temp_dir());
    assert_eq!(file.path().parent(), Some(tempfile::env::temp_dir().as_path()));
    assert_eq!(file.path().file_name().unwrap().to_str(), Some(file.name.as_str()));
}

#[test]
fn allocated_name_holds_a_random_uuid() {
    let file = TempMediaFile::allocate();
    assert_eq!(file.name.len(), 50);
    let token = file
        .name
        .strip_prefix("ytdlp-web-")
        .and_then(|rest| rest.strip_suffix(".mp4"))
        .unwrap();
    let parsed = uuid::Uuid::parse_str(token).unwrap();
    assert_eq!(parsed.get_version_num(), 4);
    assert_eq!(parsed.to_string(), token);
    for (index, c) in token.chars().enumerate() {
        if [8, 13, 18, 23].contains(&index) {
            assert_eq!(c, '-');
        } else {
            assert!(matches!(c, '0'..='9' | 'a'..='f'));
        }
    }
    assert_eq!(token.as_bytes()[14], b'4');
    assert!(matches!(token.as_bytes()[19], b'8' | b'9' | b'a' | b'b'));
}

#[test]
fn allocations_do_not_collide() {
    let mut names: Vec<String> = Vec::new();
    for _ in 0..64 {
        names.push(TempMediaFile::allocate().name);
    }
    let mut unique = names.clone();
    unique.sort();
    unique.dedup();
    assert_eq!(unique.len(), names.len());
}

#[test]
fn allocation_creates_nothing_on_disk() {
    let file = TempMediaFile::allocate();
    assert!(!file.path().exists());
}

#[test]
fn duplicate_is_the_same_file() {
    let file = TempMediaFile::allocate();
    let copy = file.duplicate();
    assert_eq!(copy, file);
    assert_eq!(copy.path(), file.path());
}
