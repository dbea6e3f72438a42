use std::collections::HashSet;

use moments::album::AlbumId;
use moments::faces::PersonId;
use moments::media::{ContentHasher, MediaId};

fn hyphenated(id: &AlbumId) {
    assert_eq!(id.as_str().len(), 36);
    assert!(id.as_str().contains('-'));
    for (i, c) in id.as_str().chars().enumerate() {
        match i {
            8 | 13 | 18 | 23 => assert_eq!(c, '-'),
            14 => assert_eq!(c, '4'),
            19 => assert!("89ab".contains(c)),
            _ => assert!(c.is_ascii_digit() || ('a'..='f').contains(&c)),
        }
    }
}

#[test]
fn album_album_id_new_generates_uuid() {
    let id = AlbumId::new();
    assert_eq!(id.as_str().len(), 36);
    assert!(id.as_str().contains('-'));
}

#[test]
fn album_album_id_display() {
    let id = AlbumId::from_raw("test-id".to_string());
    assert_eq!(id.to_string(), "test-id");
}

#[test]
fn album_album_ids_are_unique() {
    let id1 = AlbumId::new();
    let id2 = AlbumId::new();
    assert_ne!(id1, id2);
}

#[test]
fn model_album_id_new_generates_uuid() {
    let id = AlbumId::new();
    hyphenated(&id);
}

#[test]
fn model_album_id_display() {
    let id = AlbumId::from_raw("test-id".to_string());
    assert_eq!(id.to_string(), "test-id");
}

#[test]
fn model_album_ids_are_unique() {
    let ids: HashSet<AlbumId> = (0..50).map(|_| AlbumId::new()).collect();
    assert_eq!(ids.len(), 50);
}

#[test]
fn faces_person_id_display() {
    let id = PersonId::from_raw("abc-123".to_string());
    assert_eq!(id.to_string(), "abc-123");
}

#[test]
fn faces_person_id_as_str() {
    let id = PersonId::from_raw("abc-123".to_string());
    assert_eq!(id.as_str(), "abc-123");
}

#[test]
fn faces_person_id_equality() {
    let a = PersonId::from_raw("same".to_string());
    let b = PersonId::from_raw("same".to_string());
    let c = PersonId::from_raw("different".to_string());
    assert_eq!(a, b);
    assert_ne!(a, c);
}

#[test]
fn faces_person_id_clone() {
    let id = PersonId::from_raw("test".to_string());
    let cloned = id.clone();
    assert_eq!(id, cloned);
}

#[test]
fn faces_person_id_hash() {
    let mut set = HashSet::new();
    set.insert(PersonId::from_raw("a".to_string()));
    set.insert(PersonId::from_raw("a".to_string()));
    set.insert(PersonId::from_raw("b".to_string()));
    assert_eq!(set.len(), 2);
}

#[test]
fn model_person_id_display() {
    let id = PersonId::from_raw("abc-123".to_string());
    assert_eq!(id.to_string(), "abc-123");
}

#[test]
fn model_person_id_as_str() {
    let id = PersonId::from_raw("abc-123".to_string());
    assert_eq!(id.as_str(), "abc-123");
}

#[test]
fn model_person_id_equality() {
    let a = PersonId::from_raw("same".to_string());
    let b = PersonId::from_raw("same".to_string());
    let c = PersonId::from_raw("different".to_string());
    assert_eq!(a, b);
    assert_ne!(a, c);
}

#[test]
fn model_person_id_clone() {
    let id = PersonId::from_raw("test".to_string());
    let cloned = id.clone();
    assert_eq!(id, cloned);
}

#[test]
fn model_person_id_hash() {
    let mut set = HashSet::new();
    set.insert(PersonId::from_raw("a".to_string()));
    set.insert(PersonId::from_raw("a".to_string()));
    set.insert(PersonId::from_raw("b".to_string()));
    assert_eq!(set.len(), 2);
}

#[test]
fn generate_produces_32_char_hex() {
    let id = MediaId::generate();
    assert_eq!(id.as_str().len(), 32);
    assert!(id.as_str().chars().all(|c| c.is_ascii_hexdigit()));
    assert_eq!(id.as_str().as_bytes()[12], b'4');
}

#[test]
fn generated_ids_are_unique() {
    let id1 = MediaId::generate();
    let id2 = MediaId::generate();
    assert_ne!(id1, id2);
}

#[test]
fn new_wraps_existing_string() {
    let id = MediaId::new("abc123".to_string());
    assert_eq!(id.as_str(), "abc123");
    assert_eq!(id.to_string(), "abc123");
}

fn hashed(pieces: &[&[u8]]) -> MediaId {
    let mut hasher = ContentHasher::new();
    for p in pieces {
        hasher.update(p);
    }
    hasher.media_id()
}

#[test]
fn same_content_produces_same_id() {
    assert_eq!(hashed(&[b"hello moments"]), hashed(&[b"hello moments"]));
    assert_eq!(hashed(&[b"hello ", b"moments"]), hashed(&[b"hello moments"]));
}

#[test]
fn different_content_produces_different_id() {
    assert_ne!(hashed(&[b"photo a"]), hashed(&[b"photo b"]));
}

#[test]
fn id_is_64_char_hex() {
    let id = hashed(&[b"test"]);
    assert_eq!(id.as_str().len(), 64);
    assert!(id.as_str().chars().all(|c| c.is_ascii_hexdigit()));
    assert_eq!(
        hashed(&[]).as_str(),
        "af1349b9f5f9a1a6a0404dea36dcc9499bcb25c9adc112b7cc9a93cae41f3262"
    );
}
