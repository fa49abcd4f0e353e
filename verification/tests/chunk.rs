use pngchunk::checksum::checksum;
use pngchunk::{Chunk, ChunkError, ChunkType};
use std::collections::hash_map::DefaultHasher;
use std::collections::HashSet;
use std::hash::{Hash, Hasher};
use std::str::FromStr;

fn hash_of<T: Hash>(value: &T) -> u64 {
    let mut hasher = DefaultHasher::new();
    value.hash(&mut hasher);
    hasher.finish()
}

fn outside_crc(tag: &[u8; 4], data: &[u8]) -> u32 {
    let mut covered = tag.to_vec();
    covered.extend_from_slice(data);
    crc::Crc::<u32>::new(&crc::CRC_32_ISO_HDLC).checksum(&covered)
}

#[test]
pub fn chunk_keeps_tag_and_payload() {
    let tag = ChunkType::from_str("RuSt").unwrap();
    let data = b"This is where your secret message will be!";
    let chunk = Chunk::new(tag, data);
    assert_eq!(chunk.chunk_type(), tag);
    assert_eq!(chunk.data(), &data[..]);
    assert_eq!(chunk.length(), 42);
}

#[test]
pub fn chunk_crc_is_the_known_value() {
    let tag = ChunkType::from_str("RuSt").unwrap();
    let data = b"This is where your secret message will be!";
    let chunk = Chunk::new(tag, data);
    assert_eq!(chunk.crc(), 2882656334);
}

#[test]
pub fn end_chunk_has_the_well_known_crc() {
    let tag = ChunkType::from_str("IEND").unwrap();
    let chunk = Chunk::new(tag, &[]);
    assert_eq!(chunk.length(), 0);
    assert_eq!(chunk.crc(), 0xae42_6082);
    assert_eq!(checksum(tag, &[]), 0xae42_6082);
}

#[test]
pub fn crc_covers_tag_then_payload() {
    let tag = ChunkType::new(b'1', b'2', b'3', b'4');
    assert_eq!(checksum(tag, b"56789"), 0xcbf4_3926);
    assert_eq!(Chunk::new(tag, b"56789").crc(), 0xcbf4_3926);
    let other = ChunkType::new(b'1', b'2', b'3', b'5');
    assert_ne!(checksum(other, b"56789"), 0xcbf4_3926);
    assert_ne!(checksum(tag, b"56788"), 0xcbf4_3926);
}

#[test]
pub fn length_and_crc_are_derived() {
    let tags = [*b"RuSt", *b"IDAT", *b"Rust", [0, 1, 2, 3]];
    let payloads: [&[u8]; 4] = [b"", b"a", b"hello world", &[0u8; 1000]];
    for t in tags {
        for p in payloads {
            let tag = ChunkType::try_from(t).unwrap();
            let chunk = Chunk::new(tag, p);
            assert_eq!(chunk.length() as usize, p.len());
            assert_eq!(chunk.crc(), outside_crc(&t, p));
            assert_eq!(checksum(tag, p), outside_crc(&t, p));
        }
    }
}

#[test]
pub fn chunk_from_invalid_tag_is_built() {
    let tag = ChunkType::from_str("Rust").unwrap();
    assert!(!tag.is_valid());
    let chunk = Chunk::new(tag, b"abc");
    assert_eq!(chunk.chunk_type(), tag);
    assert_eq!(chunk.length(), 3);
    assert_eq!(chunk.crc(), outside_crc(b"Rust", b"abc"));
}

#[test]
pub fn try_new_builds_what_new_builds() {
    let tag = ChunkType::from_str("RuSt").unwrap();
    let data = b"payload";
    let built = Chunk::try_new(tag, data).unwrap();
    assert_eq!(built, Chunk::new(tag, data));
    assert_eq!(built.length(), 7);
}

#[test]
pub fn equal_parts_give_equal_chunks_and_hashes() {
    let first = Chunk::new(ChunkType::from_str("RuSt").unwrap(), b"same bytes");
    let copy = b"same bytes".to_vec();
    let second = Chunk::new(ChunkType::new(82, 117, 83, 116), &copy);
    assert!(first == second);
    assert_eq!(first, second);
    assert_eq!(hash_of(&first), hash_of(&second));
    assert_eq!(first.cmp(&second), std::cmp::Ordering::Equal);
    let mut set = HashSet::new();
    set.insert(first);
    assert!(set.contains(&second));
}

#[test]
pub fn different_parts_give_different_chunks() {
    let tag = ChunkType::from_str("RuSt").unwrap();
    let base = Chunk::new(tag, b"abc");
    assert!(base != Chunk::new(tag, b"abd"));
    assert!(base != Chunk::new(tag, b"abcd"));
    assert!(base != Chunk::new(ChunkType::from_str("RuSu").unwrap(), b"abc"));
}

#[test]
pub fn rebuilding_from_read_back_fields_is_identity() {
    let first = Chunk::new(ChunkType::from_str("tEXt").unwrap(), b"Title\0PngSuite");
    let second = Chunk::new(first.chunk_type(), first.data());
    assert_eq!(first, second);
    assert_eq!(first.length(), second.length());
    assert_eq!(first.crc(), second.crc());
    assert_eq!(hash_of(&first), hash_of(&second));
}

#[test]
pub fn chunks_are_ordered_by_length_then_tag_then_payload() {
    let low = ChunkType::from_str("IDAT").unwrap();
    let high = ChunkType::from_str("IEND").unwrap();
    let all = [
        Chunk::new(high, b""),
        Chunk::new(low, b"zz"),
        Chunk::new(high, b"aa"),
        Chunk::new(high, b"ab"),
        Chunk::new(low, b"aaa"),
    ];
    for i in 0..all.len() {
        for j in 0..all.len() {
            assert_eq!(all[i].partial_cmp(&all[j]), Some(i.cmp(&j)));
            assert_eq!(all[i].cmp(&all[j]), i.cmp(&j));
            assert_eq!(all[i] < all[j], i < j);
            assert_eq!(all[i] >= all[j], i >= j);
            assert_eq!(all[i] == all[j], i == j);
        }
    }
}

#[test]
pub fn error_variants_differ() {
    assert_ne!(ChunkError::MalformedInput, ChunkError::PayloadTooLarge);
}

#[test]
pub fn payload_longer_than_the_length_field_is_too_large() {
    let Ok(n) = usize::try_from(u64::from(u32::MAX) + 1) else {
        return;
    };
    let mut probe: Vec<u8> = Vec::new();
    if probe.try_reserve_exact(n).is_err() {
        return;
    }
    drop(probe);
    let data = vec![0u8; n];
    let tag = ChunkType::from_str("RuSt").unwrap();
    assert!(matches!(Chunk::try_new(tag, &data), Err(ChunkError::PayloadTooLarge)));
}
