use ebook_transfer::chunking::{compute_chunk_offsets, text_between};
use ebook_transfer::transfer::CHUNK_TARGET_BYTES;

fn chunks_of(text: &str, offsets: &[usize]) -> Vec<String> {
    offsets
        .windows(2)
        .map(|w| text_between(text, w[0], w[1]).to_string())
        .collect()
}

#[test]
fn empty_text_has_single_offset() {
    assert_eq!(compute_chunk_offsets("", CHUNK_TARGET_BYTES), vec![0]);
    assert_eq!(compute_chunk_offsets("", 0), vec![0]);
}

#[test]
fn ascii_text_is_cut_every_target_bytes() {
    assert_eq!(compute_chunk_offsets("abcdefghij", 4), vec![0, 4, 8, 10]);
}

#[test]
fn exact_multiple_has_no_trailing_empty_chunk() {
    assert_eq!(compute_chunk_offsets("abcd", 2), vec![0, 2, 4]);
}

#[test]
fn zero_target_cuts_at_every_character() {
    assert_eq!(compute_chunk_offsets("abc", 0), vec![0, 1, 2, 3]);
    assert_eq!(compute_chunk_offsets("中文", 0), vec![0, 3, 6]);
}

#[test]
fn short_text_is_one_chunk() {
    assert_eq!(compute_chunk_offsets("hello", CHUNK_TARGET_BYTES), vec![0, 5]);
}

#[test]
fn cuts_never_split_a_character() {
    // "中" and "文" take 3 bytes each: no cut can fall at byte 4.
    assert_eq!(compute_chunk_offsets("中文", 4), vec![0, 6]);
    assert_eq!(compute_chunk_offsets("中文", 3), vec![0, 3, 6]);
    // "é" takes 2 bytes.
    assert_eq!(compute_chunk_offsets("aé", 2), vec![0, 3]);
    assert_eq!(compute_chunk_offsets("aéb", 1), vec![0, 1, 3, 4]);
    let text = "一二三四五六七八九十";
    let offsets = compute_chunk_offsets(text, 7);
    assert_eq!(offsets, vec![0, 9, 18, 27, 30]);
    for &o in &offsets {
        assert!(text.is_char_boundary(o));
    }
}

#[test]
fn large_text_uses_target_size() {
    let text = "a".repeat(70_000);
    assert_eq!(
        compute_chunk_offsets(&text, CHUNK_TARGET_BYTES),
        vec![0, 32_768, 65_536, 70_000]
    );
}

#[test]
fn chunks_rebuild_the_text() {
    let text = "第一章 开始\nThe quick brown fox — jumps over the lazy dog. 😀😀 结束";
    for target in [0usize, 1, 2, 3, 5, 8, 13, 100] {
        let offsets = compute_chunk_offsets(text, target);
        assert_eq!(offsets[0], 0);
        assert_eq!(*offsets.last().unwrap(), text.len());
        let chunks = chunks_of(text, &offsets);
        assert_eq!(chunks.concat(), text);
        // every chunk but the last reaches the target
        for c in &chunks[..chunks.len() - 1] {
            assert!(c.len() >= target);
        }
        // and no chunk overshoots it by a whole character
        if target >= 1 {
            for c in &chunks {
                assert!(c.len() <= target + 3);
            }
        }
    }
}

#[test]
fn text_between_takes_the_bytes_asked_for() {
    let text = "ab中cd";
    assert_eq!(text_between(text, 0, 2), "ab");
    assert_eq!(text_between(text, 2, 5), "中");
    assert_eq!(text_between(text, 5, 7), "cd");
    assert_eq!(text_between(text, 7, 7), "");
}
