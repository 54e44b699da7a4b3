use playback_core::files::song_file_candidates;

#[test]
fn candidates_carry_both_extensions() {
    let (flac, mp3) = song_file_candidates(42);
    assert_eq!(flac, "42.flac");
    assert_eq!(mp3, "42.mp3");
}

#[test]
fn zero_identifier_is_a_single_digit() {
    let (flac, mp3) = song_file_candidates(0);
    assert_eq!(flac, "0.flac");
    assert_eq!(mp3, "0.mp3");
}

#[test]
fn largest_identifier_prints_all_digits() {
    let (flac, _) = song_file_candidates(u64::MAX);
    assert_eq!(flac, "18446744073709551615.flac");
}

#[test]
fn digits_appear_most_significant_first() {
    let (flac, _) = song_file_candidates(1_000_000_007);
    assert_eq!(flac, "1000000007.flac");
}
