use hyperscan_regex::constants::{HS_INVALID, HS_SCAN_TERMINATED, HS_SUCCESS};
use hyperscan_regex::search::{match_from_scan, Matches, Replaced};

/// Runs the match sequence over `text` with an engine that reports `spans`
/// (absolute offsets) one scan at a time, then reports nothing.
fn feed<'t>(text: &'t [u8], spans: &[(usize, usize)]) -> Matches<'t> {
    let mut it = Matches::new(text);
    for &(s, e) in spans {
        let off = it.scan_offset().unwrap();
        let m = it.advance(HS_SCAN_TERMINATED, (s - off) as u64, (e - off) as u64).unwrap();
        assert_eq!((m.start(), m.end()), (s, e));
    }
    assert!(it.scan_offset().is_some());
    assert!(it.advance(HS_SUCCESS, 0, 0).is_none());
    assert!(it.scan_offset().is_none());
    it
}

fn strs<'a>(pieces: &[&'a [u8]]) -> Vec<&'a str> {
    pieces.iter().map(|p| std::str::from_utf8(p).unwrap()).collect()
}

#[test]
fn find_reports_phone_number_span() {
    let text = "phone: 111-222-3333".as_bytes();
    let m = match_from_scan(text, 0, HS_SCAN_TERMINATED, 7, 19).unwrap();
    assert_eq!((m.start(), m.end()), (7, 19));
    assert_eq!(m.as_bytes(), b"111-222-3333");
}

#[test]
fn scan_from_offset_shifts_the_slot() {
    let text = b"abcabc";
    let m = match_from_scan(text, 3, HS_SUCCESS, 1, 2).unwrap();
    assert_eq!((m.start(), m.end()), (4, 5));
    assert_eq!(m.as_bytes(), b"b");
}

#[test]
fn scan_without_match_or_with_failure_finds_nothing() {
    let text = b"abc";
    assert!(match_from_scan(text, 0, HS_SUCCESS, 0, 0).is_none());
    assert!(match_from_scan(text, 1, HS_SCAN_TERMINATED, 1, 1).is_none());
    assert!(match_from_scan(text, 0, HS_INVALID, 0, 2).is_none());
    assert!(match_from_scan(text, 2, HS_SCAN_TERMINATED, 0, 2).is_none());
}

#[test]
fn matches_advance_from_previous_end_and_stay_exhausted() {
    let text = b"aXbXXc";
    let mut it = Matches::new(text);
    assert_eq!(it.text(), text);
    assert_eq!(it.scan_offset(), Some(0));
    let m = it.advance(HS_SCAN_TERMINATED, 1, 2).unwrap();
    assert_eq!((m.start(), m.end()), (1, 2));
    assert_eq!(it.scan_offset(), Some(2));
    let m = it.advance(HS_SCAN_TERMINATED, 1, 3).unwrap();
    assert_eq!((m.start(), m.end()), (3, 5));
    assert_eq!(it.scan_offset(), Some(5));
    assert!(it.advance(HS_SUCCESS, 0, 0).is_none());
    assert_eq!(it.scan_offset(), None);
    assert!(it.advance(HS_SCAN_TERMINATED, 0, 1).is_none());
    assert_eq!(it.scan_offset(), None);
}

#[test]
fn split_on_blanks() {
    let text = "a b \t  c\td    e".as_bytes();
    let it = feed(text, &[(1, 2), (3, 7), (8, 9), (10, 14)]);
    assert_eq!(strs(&it.split()), vec!["a", "b", "c", "d", "e"]);
}

#[test]
fn split_merges_back_to_back_matches_and_drops_empty_ends() {
    let text = b"--a--";
    let it = feed(text, &[(0, 1), (1, 2), (3, 4), (4, 5)]);
    assert_eq!(strs(&it.split()), vec!["a"]);
}

#[test]
fn split_pieces_and_matches_rebuild_the_text() {
    let text = "xx, yy,,zz".as_bytes();
    let spans = [(2, 4), (6, 7), (7, 8)];
    let it = feed(text, &spans);
    let pieces = it.split();
    assert_eq!(strs(&pieces), vec!["xx", "yy", "zz"]);
    let mut rebuilt: Vec<u8> = Vec::new();
    rebuilt.extend_from_slice(pieces[0]);
    rebuilt.extend_from_slice(&text[2..4]);
    rebuilt.extend_from_slice(pieces[1]);
    rebuilt.extend_from_slice(&text[6..7]);
    rebuilt.extend_from_slice(&text[7..8]);
    rebuilt.extend_from_slice(pieces[2]);
    assert_eq!(rebuilt, text);
}

#[test]
fn split_without_match_yields_whole_text() {
    let text = b"nothing here";
    let it = feed(text, &[]);
    assert_eq!(strs(&it.split()), vec!["nothing here"]);
    assert_eq!(strs(&it.splitn(2)), vec!["nothing here"]);
    let empty = feed(b"", &[]);
    assert!(empty.split().is_empty());
}

#[test]
fn splitn_first_two_words() {
    let text = "Hey! How are you?".as_bytes();
    let it = feed(text, &[(3, 5), (8, 9), (12, 13), (16, 17)]);
    assert_eq!(strs(&it.splitn(3)), vec!["Hey", "How", "are you?"]);
}

#[test]
fn splitn_zero_and_one() {
    let text = b"a,b,c";
    let it = feed(text, &[(1, 2), (3, 4)]);
    assert!(it.splitn(0).is_empty());
    assert_eq!(strs(&it.splitn(1)), vec!["a,b,c"]);
    assert_eq!(strs(&it.splitn(2)), vec!["a", "b,c"]);
    assert_eq!(strs(&it.splitn(5)), vec!["a", "b", "c"]);
}

#[test]
fn splitn_after_the_tail_yields_what_split_yields() {
    let text = b"a b";
    let it = feed(text, &[(1, 2)]);
    assert_eq!(strs(&it.splitn(3)), vec!["a", "b"]);
    assert_eq!(strs(&it.splitn(4)), vec!["a", "b"]);
}

#[test]
fn replace_all_and_replace_digits() {
    let text = "104561078910".as_bytes();
    let it = feed(text, &[(2, 5), (7, 10)]);
    assert_eq!(it.replace_all(b"").as_bytes(), b"101010");
    assert_eq!(it.replace(b"").as_bytes(), b"101078910");
    assert_eq!(it.replacen(0, b"").as_bytes(), it.replace_all(b"").as_bytes());
}

#[test]
fn replacen_two() {
    let text = "1023104561078910".as_bytes();
    let it = feed(text, &[(2, 4), (6, 9), (11, 14)]);
    let r = it.replacen(2, b"");
    assert!(!r.is_borrowed());
    assert_eq!(r.as_bytes(), b"10101078910");
}

#[test]
fn replace_inserts_replacement_text() {
    let text = b"a1b22c";
    let it = feed(text, &[(1, 2), (3, 5)]);
    assert_eq!(it.replace_all(b"<#>").as_bytes(), b"a<#>b<#>c");
    assert_eq!(it.replacen(1, b"<#>").as_bytes(), b"a<#>b22c");
}

#[test]
fn replace_without_match_borrows_the_text() {
    let text = b"plain";
    let it = feed(text, &[]);
    let r = it.replace_all(b"X");
    assert!(r.is_borrowed());
    match r {
        Replaced::Borrowed(b) => assert_eq!(b.as_ptr(), text.as_ptr()),
        Replaced::Owned(_) => panic!("expected the text itself"),
    }
}

#[test]
fn replace_drops_matches_at_the_cursor() {
    let text = b"XXaX";
    let it = feed(text, &[(0, 1), (1, 2), (3, 4)]);
    let r = it.replace_all(b"-");
    assert_eq!(r.as_bytes(), b"a-");
}

#[test]
fn replace_with_only_matches_at_the_cursor_borrows_the_text() {
    let text = b"XXa";
    let it = feed(text, &[(0, 2)]);
    let r = it.replace_all(b"-");
    assert!(r.is_borrowed());
    assert_eq!(r.as_bytes(), b"XXa");
}
