use signature_patcher::PatchEngine;

#[test]
fn empty_needle_is_found_nowhere() {
    assert_eq!(PatchEngine::find_bytes(&[1, 2, 3], &[]), None);
    assert_eq!(PatchEngine::find_bytes(&[], &[]), None);
}

#[test]
fn needle_longer_than_haystack_is_found_nowhere() {
    assert_eq!(PatchEngine::find_bytes(&[1, 2], &[1, 2, 3]), None);
    assert_eq!(PatchEngine::find_bytes(&[], &[0]), None);
}

#[test]
fn needle_as_long_as_haystack() {
    assert_eq!(PatchEngine::find_bytes(&[7, 8, 9], &[7, 8, 9]), Some(0));
    assert_eq!(PatchEngine::find_bytes(&[7, 8, 9], &[7, 8, 0]), None);
}

#[test]
fn finds_the_leftmost_of_several() {
    let haystack = [0u8, 5, 6, 1, 5, 6, 2, 5, 6];
    assert_eq!(PatchEngine::find_bytes(&haystack, &[5, 6]), Some(1));
}

#[test]
fn finds_at_the_start_and_at_the_end() {
    let haystack = [9u8, 1, 2, 3, 4, 8];
    assert_eq!(PatchEngine::find_bytes(&haystack, &[9, 1]), Some(0));
    assert_eq!(PatchEngine::find_bytes(&haystack, &[4, 8]), Some(4));
    assert_eq!(PatchEngine::find_bytes(&haystack, &[8]), Some(5));
}

#[test]
fn finds_after_a_partial_match() {
    assert_eq!(PatchEngine::find_bytes(&[1, 1, 1, 2], &[1, 1, 2]), Some(1));
    assert_eq!(PatchEngine::find_bytes(&[1, 2, 1, 2, 3], &[1, 2, 3]), Some(2));
}

#[test]
fn absent_needle_is_not_found() {
    assert_eq!(PatchEngine::find_bytes(&[1, 2, 3, 4], &[2, 4]), None);
    assert_eq!(PatchEngine::find_bytes(&[1, 2, 3, 4], &[4, 5]), None);
}

#[test]
fn search_is_the_same_on_every_call() {
    let haystack: Vec<u8> = (0..=255u8).cycle().take(2000).collect();
    let first = PatchEngine::find_bytes(&haystack, &[254, 255, 0]);
    let second = PatchEngine::find_bytes(&haystack, &[254, 255, 0]);
    assert_eq!(first, Some(254));
    assert_eq!(first, second);
}

#[test]
fn search_agrees_with_a_scan_of_all_windows() {
    let alphabet = [0u8, 1, 2];
    let mut haystacks: Vec<Vec<u8>> = vec![vec![]];
    for _ in 0..6 {
        let mut longer = Vec::new();
        for h in &haystacks {
            for &b in &alphabet {
                let mut next = h.clone();
                next.push(b);
                longer.push(next);
            }
        }
        haystacks.extend(longer);
        haystacks.sort();
        haystacks.dedup();
    }
    let needles: Vec<Vec<u8>> = haystacks.iter().filter(|h| h.len() <= 3).cloned().collect();
    for haystack in &haystacks {
        for needle in &needles {
            let expected = if needle.is_empty() || needle.len() > haystack.len() {
                None
            } else {
                haystack.windows(needle.len()).position(|window| window == &needle[..])
            };
            assert_eq!(PatchEngine::find_bytes(haystack, needle), expected);
        }
    }
}
