use beatrice_lib::frames::join_hops;
use beatrice_lib::frames::split_hops;

#[test]
fn empty_stream_has_no_hops() {
    let (hops, held) = split_hops(&[], &[]);
    assert!(hops.is_empty());
    assert!(held.is_empty());
}

#[test]
fn whole_hops_are_cut_and_nothing_is_held() {
    let input: Vec<u32> = (1..=320).collect();
    let (hops, held) = split_hops(&[], &input);
    assert_eq!(hops.len(), 2);
    assert_eq!(hops[0], (1..=160).collect::<Vec<u32>>());
    assert_eq!(hops[1], (161..=320).collect::<Vec<u32>>());
    assert!(held.is_empty());
}

#[test]
fn samples_after_the_last_whole_hop_are_held() {
    let input: Vec<u32> = (1..=161).collect();
    let (hops, held) = split_hops(&[], &input);
    assert_eq!(hops.len(), 1);
    assert_eq!(hops[0], (1..=160).collect::<Vec<u32>>());
    assert_eq!(held, vec![161]);
    let (hops, held) = split_hops(&[], &[5, 6, 7]);
    assert!(hops.is_empty());
    assert_eq!(held, vec![5, 6, 7]);
}

#[test]
fn held_samples_stand_before_the_next_block() {
    let held: Vec<u32> = (1..=100).collect();
    let input: Vec<u32> = (101..=330).collect();
    let (hops, rest) = split_hops(&held, &input);
    assert_eq!(hops.len(), 2);
    assert_eq!(hops[0], (1..=160).collect::<Vec<u32>>());
    assert_eq!(hops[1], (161..=320).collect::<Vec<u32>>());
    assert_eq!(rest, (321..=330).collect::<Vec<u32>>());
}

#[test]
fn hop_counts() {
    for (held, len, hops, rest) in [
        (0usize, 0usize, 0usize, 0usize),
        (0, 1, 0, 1),
        (0, 159, 0, 159),
        (0, 160, 1, 0),
        (0, 161, 1, 1),
        (159, 1, 1, 0),
        (159, 0, 0, 159),
        (80, 480, 3, 80),
        (1, 479, 3, 0),
    ] {
        let (cut, left) = split_hops(&vec![1; held], &vec![2; len]);
        assert_eq!(cut.len(), hops);
        assert_eq!(left.len(), rest);
        assert!(cut.iter().all(|h| h.len() == 160));
    }
}

#[test]
fn cutting_in_two_blocks_is_cutting_in_one() {
    let stream: Vec<u32> = (0..1000).collect();
    for cut_at in [0, 1, 159, 160, 161, 500, 999, 1000] {
        let (first, held) = split_hops(&[], &stream[..cut_at]);
        let (second, rest) = split_hops(&held, &stream[cut_at..]);
        let (whole, whole_rest) = split_hops(&[], &stream);
        let mut both = first;
        both.extend(second);
        assert_eq!(both, whole);
        assert_eq!(rest, whole_rest);
    }
}

#[test]
fn joined_blocks_follow_each_other() {
    let blocks = vec![vec![1, 2], vec![], vec![3], vec![4, 5, 6]];
    assert_eq!(join_hops(&blocks), vec![1, 2, 3, 4, 5, 6]);
    assert_eq!(join_hops(&Vec::new()), Vec::<u32>::new());
}

#[test]
fn converted_stream_has_240_samples_per_hop() {
    let input = vec![1u32; 500];
    let outputs: Vec<Vec<u32>> = split_hops(&[], &input).0.iter().map(|_| vec![2u32; 240]).collect();
    assert_eq!(join_hops(&outputs).len(), 3 * 240);
}
