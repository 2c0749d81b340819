use bisector_swarm::partners::{
    assign_partners, link_partners, pick_partners, rnd_except_i, skip_past, skip_past_two,
    ConfigError, CornerPartners, COUNT, MAX_REDRAWS,
};

#[test]
fn reference_configuration() {
    assert_eq!(COUNT, 40);
    assert!(MAX_REDRAWS > 0);
}

#[test]
fn new_link_is_unset() {
    let link = CornerPartners::new();
    assert_eq!(link.partner_1, None);
    assert_eq!(link.partner_2, None);
    let link = CornerPartners::default();
    assert_eq!(link.partner_1, None);
    assert_eq!(link.partner_2, None);
}

#[test]
fn linked_points_at_the_pair() {
    let link = CornerPartners::linked((7, 3));
    assert_eq!(link.partner_1, Some(7));
    assert_eq!(link.partner_2, Some(3));
}

#[test]
fn skip_past_leaves_out_the_hole() {
    assert_eq!(skip_past(0, 0), 1);
    assert_eq!(skip_past(0, 1), 0);
    assert_eq!(skip_past(2, 3), 2);
    assert_eq!(skip_past(3, 3), 4);
    assert_eq!(skip_past(9, 3), 10);
    let seen: Vec<u32> = (0..4).map(|k| skip_past(k, 2)).collect();
    assert_eq!(seen, vec![0, 1, 3, 4]);
}

#[test]
fn skip_past_two_leaves_out_both() {
    assert_eq!(skip_past_two(0, 0, 1), 2);
    assert_eq!(skip_past_two(1, 2, 0), 3);
    assert_eq!(skip_past_two(0, 5, 9), 0);
    let seen: Vec<u32> = (0..4).map(|k| skip_past_two(k, 4, 1)).collect();
    assert_eq!(seen, vec![0, 2, 3, 5]);
    let same: Vec<u32> = (0..4).map(|k| skip_past_two(k, 1, 4)).collect();
    assert_eq!(same, seen);
}

#[test]
fn rnd_except_i_stays_in_range_and_avoids_i() {
    for i in 0..40u32 {
        for _ in 0..200 {
            let r = rnd_except_i(i, 40);
            assert!(r < 40);
            assert_ne!(r, i);
        }
    }
}

#[test]
fn rnd_except_i_with_two_points_gives_the_other() {
    for _ in 0..200 {
        assert_eq!(rnd_except_i(0, 2), 1);
        assert_eq!(rnd_except_i(1, 2), 0);
    }
}

#[test]
fn rnd_except_i_reaches_every_other_index() {
    let mut seen = [false; 5];
    for _ in 0..2000 {
        seen[rnd_except_i(2, 5) as usize] = true;
    }
    assert_eq!(seen, [true, true, false, true, true]);
}

#[test]
fn pick_partners_gives_two_distinct_others() {
    for i in 0..40u32 {
        for _ in 0..100 {
            let (a, b) = pick_partners(i, 40);
            assert!(a < 40 && b < 40);
            assert_ne!(a, i);
            assert_ne!(b, i);
            assert_ne!(a, b);
        }
    }
}

#[test]
fn pick_partners_among_three_takes_the_other_two() {
    for i in 0..3u32 {
        for _ in 0..200 {
            let (a, b) = pick_partners(i, 3);
            let mut all = vec![i, a, b];
            all.sort();
            assert_eq!(all, vec![0, 1, 2]);
        }
    }
}

#[test]
fn assign_partners_rejects_fewer_than_three() {
    for count in 0..3u32 {
        assert!(matches!(assign_partners(count), Err(ConfigError::TooFewPoints)));
    }
}

#[test]
fn assign_partners_builds_a_valid_graph() {
    for count in [3u32, 4, 40, 257] {
        let pairs = assign_partners(count).unwrap();
        assert_eq!(pairs.len(), count as usize);
        for (i, (a, b)) in pairs.iter().enumerate() {
            assert!(*a < count && *b < count);
            assert_ne!(*a as usize, i);
            assert_ne!(*b as usize, i);
            assert_ne!(a, b);
        }
    }
}

#[test]
fn link_partners_keeps_order_and_indices() {
    let links = link_partners(&vec![(1, 2), (2, 0), (0, 1)]);
    assert_eq!(links.len(), 3);
    assert_eq!((links[0].partner_1, links[0].partner_2), (Some(1), Some(2)));
    assert_eq!((links[1].partner_1, links[1].partner_2), (Some(2), Some(0)));
    assert_eq!((links[2].partner_1, links[2].partner_2), (Some(0), Some(1)));
    assert!(link_partners(&vec![]).is_empty());
}
