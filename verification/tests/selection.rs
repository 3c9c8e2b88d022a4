use vocabulator::db::models::Word;
use vocabulator::selection::{
    in_group, is_eligible, ranks_before, select, Criterion, SELECTION_LIMIT,
};

fn word(id: i32, marked: bool, last_seen: i32, times_seen: u8, success_count: u8) -> Word {
    Word {
        id,
        word: format!("w{}", id),
        definition: format!("d{}", id),
        group_id: id % 3,
        marked,
        last_seen,
        times_seen,
        success_count,
    }
}

fn ids(words: &Vec<Word>) -> Vec<i32> {
    words.iter().map(|w| w.id).collect()
}

#[test]
fn the_limit_is_twenty() {
    assert_eq!(SELECTION_LIMIT, 20);
}

#[test]
fn eligible_words() {
    assert!(is_eligible(Criterion::Marked, &word(1, true, 0, 0, 0)));
    assert!(!is_eligible(Criterion::Marked, &word(1, false, 9, 9, 9)));
    assert!(is_eligible(Criterion::Weak, &word(1, false, 0, 1, 0)));
    assert!(is_eligible(Criterion::Weak, &word(1, false, 0, 255, 255)));
    assert!(!is_eligible(Criterion::Weak, &word(1, true, 9, 0, 0)));
}

#[test]
fn marked_words_rank_by_recency() {
    let old = word(1, true, 10, 0, 0);
    let new = word(2, true, 20, 0, 0);
    assert!(ranks_before(Criterion::Marked, &new, &old));
    assert!(!ranks_before(Criterion::Marked, &old, &new));
    assert!(!ranks_before(Criterion::Marked, &old, &old));
    let least = word(3, true, i32::MIN, 0, 0);
    let most = word(4, true, i32::MAX, 0, 0);
    assert!(ranks_before(Criterion::Marked, &most, &least));
    assert!(!ranks_before(Criterion::Marked, &least, &most));
}

#[test]
fn weak_words_rank_by_the_share_of_right_answers() {
    let half = word(1, false, 0, 2, 1);
    let two_thirds = word(2, false, 0, 3, 2);
    let two_quarters = word(3, false, 0, 4, 2);
    let none = word(4, false, 0, 255, 0);
    let all = word(5, false, 0, 255, 255);
    let nearly = word(6, false, 0, 255, 254);
    assert!(ranks_before(Criterion::Weak, &half, &two_thirds));
    assert!(!ranks_before(Criterion::Weak, &two_thirds, &half));
    assert!(!ranks_before(Criterion::Weak, &half, &two_quarters));
    assert!(!ranks_before(Criterion::Weak, &two_quarters, &half));
    assert!(ranks_before(Criterion::Weak, &none, &half));
    assert!(ranks_before(Criterion::Weak, &nearly, &all));
    assert!(!ranks_before(Criterion::Weak, &all, &nearly));
    assert!(!ranks_before(Criterion::Weak, &all, &all));
}

#[test]
fn weak_selection_leaves_out_words_never_seen() {
    let rows = vec![
        word(1, false, 0, 0, 0),
        word(2, false, 0, 1, 1),
        word(3, true, 5, 0, 0),
        word(4, false, 0, 2, 0),
    ];
    let picked = select(Criterion::Weak, rows);
    assert_eq!(ids(&picked), vec![4, 2]);
}

#[test]
fn weak_selection_is_in_order_of_accuracy() {
    let rows = vec![
        word(1, false, 0, 4, 3),
        word(2, false, 0, 10, 1),
        word(3, false, 0, 2, 1),
        word(4, false, 0, 3, 3),
        word(5, false, 0, 7, 0),
        word(6, false, 0, 200, 199),
    ];
    let picked = select(Criterion::Weak, rows);
    assert_eq!(ids(&picked), vec![5, 2, 3, 1, 6, 4]);
    for i in 0..picked.len() {
        for j in 0..picked.len() {
            let a = picked[i].success_count as f64 / picked[i].times_seen as f64;
            let b = picked[j].success_count as f64 / picked[j].times_seen as f64;
            if a < b {
                assert!(i < j);
            }
        }
    }
}

#[test]
fn words_of_equal_rank_keep_their_order() {
    let rows = vec![
        word(1, true, 5, 4, 2),
        word(2, true, 5, 2, 1),
        word(3, true, 9, 6, 3),
        word(4, true, 5, 8, 4),
        word(5, true, 1, 3, 1),
    ];
    let weak = select(Criterion::Weak, rows.clone());
    assert_eq!(ids(&weak), vec![5, 1, 2, 3, 4]);
    let marked = select(Criterion::Marked, rows);
    assert_eq!(ids(&marked), vec![3, 1, 2, 4, 5]);
}

#[test]
fn marked_selection_holds_only_marked_words() {
    let rows = vec![
        word(1, true, 10, 0, 0),
        word(2, false, 50, 3, 3),
        word(3, true, 30, 0, 0),
        word(4, true, 20, 1, 0),
        word(5, false, 40, 0, 0),
    ];
    let picked = select(Criterion::Marked, rows);
    assert_eq!(ids(&picked), vec![3, 4, 1]);
    assert!(picked.iter().all(|w| w.marked));
}

#[test]
fn marked_selection_with_negative_times() {
    let rows = vec![
        word(1, true, -10, 0, 0),
        word(2, true, i32::MIN, 0, 0),
        word(3, true, 0, 0, 0),
        word(4, true, i32::MAX, 0, 0),
    ];
    assert_eq!(ids(&select(Criterion::Marked, rows)), vec![4, 3, 1, 2]);
}

#[test]
fn selection_is_cut_off_at_the_limit() {
    let mut rows = Vec::new();
    for id in 1..=45 {
        rows.push(word(id, true, id, 100, (id % 50) as u8));
    }
    let marked = select(Criterion::Marked, rows.clone());
    assert_eq!(marked.len(), 20);
    assert_eq!(ids(&marked), (26..=45).rev().collect::<Vec<i32>>());
    let weak = select(Criterion::Weak, rows);
    assert_eq!(weak.len(), 20);
    assert_eq!(ids(&weak), (1..=20).collect::<Vec<i32>>());
}

#[test]
fn selection_of_exactly_the_limit_and_one_more() {
    let mut rows = Vec::new();
    for id in 1..=20 {
        rows.push(word(id, true, 0, 1, 0));
    }
    assert_eq!(ids(&select(Criterion::Marked, rows.clone())), (1..=20).collect::<Vec<i32>>());
    rows.push(word(21, true, 0, 1, 0));
    assert_eq!(ids(&select(Criterion::Marked, rows.clone())), (1..=20).collect::<Vec<i32>>());
    rows.push(word(22, true, 1, 1, 0));
    let picked = select(Criterion::Marked, rows);
    assert_eq!(picked.len(), 20);
    assert_eq!(picked[0].id, 22);
    assert_eq!(picked[19].id, 19);
}

#[test]
fn selection_of_nothing() {
    assert!(select(Criterion::Marked, Vec::new()).is_empty());
    assert!(select(Criterion::Weak, vec![word(1, true, 0, 0, 0)]).is_empty());
    assert!(select(Criterion::Marked, vec![word(1, false, 0, 3, 0)]).is_empty());
}

#[test]
fn selection_keeps_the_words_as_they_are() {
    let picked = select(Criterion::Weak, vec![word(7, true, 42, 9, 4)]);
    assert_eq!(picked.len(), 1);
    assert_eq!(picked[0].id, 7);
    assert_eq!(picked[0].word, "w7");
    assert_eq!(picked[0].definition, "d7");
    assert_eq!(picked[0].group_id, 1);
    assert!(picked[0].marked);
    assert_eq!(picked[0].last_seen, 42);
    assert_eq!(picked[0].times_seen, 9);
    assert_eq!(picked[0].success_count, 4);
}

#[test]
fn selection_does_not_trust_counts_to_be_consistent() {
    let rows = vec![word(1, false, 0, 1, 200), word(2, false, 0, 1, 3), word(3, false, 0, 2, 1)];
    assert_eq!(ids(&select(Criterion::Weak, rows)), vec![3, 2, 1]);
}

#[test]
fn words_of_a_group_keep_their_order() {
    let rows = vec![
        word(3, false, 0, 0, 0),
        word(1, false, 0, 0, 0),
        word(6, false, 0, 0, 0),
        word(2, false, 0, 0, 0),
        word(9, false, 0, 0, 0),
    ];
    assert_eq!(ids(&in_group(rows.clone(), 0)), vec![3, 6, 9]);
    assert_eq!(ids(&in_group(rows.clone(), 1)), vec![1]);
    assert_eq!(ids(&in_group(rows.clone(), 2)), vec![2]);
    assert!(in_group(rows, 5).is_empty());
    assert!(in_group(Vec::new(), 0).is_empty());
}
