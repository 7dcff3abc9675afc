use fartcloud::leaderboard::{
    duplicate_entries, game_over_board, game_over_panel, player_rank, rank_style, row_name,
    screen_row_count, BoardPanel, BoardRow, LeaderboardCache, LeaderboardEntry, RankStyle,
};

fn entry(name: &str, score: u32) -> LeaderboardEntry {
    LeaderboardEntry::new(name.to_string(), score)
}

fn board(scores: &[u32]) -> Vec<LeaderboardEntry> {
    scores.iter().enumerate().map(|(i, s)| entry(&format!("p{}", i), *s)).collect()
}

fn indices(rows: &[BoardRow]) -> Vec<usize> {
    rows.iter().map(|r| r.index).collect()
}

#[test]
fn rank_prefers_the_players_own_entry() {
    let entries = vec![entry("A", 900), entry("Me", 500), entry("B", 500), entry("Me", 500)];
    assert_eq!(player_rank(&entries, &"Me".to_string(), 500), 1);
}

#[test]
fn rank_falls_back_to_first_score_not_above() {
    let entries = vec![entry("A", 900), entry("B", 600), entry("C", 400)];
    assert_eq!(player_rank(&entries, &"Me".to_string(), 500), 2);
    assert_eq!(player_rank(&entries, &"Me".to_string(), 600), 1);
    assert_eq!(player_rank(&entries, &"Me".to_string(), 1000), 0);
}

#[test]
fn rank_past_the_end_when_everyone_is_better() {
    let entries = vec![entry("A", 900), entry("B", 600)];
    assert_eq!(player_rank(&entries, &"Me".to_string(), 10), 2);
    assert_eq!(player_rank(&Vec::new(), &"Me".to_string(), 10), 0);
}

#[test]
fn board_of_a_player_in_the_top_five() {
    let b = game_over_board(8, 2);
    assert_eq!(indices(&b.top), vec![0, 1, 2, 3, 4]);
    assert!(b.top[2].is_player);
    assert_eq!(b.top.iter().filter(|r| r.is_player).count(), 1);
    assert!(!b.separator);
    assert!(b.context.is_empty());
}

#[test]
fn board_of_a_player_far_down() {
    let b = game_over_board(20, 10);
    assert_eq!(indices(&b.top), vec![0, 1, 2, 3, 4]);
    assert!(b.top.iter().all(|r| !r.is_player));
    assert!(b.separator);
    assert_eq!(indices(&b.context), vec![8, 9, 10, 11, 12]);
    assert!(b.context[2].is_player);
}

#[test]
fn board_skips_rows_already_in_the_top_five() {
    let b = game_over_board(7, 5);
    assert!(b.separator);
    assert_eq!(indices(&b.context), vec![5, 6]);
    assert!(b.context[0].is_player);
    let b = game_over_board(9, 6);
    assert_eq!(indices(&b.context), vec![5, 6, 7, 8]);
}

#[test]
fn board_of_a_short_list_or_an_unranked_player() {
    let b = game_over_board(3, 3);
    assert_eq!(indices(&b.top), vec![0, 1, 2]);
    assert!(!b.separator);
    assert!(b.context.is_empty());
    let b = game_over_board(0, 0);
    assert!(b.top.is_empty());
    assert!(!b.separator);
}

#[test]
fn board_rows_follow_the_ranking() {
    let entries = board(&[1500, 999, 800, 700, 650, 600, 550, 500, 450]);
    let rank = player_rank(&entries, &"Me".to_string(), 560);
    assert_eq!(rank, 6);
    let b = game_over_board(entries.len(), rank);
    assert_eq!(indices(&b.context), vec![5, 6, 7, 8]);
    assert!(b.context[1].is_player);
}

#[test]
fn podium_styles() {
    assert_eq!(rank_style(1), RankStyle::Gold);
    assert_eq!(rank_style(2), RankStyle::Silver);
    assert_eq!(rank_style(3), RankStyle::Bronze);
    assert_eq!(rank_style(4), RankStyle::Plain);
    assert_eq!(rank_style(0), RankStyle::Plain);
}

#[test]
fn screen_lists_at_most_ten() {
    assert_eq!(screen_row_count(true, 3), 3);
    assert_eq!(screen_row_count(true, 10), 10);
    assert_eq!(screen_row_count(true, 42), 10);
}

#[test]
fn anonymous_screen_lists_nothing() {
    assert_eq!(screen_row_count(false, 3), 0);
    assert_eq!(screen_row_count(false, 42), 0);
}

#[test]
fn game_over_panels() {
    assert_eq!(game_over_panel(false, false, 5), BoardPanel::SignIn);
    assert_eq!(game_over_panel(false, true, 0), BoardPanel::SignIn);
    assert_eq!(game_over_panel(true, true, 5), BoardPanel::Loading);
    assert_eq!(game_over_panel(true, false, 0), BoardPanel::Loading);
    assert_eq!(game_over_panel(true, false, 5), BoardPanel::Rows);
}

#[test]
fn row_names_are_cut_at_twelve_bytes() {
    assert_eq!(row_name("SpaceFarter"), "SpaceFarter");
    assert_eq!(row_name("TwelveLetter"), "TwelveLetter");
    assert_eq!(row_name("AVeryLongPlayerName"), "AVeryLongPla");
    assert_eq!(row_name("éééééééé"), "éééééé");
}

#[test]
fn cache_hands_back_what_was_stored() {
    let mut cache = LeaderboardCache::new();
    assert!(cache.get_leaderboard().is_empty());
    cache.update_leaderboard_cache(vec![entry("SpaceFarter", 1500), entry("CloudKing", 999)]);
    let got = cache.get_leaderboard();
    assert_eq!(got.len(), 2);
    assert_eq!(got[0].name, "SpaceFarter");
    assert_eq!(got[1].score, 999);
}

#[test]
fn fetch_starts_once_until_finished() {
    let mut cache = LeaderboardCache::new();
    assert!(!cache.is_leaderboard_loading());
    assert!(cache.start_leaderboard_fetch());
    assert!(cache.is_leaderboard_loading());
    assert!(!cache.start_leaderboard_fetch());
    cache.finish_fetch();
    assert!(!cache.is_leaderboard_loading());
    assert!(cache.start_leaderboard_fetch());
}

#[test]
fn duplicates_keep_order_and_content() {
    let entries = vec![entry("A", 3), entry("B", 2)];
    let copy = duplicate_entries(&entries);
    assert_eq!(copy.len(), 2);
    assert_eq!(copy[0].name, "A");
    assert_eq!(copy[1].name, "B");
    assert_eq!(copy[1].score, 2);
    let one = entries[0].duplicate();
    assert_eq!(one.name, "A");
    assert_eq!(one.score, 3);
}
