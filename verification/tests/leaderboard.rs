use levels::leaderboard::{
    check_interaction_author, leaderboard_button, leaderboard_description, leaderboard_field_value,
    leaderboard_page, levels_button, levels_page, xp_description, LeaderboardButton,
};
use levels::rows::{LeaderboardRow, XpRow};
use levels::{row_as_desc, Error};

fn entry(id: i64, xp: i32, level: i32, message_count: i64) -> LeaderboardRow {
    LeaderboardRow { id, xp, level, message_count }
}

#[test]
fn row_as_desc_with_medals() {
    let row = entry(42, 30, 5, 7);
    assert_eq!(row_as_desc(&row, 0), "🥇 - <@42> - 5\n(Messages: 7 | Total XP: 30)");
    assert_eq!(row_as_desc(&row, 1), "🥈 - <@42> - 5\n(Messages: 7 | Total XP: 30)");
    assert_eq!(row_as_desc(&row, 2), "🥉 - <@42> - 5\n(Messages: 7 | Total XP: 30)");
}

#[test]
fn row_as_desc_with_place_number() {
    let row = entry(1234567890123, 0, 0, 0);
    assert_eq!(row_as_desc(&row, 3), "#4 - <@1234567890123> - 0\n(Messages: 0 | Total XP: 0)");
    assert_eq!(row_as_desc(&row, 99), "#100 - <@1234567890123> - 0\n(Messages: 0 | Total XP: 0)");
}

#[test]
fn row_as_desc_of_a_negative_stored_id() {
    let row = entry(-1, -3, -1, -2);
    assert_eq!(
        row_as_desc(&row, 5),
        "#6 - <@18446744073709551615> - -1\n(Messages: -2 | Total XP: -3)"
    );
}

#[test]
fn leaderboard_description_joins_the_rows() {
    let rows = vec![entry(1, 10, 1, 2), entry(2, 20, 2, 3), entry(3, 30, 3, 4), entry(4, 40, 4, 5)];
    let expected = [
        "🥇 - <@1> - 1\n(Messages: 2 | Total XP: 10)",
        "🥈 - <@2> - 2\n(Messages: 3 | Total XP: 20)",
        "🥉 - <@3> - 3\n(Messages: 4 | Total XP: 30)",
        "#4 - <@4> - 4\n(Messages: 5 | Total XP: 40)",
    ]
    .join("\n\n");
    assert_eq!(leaderboard_description(&rows), expected);
    assert_eq!(leaderboard_description(&Vec::new()), "");
    assert_eq!(leaderboard_description(&vec![entry(9, 1, 2, 3)]), "🥇 - <@9> - 2\n(Messages: 3 | Total XP: 1)");
}

#[test]
fn field_value_and_xp_description() {
    assert_eq!(leaderboard_field_value(&entry(1, 250, 3, 17)), "Messages: 17 | Total XP: 250 | Level: 3");
    let row = XpRow { xp: 12, level: 3, total_xp: 567 };
    assert_eq!(xp_description(&row), "Current XP: 12\nLevel: 3\nTotal XP: 567");
    assert_eq!(xp_description(&XpRow::default()), "Current XP: 0\nLevel: 1\nTotal XP: 0");
}

#[test]
fn buttons_by_custom_id() {
    assert_eq!(leaderboard_button("previous"), Some(LeaderboardButton::Previous));
    assert_eq!(leaderboard_button("user"), Some(LeaderboardButton::User));
    assert_eq!(leaderboard_button("next"), Some(LeaderboardButton::Next));
    assert_eq!(leaderboard_button("levels_next"), None);
    assert_eq!(levels_button("levels_previous"), Some(LeaderboardButton::Previous));
    assert_eq!(levels_button("levels_user"), Some(LeaderboardButton::User));
    assert_eq!(levels_button("levels_next"), Some(LeaderboardButton::Next));
    assert_eq!(levels_button("next"), None);
    assert!(LeaderboardButton::User.needs_user_rank());
    assert!(!LeaderboardButton::Next.needs_user_rank());
}

#[test]
fn leaderboard_page_moves_and_shifts_by_one() {
    assert_eq!(leaderboard_page(LeaderboardButton::Previous, "Page 1", None), Some(2));
    assert_eq!(leaderboard_page(LeaderboardButton::Previous, "Page 5", None), Some(5));
    assert_eq!(leaderboard_page(LeaderboardButton::Next, "Page 1", None), Some(3));
    assert_eq!(leaderboard_page(LeaderboardButton::User, "whatever", Some(25)), Some(4));
    assert_eq!(leaderboard_page(LeaderboardButton::User, "Page 3", Some(-15)), Some(2));
    assert_eq!(leaderboard_page(LeaderboardButton::User, "Page 3", None), None);
}

#[test]
fn levels_page_moves() {
    assert_eq!(levels_page(LeaderboardButton::Previous, "Page 1", None), 1);
    assert_eq!(levels_page(LeaderboardButton::Previous, "Page 4", None), 3);
    assert_eq!(levels_page(LeaderboardButton::Next, "Page 4", None), 5);
    assert_eq!(levels_page(LeaderboardButton::User, "Page 4", Some(1)), 1);
    assert_eq!(levels_page(LeaderboardButton::User, "Page 4", Some(10)), 1);
    assert_eq!(levels_page(LeaderboardButton::User, "Page 4", Some(11)), 2);
    assert_eq!(levels_page(LeaderboardButton::User, "Page 4", Some(-19)), -1);
}

#[test]
fn levels_next_then_previous_returns() {
    for page in [1i64, 2, 7, 1000] {
        let next = levels_page(LeaderboardButton::Next, &format!("Page {page}"), None);
        let back = levels_page(LeaderboardButton::Previous, &format!("Page {next}"), None);
        assert_eq!(back, page);
    }
}

#[test]
fn only_the_author_may_press() {
    assert_eq!(check_interaction_author(Some(5), 6), Err(Error::NotInteractionAuthor));
    assert_eq!(check_interaction_author(Some(5), 5), Ok(()));
    assert_eq!(check_interaction_author(None, 6), Ok(()));
    assert_eq!(Error::NotInteractionAuthor.as_str(), "NotInteractionAuthor");
}

#[test]
fn row_as_desc_differs_only_in_the_place() {
    let row = entry(42, 30, 5, 7);
    let places = [0usize, 1, 2, 3, 8, 9, 10, 99, 100];
    let lines: Vec<String> = places.iter().map(|&i| row_as_desc(&row, i)).collect();
    for (a, line_a) in lines.iter().enumerate() {
        let rest_a = &line_a[line_a.find(" - ").unwrap()..];
        for (b, line_b) in lines.iter().enumerate() {
            let rest_b = &line_b[line_b.find(" - ").unwrap()..];
            assert_eq!(rest_a, rest_b);
            assert_eq!(a == b, line_a == line_b);
        }
    }
}
