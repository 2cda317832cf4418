use vstd::prelude::*;

use crate::error::Error;
use crate::rows::{LeaderboardRow, LevelsRow, XpRow};
use crate::text::{
    append_decimal, decimal, digits_of, is_digit, lemma_digits_of_are_digits,
    lemma_parse_i64_decimal, parse_i64, parse_page_footer, parse_page_footer_spec, str_equals,
};

verus! {

/// Number of members on a leaderboard page.
pub const PAGE_SIZE: i64 = 10i64;

/// The text Discord shows as a mention of the user `user_id`.
pub open spec fn mention_text(user_id: u64) -> Seq<char> {
    "<@"@ + decimal(user_id as int) + ">"@
}

/// Mentions the user `user_id` with `serenity`'s `UserId::new` and `Mentionable::mention`, and
/// renders the mention with `ToString`.
/// Claimed: the text is `<@`, the id in decimal, and `>`, as `Mention`'s `Display` writes a user
/// mention. `UserId::new` panics on 0, which the `requires` leaves out.
#[verifier::external_body]
fn user_mention(user_id: u64) -> (r: String)
    requires
        user_id != 0,
    ensures
        r@ == mention_text(user_id),
{
    serenity::all::Mentionable::mention(&serenity::all::UserId::new(user_id)).to_string()
}

/// How the `i`-th place (counting from 0) of the leaderboard is shown: medals for the first
/// three, `#` and the place counting from 1 after them.
pub open spec fn place_text(i: int) -> Seq<char> {
    if i == 0 {
        "🥇"@
    } else if i == 1 {
        "🥈"@
    } else if i == 2 {
        "🥉"@
    } else {
        "#"@ + decimal(i + 1)
    }
}

/// How the `i`-th place (counting from 0) of the leaderboard describes `row`.
pub open spec fn row_text(row: LeaderboardRow, i: int) -> Seq<char> {
    place_text(i) + " - "@ + mention_text(row.id as u64) + " - "@ + decimal(row.level as int)
        + "\n(Messages: "@ + decimal(row.message_count as int) + " | Total XP: "@ + decimal(
        row.xp as int,
    ) + ")"@
}

/// What follows the place in a leaderboard line for `row`: the same at every place.
pub open spec fn row_rest(row: LeaderboardRow) -> Seq<char> {
    " - "@ + mention_text(row.id as u64) + " - "@ + decimal(row.level as int) + "\n(Messages: "@
        + decimal(row.message_count as int) + " | Total XP: "@ + decimal(row.xp as int) + ")"@
}

proof fn lemma_place_text_shape(i: int)
    requires
        0 <= i,
    ensures
        place_text(i).len() > 0,
        forall|k: int| 0 <= k < place_text(i).len() ==> place_text(i)[k] != ' ',
        i >= 3 ==> place_text(i)[0] == '#' && place_text(i).drop_first() == digits_of((i + 1) as nat),
        i < 3 ==> place_text(i).len() == 1 && place_text(i)[0] != '#',
{
    reveal_strlit("🥇");
    reveal_strlit("🥈");
    reveal_strlit("🥉");
    reveal_strlit("#");
    if i >= 3 {
        lemma_digits_of_are_digits((i + 1) as nat);
        let d = digits_of((i + 1) as nat);
        assert(place_text(i).drop_first() =~= d);
        assert forall|k: int| 0 <= k < place_text(i).len() implies place_text(i)[k] != ' ' by {
            if k > 0 {
                assert(place_text(i)[k] == d[k - 1]);
                assert(is_digit(d[k - 1]));
            }
        }
    }
}

/// Different places get different place labels.
proof fn lemma_place_text_injective(i: int, j: int)
    requires
        0 <= i,
        0 <= j,
        i != j,
    ensures
        place_text(i) != place_text(j),
{
    lemma_place_text_shape(i);
    lemma_place_text_shape(j);
    reveal_strlit("🥇");
    reveal_strlit("🥈");
    reveal_strlit("🥉");
    if i >= 3 && j >= 3 {
        if place_text(i) == place_text(j) {
            lemma_digits_of_are_digits((i + 1) as nat);
            lemma_digits_of_are_digits((j + 1) as nat);
            assert(digits_of((i + 1) as nat) == digits_of((j + 1) as nat));
        }
    } else if i < 3 && j < 3 {
        assert(place_text(i)[0] != place_text(j)[0]);
    } else {
        assert(place_text(i)[0] != place_text(j)[0]);
    }
}

/// Law: the leaderboard lines of one row at two different places differ, and differ only in
/// the place: each line is its place label, in which no space occurs, followed by the same rest,
/// which starts with ` - `.
pub proof fn lemma_row_text_places_differ(row: LeaderboardRow, i: int, j: int)
    requires
        0 <= i,
        0 <= j,
        i != j,
    ensures
        row_text(row, i) == place_text(i) + row_rest(row),
        row_text(row, j) == place_text(j) + row_rest(row),
        row_rest(row).take(3) == " - "@,
        forall|k: int| 0 <= k < place_text(i).len() ==> place_text(i)[k] != ' ',
        forall|k: int| 0 <= k < place_text(j).len() ==> place_text(j)[k] != ' ',
        row_text(row, i) != row_text(row, j),
{
    let rest = row_rest(row);
    assert(row_text(row, i) =~= place_text(i) + rest);
    assert(row_text(row, j) =~= place_text(j) + rest);
    reveal_strlit(" - ");
    assert(rest.take(3) =~= " - "@);
    lemma_place_text_shape(i);
    lemma_place_text_shape(j);
    lemma_place_text_injective(i, j);
    let pi = place_text(i);
    let pj = place_text(j);
    if pi.len() == pj.len() {
        if forall|k: int| 0 <= k < pi.len() ==> pi[k] == pj[k] {
            assert(pi =~= pj);
        }
        let k = choose|k: int| 0 <= k < pi.len() && pi[k] != pj[k];
        assert((pi + rest)[k] == pi[k]);
        assert((pj + rest)[k] == pj[k]);
    } else {
        assert((pi + rest).len() != (pj + rest).len());
    }
}

/// The description of the `i`-th place (counting from 0) of the leaderboard, held by `row`.
pub fn row_as_desc(row: &LeaderboardRow, i: usize) -> (r: String)
    requires
        row.spec_user_id() is Some,
        i < usize::MAX,
    ensures
        r@ == row_text(*row, i as int),
{
    let mut s = String::new();
    if i == 0 {
        s.append("🥇");
    } else if i == 1 {
        s.append("🥈");
    } else if i == 2 {
        s.append("🥉");
    } else {
        s.append("#");
        append_decimal(&mut s, (i as i128) + 1);
    }
    s.append(" - ");
    let mention = user_mention(row.user_id());
    s.append(mention.as_str());
    s.append(" - ");
    append_decimal(&mut s, row.level() as i128);
    s.append("\n(Messages: ");
    append_decimal(&mut s, row.message_count() as i128);
    s.append(" | Total XP: ");
    append_decimal(&mut s, row.xp() as i128);
    s.append(")");
    s
}

/// The leaderboard text of the first `n` rows: their descriptions, each separated from the next
/// by an empty line.
pub open spec fn leaderboard_text(rows: Seq<LeaderboardRow>, n: nat) -> Seq<char>
    decreases n,
{
    if n == 0 {
        Seq::empty()
    } else if n == 1 {
        row_text(rows[0], 0)
    } else {
        leaderboard_text(rows, (n - 1) as nat) + "\n\n"@ + row_text(rows[n - 1], n - 1)
    }
}

/// Where the line of the `k`-th row starts in the leaderboard text: after the lines before it,
/// each followed by a blank line.
pub open spec fn line_start(rows: Seq<LeaderboardRow>, k: nat) -> int
    decreases k,
{
    if k == 0 {
        0
    } else {
        line_start(rows, (k - 1) as nat) + row_text(rows[k - 1], k - 1).len() + 2
    }
}

/// Law: the leaderboard text of the first `n` rows holds the line of every one of them, in
/// order: the `k`-th line stands at `line_start(rows, k)`, each line after the first follows a
/// blank line (`"\n\n"`), and nothing else is there: the text ends with the last line.
pub proof fn lemma_leaderboard_text_has_every_line(rows: Seq<LeaderboardRow>, n: nat)
    ensures
        n == 0 ==> leaderboard_text(rows, n).len() == 0,
        n > 0 ==> leaderboard_text(rows, n).len() == line_start(rows, n) - 2,
        forall|k: nat|
            k < n ==> leaderboard_text(rows, n).subrange(
                #[trigger] line_start(rows, k),
                line_start(rows, k) + row_text(rows[k as int], k as int).len(),
            ) == row_text(rows[k as int], k as int),
        forall|k: nat|
            0 < k < n ==> leaderboard_text(rows, n).subrange(
                #[trigger] line_start(rows, k) - 2,
                line_start(rows, k),
            ) == "\n\n"@,
    decreases n,
{
    reveal_strlit("\n\n");
    if n == 1 {
        let first = row_text(rows[0], 0);
        assert(line_start(rows, 0) == 0);
        assert(line_start(rows, 1) == first.len() + 2);
        assert(first.subrange(0, first.len() as int) =~= first);
    } else if n > 1 {
        let m = (n - 1) as nat;
        lemma_leaderboard_text_has_every_line(rows, m);
        let prev = leaderboard_text(rows, m);
        let last = row_text(rows[n - 1], n - 1);
        let sep = "\n\n"@;
        let text = leaderboard_text(rows, n);
        assert(text == prev + sep + last);
        assert(line_start(rows, n) == line_start(rows, m) + last.len() + 2);
        assert forall|k: nat| k < n implies text.subrange(
            #[trigger] line_start(rows, k),
            line_start(rows, k) + row_text(rows[k as int], k as int).len(),
        ) == row_text(rows[k as int], k as int) by {
            if k < m {
                lemma_line_start_grows(rows, k, m);
                lemma_line_start_grows(rows, 0, k);
                lemma_concat_keeps_prefix(
                    prev,
                    sep,
                    last,
                    line_start(rows, k),
                    line_start(rows, k) + row_text(rows[k as int], k as int).len(),
                );
            } else {
                lemma_concat_ends(prev, sep, last);
            }
        }
        assert forall|k: nat| 0 < k < n implies text.subrange(
            #[trigger] line_start(rows, k) - 2,
            line_start(rows, k),
        ) == "\n\n"@ by {
            if k < m {
                lemma_line_start_grows(rows, k, m);
                lemma_line_start_grows(rows, 0, k);
                lemma_concat_keeps_prefix(prev, sep, last, line_start(rows, k) - 2, line_start(rows, k));
            } else {
                lemma_concat_ends(prev, sep, last);
            }
        }
    }
}

proof fn lemma_concat_keeps_prefix(prev: Seq<char>, sep: Seq<char>, last: Seq<char>, a: int, b: int)
    requires
        0 <= a <= b <= prev.len(),
    ensures
        (prev + sep + last).subrange(a, b) == prev.subrange(a, b),
{
    assert((prev + sep + last).subrange(a, b) =~= prev.subrange(a, b));
}

proof fn lemma_concat_ends(prev: Seq<char>, sep: Seq<char>, last: Seq<char>)
    ensures
        (prev + sep + last).subrange(
            (prev.len() + sep.len()) as int,
            (prev.len() + sep.len() + last.len()) as int,
        ) == last,
        (prev + sep + last).subrange(prev.len() as int, (prev.len() + sep.len()) as int) == sep,
{
    assert((prev + sep + last).subrange(
        (prev.len() + sep.len()) as int,
        (prev.len() + sep.len() + last.len()) as int,
    ) =~= last);
    assert((prev + sep + last).subrange(prev.len() as int, (prev.len() + sep.len()) as int)
        =~= sep);
}

proof fn lemma_line_start_grows(rows: Seq<LeaderboardRow>, a: nat, b: nat)
    requires
        a <= b,
    ensures
        line_start(rows, a) + 2 * (b - a) <= line_start(rows, b),
        a < b ==> line_start(rows, a) + row_text(rows[a as int], a as int).len() + 2 <= line_start(
            rows,
            b,
        ),
    decreases b,
{
    if a < b {
        lemma_line_start_grows(rows, a, (b - 1) as nat);
    }
}

/// The description of a leaderboard page that shows `rows`, in their order.
pub fn leaderboard_description(rows: &Vec<LeaderboardRow>) -> (r: String)
    requires
        forall|i: int| 0 <= i < rows@.len() ==> (#[trigger] rows@[i]).spec_user_id() is Some,
        rows@.len() < usize::MAX,
    ensures
        r@ == leaderboard_text(rows@, rows@.len()),
{
    let mut s = String::new();
    let mut i: usize = 0;
    while i < rows.len()
        invariant
            i <= rows@.len(),
            rows@.len() < usize::MAX,
            forall|j: int| 0 <= j < rows@.len() ==> (#[trigger] rows@[j]).spec_user_id() is Some,
            s@ == leaderboard_text(rows@, i as nat),
        decreases rows.len() - i,
    {
        let desc = row_as_desc(&rows[i], i);
        if i > 0 {
            s.append("\n\n");
        }
        s.append(desc.as_str());
        i = i + 1;
    }
    s
}

/// The value shown for a member on the leaderboard of the guild slash command.
pub open spec fn field_value_text(row: LeaderboardRow) -> Seq<char> {
    "Messages: "@ + decimal(row.message_count as int) + " | Total XP: "@ + decimal(row.xp as int)
        + " | Level: "@ + decimal(row.level as int)
}

/// The value shown for `row` on the leaderboard of the guild slash command.
pub fn leaderboard_field_value(row: &LeaderboardRow) -> (r: String)
    ensures
        r@ == field_value_text(*row),
{
    let mut s = String::new();
    s.append("Messages: ");
    append_decimal(&mut s, row.message_count as i128);
    s.append(" | Total XP: ");
    append_decimal(&mut s, row.xp as i128);
    s.append(" | Level: ");
    append_decimal(&mut s, row.level as i128);
    s
}

/// The description of the `/xp` answer for `row`.
pub open spec fn xp_text(row: XpRow) -> Seq<char> {
    "Current XP: "@ + decimal(row.xp as int) + "\nLevel: "@ + decimal(row.level as int)
        + "\nTotal XP: "@ + decimal(row.total_xp as int)
}

/// The description of the `/xp` answer for `row`.
pub fn xp_description(row: &XpRow) -> (r: String)
    ensures
        r@ == xp_text(*row),
{
    let mut s = String::new();
    s.append("Current XP: ");
    append_decimal(&mut s, row.xp() as i128);
    s.append("\nLevel: ");
    append_decimal(&mut s, row.level() as i128);
    s.append("\nTotal XP: ");
    append_decimal(&mut s, row.total_xp() as i128);
    s
}

/// Law: the numbers in the `/xp` answer read back, as `i64::from_str` reads them, as the row's
/// XP, level and total XP.
pub proof fn lemma_xp_text_reads_back(row: XpRow)
    ensures
        exists|a: Seq<char>, b: Seq<char>, c: Seq<char>|
            xp_text(row) == "Current XP: "@ + a + "\nLevel: "@ + b + "\nTotal XP: "@ + c && parse_i64(
                a,
            ) == Some(row.xp as i64) && parse_i64(b) == Some(row.level as i64) && parse_i64(c)
                == Some(row.total_xp),
{
    lemma_parse_i64_decimal(row.xp as i64);
    lemma_parse_i64_decimal(row.level as i64);
    lemma_parse_i64_decimal(row.total_xp);
    let a = decimal(row.xp as int);
    let b = decimal(row.level as int);
    let c = decimal(row.total_xp as int);
    assert(xp_text(row) == "Current XP: "@ + a + "\nLevel: "@ + b + "\nTotal XP: "@ + c);
}

/// Law: the numbers in a leaderboard field read back, as `i64::from_str` reads them, as the
/// row's message count, XP and level.
pub proof fn lemma_field_value_reads_back(row: LeaderboardRow)
    ensures
        exists|a: Seq<char>, b: Seq<char>, c: Seq<char>|
            field_value_text(row) == "Messages: "@ + a + " | Total XP: "@ + b + " | Level: "@ + c
                && parse_i64(a) == Some(row.message_count) && parse_i64(b) == Some(row.xp as i64)
                && parse_i64(c) == Some(row.level as i64),
{
    lemma_parse_i64_decimal(row.message_count);
    lemma_parse_i64_decimal(row.xp as i64);
    lemma_parse_i64_decimal(row.level as i64);
    let a = decimal(row.message_count as int);
    let b = decimal(row.xp as int);
    let c = decimal(row.level as int);
    assert(field_value_text(row) == "Messages: "@ + a + " | Total XP: "@ + b + " | Level: "@ + c);
}

/// Law: in a leaderboard line, the numbers after the mention read back, as `i64::from_str`
/// reads them, as the row's level, message count and XP.
pub proof fn lemma_row_text_reads_back(row: LeaderboardRow, i: int)
    ensures
        exists|a: Seq<char>, b: Seq<char>, c: Seq<char>|
            row_text(row, i) == place_text(i) + " - "@ + mention_text(row.id as u64) + " - "@ + a
                + "\n(Messages: "@ + b + " | Total XP: "@ + c + ")"@ && parse_i64(a) == Some(
                row.level as i64,
            ) && parse_i64(b) == Some(row.message_count) && parse_i64(c) == Some(row.xp as i64),
{
    lemma_parse_i64_decimal(row.level as i64);
    lemma_parse_i64_decimal(row.message_count);
    lemma_parse_i64_decimal(row.xp as i64);
    let a = decimal(row.level as int);
    let b = decimal(row.message_count as int);
    let c = decimal(row.xp as int);
    assert(row_text(row, i) == place_text(i) + " - "@ + mention_text(row.id as u64) + " - "@ + a
        + "\n(Messages: "@ + b + " | Total XP: "@ + c + ")"@);
}

/// A button under the leaderboard.
#[derive(Clone, Copy, Debug, PartialEq, Eq, Structural)]
pub enum LeaderboardButton {
    /// One page back.
    Previous,
    /// The page of the member who pressed.
    User,
    /// One page on.
    Next,
}

/// The button of the `/levels` leaderboard with the custom id `custom_id`.
pub fn leaderboard_button(custom_id: &str) -> (r: Option<LeaderboardButton>)
    ensures
        custom_id@ == "previous"@ ==> r == Some(LeaderboardButton::Previous),
        custom_id@ == "user"@ ==> r == Some(LeaderboardButton::User),
        custom_id@ == "next"@ ==> r == Some(LeaderboardButton::Next),
        custom_id@ != "previous"@ && custom_id@ != "user"@ && custom_id@ != "next"@ ==> r is None,
{
    proof {
        reveal_strlit("previous");
        reveal_strlit("user");
        reveal_strlit("next");
        assert("user"@.len() != "previous"@.len());
        assert("next"@.len() != "previous"@.len());
        assert("next"@[0] != "user"@[0]);
    }
    if str_equals(custom_id, "previous") {
        Some(LeaderboardButton::Previous)
    } else if str_equals(custom_id, "user") {
        Some(LeaderboardButton::User)
    } else if str_equals(custom_id, "next") {
        Some(LeaderboardButton::Next)
    } else {
        None
    }
}

/// The button of the guild leaderboard with the custom id `custom_id`.
pub fn levels_button(custom_id: &str) -> (r: Option<LeaderboardButton>)
    ensures
        custom_id@ == "levels_previous"@ ==> r == Some(LeaderboardButton::Previous),
        custom_id@ == "levels_user"@ ==> r == Some(LeaderboardButton::User),
        custom_id@ == "levels_next"@ ==> r == Some(LeaderboardButton::Next),
        custom_id@ != "levels_previous"@ && custom_id@ != "levels_user"@ && custom_id@
            != "levels_next"@ ==> r is None,
{
    proof {
        reveal_strlit("levels_previous");
        reveal_strlit("levels_user");
        reveal_strlit("levels_next");
        assert("levels_user"@.len() != "levels_previous"@.len());
        assert("levels_next"@.len() != "levels_previous"@.len());
        assert("levels_next"@[7] != "levels_user"@[7]);
    }
    if str_equals(custom_id, "levels_previous") {
        Some(LeaderboardButton::Previous)
    } else if str_equals(custom_id, "levels_user") {
        Some(LeaderboardButton::User)
    } else if str_equals(custom_id, "levels_next") {
        Some(LeaderboardButton::Next)
    } else {
        None
    }
}

impl LeaderboardButton {
    /// Whether answering the button needs the rank of the member who pressed it.
    pub fn needs_user_rank(&self) -> (r: bool)
        ensures
            r == (*self == LeaderboardButton::User),
    {
        match self {
            LeaderboardButton::User => true,
            _ => false,
        }
    }
}

/// The page (counting from 0) that the `x`-th member falls on: division by the page size that
/// rounds towards zero, as Rust's `/` does.
pub open spec fn page_index(x: int) -> int {
    if x >= 0 {
        x / (PAGE_SIZE as int)
    } else {
        -((-x) / (PAGE_SIZE as int))
    }
}

fn page_index_of(x: i64) -> (r: i64)
    ensures
        r == page_index(x as int),
{
    if x >= 0 {
        x / PAGE_SIZE
    } else {
        let magnitude = (-(x as i128)) as u64;
        -((magnitude / (PAGE_SIZE as u64)) as i64)
    }
}

/// The page number, before it is shifted by one, that a `/levels` leaderboard button leads
/// to, or `None` when the button needs a rank that the member lacks.
pub open spec fn leaderboard_target(
    button: LeaderboardButton,
    footer_page: Option<i64>,
    user_rank: Option<i64>,
) -> Option<int> {
    match button {
        LeaderboardButton::Previous => Some(footer_page.unwrap() - 1),
        LeaderboardButton::User => match user_rank {
            Some(rank) => Some(page_index(rank as int) + 1),
            None => None,
        },
        LeaderboardButton::Next => Some(footer_page.unwrap() + 1),
    }
}

/// The page that a press on a `/levels` leaderboard button shows, given the footer of the page
/// it was pressed on and, for the member's own page, their rank: one back, the member's page,
/// or one on, never below page 1, and then one page further on (as the command passes the page
/// number plus one when it draws the page). `None` when the member has no rank: nothing changes.
pub fn leaderboard_page(button: LeaderboardButton, footer: &str, user_rank: Option<i64>) -> (r:
    Option<i64>)
    requires
        button != LeaderboardButton::User ==> parse_page_footer_spec(footer@) is Some,
        button == LeaderboardButton::Previous ==> parse_page_footer_spec(footer@).unwrap()
            > i64::MIN,
        button == LeaderboardButton::Next ==> parse_page_footer_spec(footer@).unwrap() + 1
            < i64::MAX,
    ensures
        r == match leaderboard_target(button, parse_page_footer_spec(footer@), user_rank) {
            Some(p) => Some((if p < 1 {
                1
            } else {
                p
            } + 1) as i64),
            None => None,
        },
        button == LeaderboardButton::Next && parse_page_footer_spec(footer@).unwrap() >= 0 ==> r
            == Some((parse_page_footer_spec(footer@).unwrap() + 2) as i64),
        button == LeaderboardButton::Previous && parse_page_footer_spec(footer@).unwrap() >= 2
            ==> r == Some(parse_page_footer_spec(footer@).unwrap()),
        button == LeaderboardButton::Previous ==> (r matches Some(q) && q >= 2),
        button == LeaderboardButton::User && user_rank is None ==> r is None,
        button == LeaderboardButton::User && user_rank is Some && user_rank.unwrap() >= 0 ==> (r
            matches Some(q) && (q - 2) * PAGE_SIZE <= user_rank.unwrap() < (q - 1) * PAGE_SIZE),
{
    let target = match button {
        LeaderboardButton::Previous => {
            let page = parse_page_footer(footer);
            page.unwrap() - 1
        },
        LeaderboardButton::User => match user_rank {
            Some(rank) => page_index_of(rank) + 1,
            None => {
                return None;
            },
        },
        LeaderboardButton::Next => {
            let page = parse_page_footer(footer);
            page.unwrap() + 1
        },
    };
    let page = if target < 1 {
        1
    } else {
        target
    };
    Some(page + 1)
}

/// The page that a press on a guild leaderboard button leads to, given the footer of the page
/// it was pressed on and, for the member's own page, their rank: one back but not below page 1,
/// the page of the member's rank, or one on.
pub open spec fn levels_target(button: LeaderboardButton, footer_page: i64, user_rank: i64) -> int {
    match button {
        LeaderboardButton::Previous => if footer_page - 1 < 1 {
            1
        } else {
            footer_page - 1
        },
        LeaderboardButton::User => page_index(user_rank - 1) + 1,
        LeaderboardButton::Next => footer_page + 1,
    }
}

/// The page that a press on a guild leaderboard button shows, given the footer of the page it
/// was pressed on and, for the member's own page, their rank.
pub fn levels_page(button: LeaderboardButton, footer: &str, user_rank: Option<i64>) -> (r: i64)
    requires
        parse_page_footer_spec(footer@) is Some,
        button == LeaderboardButton::Previous ==> parse_page_footer_spec(footer@).unwrap()
            > i64::MIN,
        button == LeaderboardButton::User ==> user_rank is Some && user_rank.unwrap() > i64::MIN,
        button == LeaderboardButton::Next ==> parse_page_footer_spec(footer@).unwrap() < i64::MAX,
    ensures
        r == levels_target(
            button,
            parse_page_footer_spec(footer@).unwrap(),
            user_rank.unwrap_or(0),
        ),
        button == LeaderboardButton::Next ==> r == parse_page_footer_spec(footer@).unwrap() + 1,
        button == LeaderboardButton::Previous ==> r >= 1,
        button == LeaderboardButton::Previous && parse_page_footer_spec(footer@).unwrap() >= 2
            ==> r == parse_page_footer_spec(footer@).unwrap() - 1,
        button == LeaderboardButton::Previous && parse_page_footer_spec(footer@).unwrap() < 2
            ==> r == 1,
        button == LeaderboardButton::User && user_rank.unwrap() >= 1 ==> (r - 1) * PAGE_SIZE
            <= user_rank.unwrap() - 1 < r * PAGE_SIZE,
{
    let page = parse_page_footer(footer).unwrap();
    match button {
        LeaderboardButton::Previous => {
            let previous = page - 1;
            if previous < 1 {
                1
            } else {
                previous
            }
        },
        LeaderboardButton::User => page_index_of(user_rank.unwrap() - 1) + 1,
        LeaderboardButton::Next => page + 1,
    }
}

/// Law: on the guild leaderboard, going one page on and then one page back returns to the page
/// one started from.
pub proof fn lemma_levels_next_then_previous(page: i64, rank: i64)
    requires
        1 <= page < i64::MAX,
    ensures
        levels_target(
            LeaderboardButton::Previous,
            levels_target(LeaderboardButton::Next, page, rank) as i64,
            rank,
        ) == page,
{
}

/// Law: on the guild leaderboard, going back from page `page` never leads below page 1, and
/// leads to the page before when there is one.
pub proof fn lemma_levels_previous_floor(page: i64, rank: i64)
    requires
        page > i64::MIN,
    ensures
        levels_target(LeaderboardButton::Previous, page, rank) >= 1,
        page >= 2 ==> levels_target(LeaderboardButton::Previous, page, rank) == page - 1,
{
}

/// Refuses a press on a guild leaderboard button by anyone but the member who opened it.
/// `author` is that member, when the message tells who opened it.
pub fn check_interaction_author(author: Option<u64>, user: u64) -> (r: Result<(), Error>)
    ensures
        r == (match author {
            Some(a) => if a != user {
                Err(Error::NotInteractionAuthor)
            } else {
                Ok(())
            },
            None => Ok(()),
        }),
{
    match author {
        Some(a) => if a != user {
            Err(Error::NotInteractionAuthor)
        } else {
            Ok(())
        },
        None => Ok(()),
    }
}

} // verus!
