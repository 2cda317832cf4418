use levels::commands::CommandOptionKind;
use levels::Commands;

#[test]
fn register_defines_the_three_commands() {
    let [levels, rank, xp] = Commands::register();
    assert_eq!((levels.name, levels.description), ("levels", "Get the leaderboard"));
    assert!(levels.options.is_empty());

    assert_eq!((rank.name, rank.description), ("rank", "Get your rank or another member's rank"));
    assert_eq!(rank.options.len(), 2);
    assert_eq!(rank.options[0].kind, CommandOptionKind::User);
    assert_eq!((rank.options[0].name, rank.options[0].description), ("user", "The user to get the xp of"));
    assert_eq!(rank.options[1].kind, CommandOptionKind::Boolean);
    assert_eq!(
        (rank.options[1].name, rank.options[1].description),
        ("ephemeral", "Whether the response should be ephemeral")
    );

    assert_eq!((xp.name, xp.description), ("xp", "Get your current xp"));
    assert_eq!(xp.options.len(), 1);
    assert_eq!(xp.options[0].kind, CommandOptionKind::Boolean);
    assert_eq!(xp.options[0].name, "ephemeral");
}
