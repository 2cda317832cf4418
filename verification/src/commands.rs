use vstd::prelude::*;

verus! {

/// The slash commands of the levels feature.
pub struct Commands;

/// The kind of value a slash command option takes.
#[derive(Clone, Copy, Debug, PartialEq, Eq, Structural)]
pub enum CommandOptionKind {
    User,
    Boolean,
}

/// An option of a slash command.
pub struct CommandOption {
    pub kind: CommandOptionKind,
    pub name: &'static str,
    pub description: &'static str,
}

/// A slash command as it is registered with Discord.
pub struct CommandDefinition {
    pub name: &'static str,
    pub description: &'static str,
    pub options: Vec<CommandOption>,
}

/// The option that asks for the answer to be shown to the caller only.
pub open spec fn is_ephemeral_option(option: CommandOption) -> bool {
    &&& option.kind == CommandOptionKind::Boolean
    &&& option.name@ == "ephemeral"@
    &&& option.description@ == "Whether the response should be ephemeral"@
}

/// The `/levels` command: the leaderboard, without options.
pub open spec fn is_levels_command(command: CommandDefinition) -> bool {
    &&& command.name@ == "levels"@
    &&& command.description@ == "Get the leaderboard"@
    &&& command.options@.len() == 0
}

/// The `/rank` command: a member's rank, with an optional member and the ephemeral option.
pub open spec fn is_rank_command(command: CommandDefinition) -> bool {
    &&& command.name@ == "rank"@
    &&& command.description@ == "Get your rank or another member's rank"@
    &&& command.options@.len() == 2
    &&& command.options@[0].kind == CommandOptionKind::User
    &&& command.options@[0].name@ == "user"@
    &&& command.options@[0].description@ == "The user to get the xp of"@
    &&& is_ephemeral_option(command.options@[1])
}

/// The `/xp` command: the caller's XP, with the ephemeral option.
pub open spec fn is_xp_command(command: CommandDefinition) -> bool {
    &&& command.name@ == "xp"@
    &&& command.description@ == "Get your current xp"@
    &&& command.options@.len() == 1
    &&& is_ephemeral_option(command.options@[0])
}

fn ephemeral_option() -> (r: CommandOption)
    ensures
        is_ephemeral_option(r),
{
    CommandOption {
        kind: CommandOptionKind::Boolean,
        name: "ephemeral",
        description: "Whether the response should be ephemeral",
    }
}

/// The `/rank` command.
pub fn rank_command() -> (r: CommandDefinition)
    ensures
        is_rank_command(r),
{
    let mut options = Vec::new();
    options.push(
        CommandOption {
            kind: CommandOptionKind::User,
            name: "user",
            description: "The user to get the xp of",
        },
    );
    options.push(ephemeral_option());
    CommandDefinition {
        name: "rank",
        description: "Get your rank or another member's rank",
        options,
    }
}

/// The `/levels` command.
pub fn levels_command() -> (r: CommandDefinition)
    ensures
        is_levels_command(r),
{
    CommandDefinition { name: "levels", description: "Get the leaderboard", options: Vec::new() }
}

impl Commands {
    /// The commands to register: `/levels`, `/rank` and `/xp`, in that order.
    pub fn register() -> (r: [CommandDefinition; 3])
        ensures
            is_levels_command(r[0]),
            is_rank_command(r[1]),
            is_xp_command(r[2]),
    {
        let levels = levels_command();
        let rank = rank_command();
        let mut xp_options = Vec::new();
        xp_options.push(ephemeral_option());
        let xp = CommandDefinition {
            name: "xp",
            description: "Get your current xp",
            options: xp_options,
        };
        [levels, rank, xp]
    }
}

} // verus!
