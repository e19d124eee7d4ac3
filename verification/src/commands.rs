//! The commands that can be handed to single users, and the search for one
//! of them by name or alias.

use vstd::prelude::*;
use crate::table::first_place;
use crate::table::lemma_first_place_found;
use crate::text::lowercase_of;
use crate::text::starts_with;
use crate::text::to_lowercase;

verus! {

/// Why a command could not be handed to, or taken from, a user.
#[derive(Clone, Copy, Debug, PartialEq, Eq, Structural)]
pub enum CommandRestrictErr {
    CommandNotFound,
    AlreadyExists,
    DoesntExist,
    FrameworkOwner,
    NotOwnerCommand,
}

/// What the search needs to know of a command.
#[derive(Debug)]
pub struct CommandInfo {
    pub name: String,
    pub aliases: Vec<String>,
    pub category: Option<String>,
    /// Whether only the owners of the framework may call it.
    pub owners_only: bool,
}

/// What the search needs to know of a command, as plain values.
pub struct CommandView {
    pub name: Seq<char>,
    pub aliases: Seq<Seq<char>>,
    pub category: Option<Seq<char>>,
    pub owners_only: bool,
}

impl View for CommandInfo {
    type V = CommandView;

    open spec fn view(&self) -> CommandView {
        CommandView {
            name: self.name@,
            aliases: self.aliases.deep_view(),
            category: self.category.deep_view(),
            owners_only: self.owners_only,
        }
    }
}

/// What a list of commands says, command by command.
pub open spec fn command_views(list: Seq<CommandInfo>) -> Seq<CommandView> {
    list.map_values(|c: CommandInfo| c@)
}

/// Whether a category, given in lower case, is one of the administrators'.
pub open spec fn admin_text(lowered: Seq<char>) -> bool {
    "admin"@.is_prefix_of(lowered)
}

/// Whether a command of this category can be handed to a single user: the
/// category, in whatever case it is written, must begin with "admin".
pub open spec fn admin_category(category: Option<Seq<char>>) -> bool {
    match category {
        Some(c) => admin_text(lowercase_of(c)),
        None => false,
    }
}

/// For each of `commands`, whether it can be handed to a single user.
pub open spec fn admin_flags(commands: Seq<CommandView>) -> Seq<bool> {
    Seq::new(commands.len(), |i: int| admin_category(commands[i].category))
}

/// Whether `c` goes by the name `wanted`, as its name or as an alias.
pub open spec fn answers_to(c: CommandView, wanted: Seq<char>) -> bool {
    c.name == wanted || c.aliases.contains(wanted)
}

/// The place of the first of `commands` that is flagged and goes by the
/// name `wanted`.
pub open spec fn selection(commands: Seq<CommandView>, flags: Seq<bool>, wanted: Seq<char>) -> Option<int> {
    first_place(Seq::new(commands.len(), |i: int| i), |i: int| flags[i] && answers_to(commands[i], wanted))
}

/// What the search answers: the name of the first flagged command that goes
/// by `wanted`, unless only the owners of the framework may call it. Where
/// there is none, or where it has an empty name, no command is found.
pub open spec fn selection_result(commands: Seq<CommandView>, flags: Seq<bool>, wanted: Seq<char>) -> Result<
    Seq<char>,
    CommandRestrictErr,
> {
    match selection(commands, flags, wanted) {
        None => Err(CommandRestrictErr::CommandNotFound),
        Some(i) => if commands[i].owners_only {
            Err(CommandRestrictErr::FrameworkOwner)
        } else if commands[i].name.len() == 0 {
            Err(CommandRestrictErr::CommandNotFound)
        } else {
            Ok(commands[i].name)
        },
    }
}

fn has_alias(aliases: &Vec<String>, wanted: &String) -> (r: bool)
    ensures
        r == aliases.deep_view().contains(wanted@),
{
    let mut i: usize = 0;
    while i < aliases.len()
        invariant
            i <= aliases.len(),
            forall|j: int| 0 <= j < i ==> aliases.deep_view()[j] != wanted@,
        decreases aliases.len() - i,
    {
        if aliases[i] == *wanted {
            assert(aliases.deep_view()[i as int] == wanted@);
            return true;
        }
        i += 1;
    }
    false
}

/// Whether a category, given in lower case, is one of the administrators'.
pub fn is_admin_text(lowered: &str) -> (r: bool)
    ensures
        r == admin_text(lowered@),
{
    starts_with(lowered, "admin")
}

/// Whether a command of this category can be handed to a single user.
pub fn is_admin_category(category: &Option<String>) -> (r: bool)
    ensures
        r == admin_category(category.deep_view()),
{
    match category {
        Some(c) => {
            let lowered = to_lowercase(c.as_str());
            is_admin_text(lowered.as_str())
        },
        None => false,
    }
}

/// Searches `commands` for the first that is flagged in `flags` and goes by
/// the name `wanted`, and answers its name.
pub fn select_command(commands: &[CommandInfo], flags: &Vec<bool>, wanted: &String) -> (r: Result<
    String,
    CommandRestrictErr,
>)
    requires
        flags@.len() == commands@.len(),
    ensures
        match r {
            Ok(name) => selection_result(command_views(commands@), flags@, wanted@) == Ok::<
                Seq<char>,
                CommandRestrictErr,
            >(name@),
            Err(e) => selection_result(command_views(commands@), flags@, wanted@) == Err::<
                Seq<char>,
                CommandRestrictErr,
            >(e),
        },
{
    let ghost views = command_views(commands@);
    let ghost places = Seq::new(views.len(), |i: int| i);
    let ghost fits = |i: int| flags@[i] && answers_to(views[i], wanted@);
    let mut i: usize = 0;
    while i < commands.len()
        invariant
            i <= commands.len(),
            flags@.len() == commands@.len(),
            views == command_views(commands@),
            places == Seq::new(views.len(), |i: int| i),
            fits == (|i: int| flags@[i] && answers_to(views[i], wanted@)),
            forall|j: int| 0 <= j < i ==> !fits(#[trigger] places[j]),
        decreases commands.len() - i,
    {
        let command = &commands[i];
        if flags[i] && (command.name == *wanted || has_alias(&command.aliases, wanted)) {
            proof {
                lemma_first_place_found(places, fits, i as int);
            }
            if command.owners_only {
                return Err(CommandRestrictErr::FrameworkOwner);
            }
            if command.name.as_str().is_empty() {
                return Err(CommandRestrictErr::CommandNotFound);
            }
            return Ok(command.name.clone());
        }
        i += 1;
    }
    Err(CommandRestrictErr::CommandNotFound)
}

/// Finds the command that a user means by `cmd_name`, written in whatever
/// case, among those of `commands` that can be handed to single users, and
/// answers its name.
pub fn get_cmd_name(commands: &[CommandInfo], cmd_name: &str) -> (r: Result<String, CommandRestrictErr>)
    ensures
        match r {
            Ok(name) => selection_result(
                command_views(commands@),
                admin_flags(command_views(commands@)),
                lowercase_of(cmd_name@),
            ) == Ok::<Seq<char>, CommandRestrictErr>(name@),
            Err(e) => selection_result(
                command_views(commands@),
                admin_flags(command_views(commands@)),
                lowercase_of(cmd_name@),
            ) == Err::<Seq<char>, CommandRestrictErr>(e),
        },
{
    let wanted = to_lowercase(cmd_name);
    let mut flags: Vec<bool> = Vec::new();
    let mut i: usize = 0;
    while i < commands.len()
        invariant
            i <= commands.len(),
            flags@.len() == i,
            forall|j: int| 0 <= j < i ==> flags@[j] == admin_category(commands@[j]@.category),
        decreases commands.len() - i,
    {
        flags.push(is_admin_category(&commands[i].category));
        i += 1;
    }
    assert(flags@ =~= admin_flags(command_views(commands@)));
    select_command(commands, &flags, &wanted)
}

} // verus!
