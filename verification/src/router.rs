//! Routing over the command registry: which command an invocation means,
//! what the help lists, what is published to the backend, and the hooks
//! around a command's run.

use crate::registry::{views, CommandDefinition, CommandView, InvocationMode};
use crate::text::{same_ignoring_ascii_case, same_text, same_text_ignoring_ascii_case};
use vstd::prelude::*;

verus! {

/// The prefix that marks a text message as a command.
pub const DEFAULT_PREFIX: &'static str = "-";

/// How invocations are matched against the registry.
#[derive(Debug, PartialEq, Eq)]
pub struct RouterConfig {
    /// What a prefix command starts with.
    pub prefix: String,
    /// Whether prefix commands are found whatever the case of their ASCII
    /// letters. Interactions always name a command exactly.
    pub case_insensitive: bool,
}

/// The configuration of the bot: the prefix `-`, names matched without
/// regard to case.
pub fn default_config() -> (config: RouterConfig)
    ensures
        config.prefix@ == DEFAULT_PREFIX@,
        config.case_insensitive,
{
    RouterConfig { prefix: DEFAULT_PREFIX.to_owned(), case_insensitive: true }
}

/// What an invocation is told.
#[derive(Debug, Clone, Copy, PartialEq, Eq, Structural)]
pub enum Routing {
    /// Run the command at this place in the registry.
    Run(usize),
    /// No such prefix command: say nothing.
    Ignore,
    /// No such interaction: report an unknown interaction.
    UnknownInteraction,
}

/// Whether `command` can be invoked in `mode`.
pub open spec fn supports(command: CommandView, mode: InvocationMode) -> bool {
    match mode {
        InvocationMode::Prefix => command.prefix,
        InvocationMode::Slash => command.slash,
        InvocationMode::ContextMenu => command.context_menu is Some,
    }
}

/// Whether the invocation of `name` in `mode` means `command`: the command
/// supports the mode, and the name is its own, or its menu entry for a
/// context-menu invocation. Case is overlooked only for prefix commands and
/// only where so configured.
pub open spec fn answers(
    command: CommandView,
    name: Seq<char>,
    mode: InvocationMode,
    case_insensitive: bool,
) -> bool {
    match mode {
        InvocationMode::Prefix => command.prefix && if case_insensitive {
            same_ignoring_ascii_case(command.name, name)
        } else {
            command.name == name
        },
        InvocationMode::Slash => command.slash && command.name == name,
        InvocationMode::ContextMenu => command.context_menu == Some(name),
    }
}

/// Whether `found` is the resolution of the invocation: the first command of
/// the registry that answers it, or nothing where none does.
pub open spec fn is_resolution(
    commands: Seq<CommandView>,
    name: Seq<char>,
    mode: InvocationMode,
    case_insensitive: bool,
    found: Option<usize>,
) -> bool {
    match found {
        Some(at) => at < commands.len() && answers(
            commands[at as int],
            name,
            mode,
            case_insensitive,
        ) && forall|j: int|
            0 <= j < at ==> !answers(#[trigger] commands[j], name, mode, case_insensitive),
        None => forall|j: int|
            0 <= j < commands.len() ==> !answers(
                #[trigger] commands[j],
                name,
                mode,
                case_insensitive,
            ),
    }
}

/// Whether `command` can be invoked in `mode`.
pub fn command_supports(command: &CommandDefinition, mode: InvocationMode) -> (r: bool)
    ensures
        r == supports(command@, mode),
{
    match mode {
        InvocationMode::Prefix => command.prefix,
        InvocationMode::Slash => command.slash,
        InvocationMode::ContextMenu => command.context_menu.is_some(),
    }
}

/// Whether the invocation of `name` in `mode` means `command`.
pub fn command_answers(
    command: &CommandDefinition,
    name: &str,
    mode: InvocationMode,
    case_insensitive: bool,
) -> (r: bool)
    ensures
        r == answers(command@, name@, mode, case_insensitive),
{
    match mode {
        InvocationMode::Prefix => command.prefix && if case_insensitive {
            same_text_ignoring_ascii_case(command.name.as_str(), name)
        } else {
            same_text(command.name.as_str(), name)
        },
        InvocationMode::Slash => command.slash && same_text(command.name.as_str(), name),
        InvocationMode::ContextMenu => match &command.context_menu {
            Some(entry) => same_text(entry.as_str(), name),
            None => false,
        },
    }
}

/// Finds the command that an invocation means: the first in the registry
/// that answers to the name in the mode.
pub fn resolve(
    commands: &Vec<CommandDefinition>,
    name: &str,
    mode: InvocationMode,
    case_insensitive: bool,
) -> (found: Option<usize>)
    ensures
        is_resolution(views(commands@), name@, mode, case_insensitive, found),
{
    let mut i: usize = 0;
    while i < commands.len()
        invariant
            i <= commands.len(),
            forall|j: int|
                0 <= j < i ==> !answers(
                    #[trigger] views(commands@)[j],
                    name@,
                    mode,
                    case_insensitive,
                ),
        decreases commands.len() - i,
    {
        if command_answers(&commands[i], name, mode, case_insensitive) {
            return Some(i);
        }
        i += 1;
    }
    None
}

/// Routes one invocation: the command to run, or what to do where the
/// registry holds none for it. The registry is only read.
pub fn route(
    commands: &Vec<CommandDefinition>,
    config: &RouterConfig,
    mode: InvocationMode,
    name: &str,
) -> (routing: Routing)
    ensures
        match routing {
            Routing::Run(at) => is_resolution(
                views(commands@),
                name@,
                mode,
                config.case_insensitive,
                Some(at),
            ),
            Routing::Ignore => mode == InvocationMode::Prefix && is_resolution(
                views(commands@),
                name@,
                mode,
                config.case_insensitive,
                None,
            ),
            Routing::UnknownInteraction => mode != InvocationMode::Prefix && is_resolution(
                views(commands@),
                name@,
                mode,
                config.case_insensitive,
                None,
            ),
        },
{
    let found = resolve(commands, name, mode, config.case_insensitive);
    match found {
        Some(at) => Routing::Run(at),
        None => match mode {
            InvocationMode::Prefix => Routing::Ignore,
            _ => Routing::UnknownInteraction,
        },
    }
}

/// An invocation has one resolution only.
pub proof fn lemma_resolution_unique(
    commands: Seq<CommandView>,
    name: Seq<char>,
    mode: InvocationMode,
    case_insensitive: bool,
    a: Option<usize>,
    b: Option<usize>,
)
    requires
        is_resolution(commands, name, mode, case_insensitive, a),
        is_resolution(commands, name, mode, case_insensitive, b),
    ensures
        a == b,
{
}

/// Whether the help shows `command`: hidden commands never, and with a
/// filter only the command of that name.
pub open spec fn shown_in_help(command: CommandView, filter: Option<Seq<char>>) -> bool {
    !command.hidden && match filter {
        Some(name) => command.name == name,
        None => true,
    }
}

/// Whether `command` is published to the backend: slash and context-menu
/// commands are, commands invoked by prefix alone are not.
pub open spec fn published(command: CommandView) -> bool {
    command.slash || command.context_menu is Some
}

/// Whether `listing` holds the places of exactly the commands that are
/// `wanted`, each once, in registry order.
pub open spec fn lists_exactly(
    commands: Seq<CommandView>,
    wanted: spec_fn(CommandView) -> bool,
    listing: Seq<usize>,
) -> bool {
    &&& forall|k: int|
        0 <= k < listing.len() ==> (#[trigger] listing[k]) < commands.len() && wanted(
            commands[listing[k] as int],
        )
    &&& forall|k: int, l: int|
        0 <= k < l < listing.len() ==> (#[trigger] listing[k]) < (#[trigger] listing[l])
    &&& forall|i: int|
        0 <= i < commands.len() && wanted(#[trigger] commands[i]) ==> listing.contains(
            i as usize,
        )
}

/// The filter that an optional command name stands for.
pub open spec fn filter_of(command: Option<&str>) -> Option<Seq<char>> {
    match command {
        Some(name) => Some(name@),
        None => None,
    }
}

/// What the help shows under `filter`, as a predicate on commands.
pub open spec fn help_shows(filter: Option<Seq<char>>) -> spec_fn(CommandView) -> bool {
    |c: CommandView| shown_in_help(c, filter)
}

/// What is published, as a predicate on commands.
pub open spec fn is_published() -> spec_fn(CommandView) -> bool {
    |c: CommandView| published(c)
}

/// Whether the help shows `command`.
pub fn command_shown_in_help(command: &CommandDefinition, filter: Option<&str>) -> (r: bool)
    ensures
        r == shown_in_help(command@, filter_of(filter)),
{
    !command.hidden && match filter {
        Some(name) => same_text(command.name.as_str(), name),
        None => true,
    }
}

/// The help command: the places of the commands to describe, in registry
/// order. Without `command` these are all commands that are not hidden,
/// with it the one of that name among them.
///
/// A renderer may be more lenient than this listing. The help that the
/// `poise` framework brings finds a single command without regard to the
/// case of ASCII letters, also by its context-menu entry, and describes it
/// even where it is hidden.
pub fn help(commands: &Vec<CommandDefinition>, command: Option<&str>) -> (listing: Vec<usize>)
    ensures
        lists_exactly(views(commands@), help_shows(filter_of(command)), listing@),
{
    let ghost wanted = help_shows(filter_of(command));
    let mut listing: Vec<usize> = Vec::new();
    let mut i: usize = 0;
    while i < commands.len()
        invariant
            i <= commands.len(),
            wanted == help_shows(filter_of(command)),
            lists_exactly(views(commands@).take(i as int), wanted, listing@),
        decreases commands.len() - i,
    {
        let ghost before = listing@;
        if command_shown_in_help(&commands[i], command) {
            listing.push(i);
        }
        proof {
            lemma_listing_grows(views(commands@), wanted, before, i as int);
        }
        i += 1;
    }
    assert(views(commands@).take(commands.len() as int) =~= views(commands@));
    listing
}

/// Where published commands go.
#[derive(Debug, Clone, Copy, PartialEq, Eq, Structural)]
pub enum Scope {
    /// To every server.
    Global,
    /// To the one server with this id.
    Guild(u64),
}

/// What the register command publishes, and where.
#[derive(Debug, PartialEq, Eq)]
pub struct Registration {
    pub scope: Scope,
    /// The places of the published commands, in registry order.
    pub commands: Vec<usize>,
}

/// The scope of a registration: global where the flag is set, else the
/// server that the command was invoked in; none where there is no such
/// server.
pub open spec fn registration_scope(global: bool, guild_id: Option<u64>) -> Option<Scope> {
    if global {
        Some(Scope::Global)
    } else {
        match guild_id {
            Some(id) => Some(Scope::Guild(id)),
            None => None,
        }
    }
}

/// Whether `command` is published to the backend.
pub fn command_published(command: &CommandDefinition) -> (r: bool)
    ensures
        r == published(command@),
{
    command.slash || command.context_menu.is_some()
}

/// The register command: the slash and context-menu commands, to be
/// published globally or to the invoking server. Outside a server and
/// without the flag there is nothing to publish to. Who may publish is not
/// decided here.
pub fn register(commands: &Vec<CommandDefinition>, global: bool, guild_id: Option<u64>) -> (r:
    Option<Registration>)
    ensures
        match registration_scope(global, guild_id) {
            Some(scope) => r matches Some(registration) && registration.scope == scope
                && lists_exactly(views(commands@), is_published(), registration.commands@),
            None => r is None,
        },
{
    let scope = if global {
        Scope::Global
    } else {
        match guild_id {
            Some(id) => Scope::Guild(id),
            None => {
                return None;
            },
        }
    };
    let mut listing: Vec<usize> = Vec::new();
    let mut i: usize = 0;
    while i < commands.len()
        invariant
            i <= commands.len(),
            lists_exactly(views(commands@).take(i as int), is_published(), listing@),
        decreases commands.len() - i,
    {
        let ghost before = listing@;
        if command_published(&commands[i]) {
            listing.push(i);
        }
        proof {
            lemma_listing_grows(views(commands@), is_published(), before, i as int);
        }
        i += 1;
    }
    assert(views(commands@).take(commands.len() as int) =~= views(commands@));
    Some(Registration { scope, commands: listing })
}

/// A listing of the first `i` commands becomes one of the first `i + 1`
/// by adding `i` where the command at `i` is wanted, and as it is where not.
pub proof fn lemma_listing_grows(
    commands: Seq<CommandView>,
    wanted: spec_fn(CommandView) -> bool,
    listing: Seq<usize>,
    i: int,
)
    requires
        0 <= i < commands.len(),
        i <= usize::MAX,
        lists_exactly(commands.take(i), wanted, listing),
    ensures
        wanted(commands[i]) ==> lists_exactly(
            commands.take(i + 1),
            wanted,
            listing.push(i as usize),
        ),
        !wanted(commands[i]) ==> lists_exactly(commands.take(i + 1), wanted, listing),
{
    let shorter = commands.take(i);
    let longer = commands.take(i + 1);
    assert forall|k: int| 0 <= k < listing.len() implies (#[trigger] listing[k]) < i by {
        assert(listing[k] < shorter.len());
    }
    if wanted(commands[i]) {
        let grown = listing.push(i as usize);
        assert forall|j: int| 0 <= j < longer.len() && wanted(#[trigger] longer[j]) implies grown.contains(
            j as usize,
        ) by {
            if j < i {
                assert(wanted(shorter[j]));
                let k = choose|k: int| 0 <= k < listing.len() && listing[k] == j as usize;
                assert(grown[k] == j as usize);
            } else {
                assert(grown[listing.len() as int] == j as usize);
            }
        }
        assert forall|k: int| 0 <= k < grown.len() implies (#[trigger] grown[k]) < longer.len()
            && wanted(longer[grown[k] as int]) by {
            if k < listing.len() {
                assert(grown[k] == listing[k]);
                assert(longer[listing[k] as int] == shorter[listing[k] as int]);
            }
        }
    } else {
        assert forall|j: int| 0 <= j < longer.len() && wanted(#[trigger] longer[j]) implies listing.contains(
            j as usize,
        ) by {
            assert(j < i);
            assert(wanted(shorter[j]));
        }
        assert forall|k: int| 0 <= k < listing.len() implies (#[trigger] listing[k]) < longer.len()
            && wanted(longer[listing[k] as int]) by {
            assert(longer[listing[k] as int] == shorter[listing[k] as int]);
        }
    }
}

/// A listing is determined by the registry and by what is wanted.
pub proof fn lemma_listing_unique(
    commands: Seq<CommandView>,
    wanted: spec_fn(CommandView) -> bool,
    a: Seq<usize>,
    b: Seq<usize>,
)
    requires
        lists_exactly(commands, wanted, a),
        lists_exactly(commands, wanted, b),
    ensures
        a == b,
    decreases a.len() + b.len(),
{
    if a.len() == 0 {
        if b.len() > 0 {
            assert(wanted(commands[b[0] as int]));
            assert(a.contains(b[0]));
        }
        assert(a =~= b);
    } else if b.len() == 0 {
        assert(wanted(commands[a[0] as int]));
        assert(b.contains(a[0]));
    } else {
        // The last entries agree: each list holds the other's last entry, and
        // both are increasing.
        let la = a.last();
        let lb = b.last();
        assert(wanted(commands[la as int]));
        assert(wanted(commands[lb as int]));
        assert(b.contains(la));
        assert(a.contains(lb));
        let ka = choose|k: int| 0 <= k < a.len() && a[k] == lb;
        let kb = choose|k: int| 0 <= k < b.len() && b[k] == la;
        assert(la == lb) by {
            if ka < a.len() - 1 {
                assert(a[ka] < a[a.len() - 1]);
            }
            if kb < b.len() - 1 {
                assert(b[kb] < b[b.len() - 1]);
            }
        }
        let cut = la as int;
        let shorter = commands.take(cut);
        assert(lists_exactly(shorter, wanted, a.drop_last())) by {
            lemma_listing_cut(commands, wanted, a);
        }
        assert(lists_exactly(shorter, wanted, b.drop_last())) by {
            lemma_listing_cut(commands, wanted, b);
        }
        lemma_listing_unique(shorter, wanted, a.drop_last(), b.drop_last());
        assert(a =~= a.drop_last().push(la));
        assert(b =~= b.drop_last().push(lb));
    }
}

/// Without its last entry a listing lists the commands before that entry.
pub proof fn lemma_listing_cut(
    commands: Seq<CommandView>,
    wanted: spec_fn(CommandView) -> bool,
    listing: Seq<usize>,
)
    requires
        listing.len() > 0,
        lists_exactly(commands, wanted, listing),
    ensures
        lists_exactly(commands.take(listing.last() as int), wanted, listing.drop_last()),
{
    let last = listing.last();
    let front = listing.drop_last();
    let shorter = commands.take(last as int);
    assert forall|k: int| 0 <= k < front.len() implies (#[trigger] front[k]) < shorter.len()
        && wanted(shorter[front[k] as int]) by {
        assert(front[k] == listing[k]);
        assert(listing[k] < listing[listing.len() - 1]);
    }
    assert forall|k: int, l: int| 0 <= k < l < front.len() implies (#[trigger] front[k]) < (
    #[trigger] front[l]) by {
        assert(front[k] == listing[k] && front[l] == listing[l]);
    }
    assert forall|i: int| 0 <= i < shorter.len() && wanted(#[trigger] shorter[i]) implies front.contains(
        i as usize,
    ) by {
        assert(wanted(commands[i]));
        let k = choose|k: int| 0 <= k < listing.len() && listing[k] == i as usize;
        assert(k < listing.len() - 1);
        assert(front[k] == i as usize);
    }
}

} // verus!
