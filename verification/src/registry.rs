//! The command registry: the definitions of the invocable commands, in the
//! order in which the help shows them. It is built once and only read
//! afterwards.

use vstd::prelude::*;

verus! {

/// The way in which a command is invoked.
#[derive(Debug, Clone, Copy, PartialEq, Eq, Structural)]
pub enum InvocationMode {
    /// A text message that starts with the prefix.
    Prefix,
    /// A slash interaction.
    Slash,
    /// A selection in a message's context menu.
    ContextMenu,
}

/// What a parameter holds.
#[derive(Debug, Clone, Copy, PartialEq, Eq, Structural)]
pub enum ParameterKind {
    /// A text.
    Text,
    /// A flag that is set by naming it.
    Flag,
    /// The message that the context menu was opened on.
    Message,
}

/// What a command does when it runs.
#[derive(Debug, Clone, Copy, PartialEq, Eq, Structural)]
pub enum CommandBody {
    Help,
    Register,
    RawMarkdown,
    CopyMarkdown,
}

/// One parameter of a command.
#[derive(Debug, PartialEq, Eq)]
pub struct Parameter {
    pub name: String,
    /// Shown to the user; empty where there is none.
    pub description: String,
    pub kind: ParameterKind,
    pub required: bool,
    /// Whether command names are offered to complete it.
    pub autocomplete: bool,
}

/// The definition of a command.
#[derive(Debug, PartialEq, Eq)]
pub struct CommandDefinition {
    pub name: String,
    pub description: String,
    /// Invocable as a prefix command.
    pub prefix: bool,
    /// Invocable as a slash command.
    pub slash: bool,
    /// The entry under which it stands in the context menu, if it does.
    pub context_menu: Option<String>,
    /// Left out of the help.
    pub hidden: bool,
    /// Its replies are shown to the invoking user only.
    pub ephemeral: bool,
    /// Invocable inside a server only.
    pub guild_only: bool,
    /// In the order in which they are given.
    pub parameters: Vec<Parameter>,
    pub body: CommandBody,
}

/// The mathematical content of a [`Parameter`].
pub struct ParameterView {
    pub name: Seq<char>,
    pub description: Seq<char>,
    pub kind: ParameterKind,
    pub required: bool,
    pub autocomplete: bool,
}

/// The mathematical content of a [`CommandDefinition`].
pub struct CommandView {
    pub name: Seq<char>,
    pub description: Seq<char>,
    pub prefix: bool,
    pub slash: bool,
    pub context_menu: Option<Seq<char>>,
    pub hidden: bool,
    pub ephemeral: bool,
    pub guild_only: bool,
    pub parameters: Seq<ParameterView>,
    pub body: CommandBody,
}

impl View for Parameter {
    type V = ParameterView;

    open spec fn view(&self) -> ParameterView {
        ParameterView {
            name: self.name@,
            description: self.description@,
            kind: self.kind,
            required: self.required,
            autocomplete: self.autocomplete,
        }
    }
}

impl View for CommandDefinition {
    type V = CommandView;

    open spec fn view(&self) -> CommandView {
        CommandView {
            name: self.name@,
            description: self.description@,
            prefix: self.prefix,
            slash: self.slash,
            context_menu: match self.context_menu {
                Some(entry) => Some(entry@),
                None => None,
            },
            hidden: self.hidden,
            ephemeral: self.ephemeral,
            guild_only: self.guild_only,
            parameters: Seq::new(self.parameters@.len(), |i: int| self.parameters@[i]@),
            body: self.body,
        }
    }
}

/// The content of a sequence of definitions, in order.
pub open spec fn views(commands: Seq<CommandDefinition>) -> Seq<CommandView> {
    Seq::new(commands.len(), |i: int| commands[i]@)
}

pub const HELP_NAME: &'static str = "help";

pub const HELP_DESCRIPTION: &'static str = "Show this help menu";

pub const HELP_PARAMETER: &'static str = "command";

pub const HELP_PARAMETER_DESCRIPTION: &'static str = "Specific command to show help about";

/// The text that the help shows below the list of commands.
pub const HELP_FOOTER: &'static str =
    "This is an example bot made to showcase features of my custom Discord bot framework";

pub const REGISTER_NAME: &'static str = "register";

pub const REGISTER_DESCRIPTION: &'static str =
    "Register application commands in this guild or globally";

pub const REGISTER_PARAMETER: &'static str = "global";

pub const RAW_MARKDOWN_NAME: &'static str = "raw_markdown";

pub const RAW_MARKDOWN_ENTRY: &'static str = "View raw Markdown";

pub const RAW_MARKDOWN_PARAMETER: &'static str = "msg";

pub const COPY_MARKDOWN_NAME: &'static str = "copy-markdown";

pub const COPY_MARKDOWN_DESCRIPTION: &'static str = "Command for mobile users";

pub const COPY_MARKDOWN_PARAMETER: &'static str = "message_link";

pub const COPY_MARKDOWN_PARAMETER_DESCRIPTION: &'static str = "The message link";

/// The help command: by prefix or slash, with the name of one command as an
/// optional parameter.
pub open spec fn help_definition() -> CommandView {
    CommandView {
        name: HELP_NAME@,
        description: HELP_DESCRIPTION@,
        prefix: true,
        slash: true,
        context_menu: None,
        hidden: false,
        ephemeral: false,
        guild_only: false,
        parameters: seq![
            ParameterView {
                name: HELP_PARAMETER@,
                description: HELP_PARAMETER_DESCRIPTION@,
                kind: ParameterKind::Text,
                required: false,
                autocomplete: true,
            },
        ],
        body: CommandBody::Help,
    }
}

/// The command that publishes the command definitions: by prefix only, not
/// shown in the help, with one flag.
pub open spec fn register_definition() -> CommandView {
    CommandView {
        name: REGISTER_NAME@,
        description: REGISTER_DESCRIPTION@,
        prefix: true,
        slash: false,
        context_menu: None,
        hidden: true,
        ephemeral: false,
        guild_only: false,
        parameters: seq![
            ParameterView {
                name: REGISTER_PARAMETER@,
                description: Seq::empty(),
                kind: ParameterKind::Flag,
                required: false,
                autocomplete: false,
            },
        ],
        body: CommandBody::Register,
    }
}

/// The context-menu command that shows a message's raw markdown.
pub open spec fn raw_markdown_definition() -> CommandView {
    CommandView {
        name: RAW_MARKDOWN_NAME@,
        description: Seq::empty(),
        prefix: false,
        slash: false,
        context_menu: Some(RAW_MARKDOWN_ENTRY@),
        hidden: false,
        ephemeral: true,
        guild_only: false,
        parameters: seq![
            ParameterView {
                name: RAW_MARKDOWN_PARAMETER@,
                description: Seq::empty(),
                kind: ParameterKind::Message,
                required: true,
                autocomplete: false,
            },
        ],
        body: CommandBody::RawMarkdown,
    }
}

/// The slash command that shows the raw markdown of a linked message.
pub open spec fn copy_markdown_definition() -> CommandView {
    CommandView {
        name: COPY_MARKDOWN_NAME@,
        description: COPY_MARKDOWN_DESCRIPTION@,
        prefix: false,
        slash: true,
        context_menu: None,
        hidden: false,
        ephemeral: true,
        guild_only: true,
        parameters: seq![
            ParameterView {
                name: COPY_MARKDOWN_PARAMETER@,
                description: COPY_MARKDOWN_PARAMETER_DESCRIPTION@,
                kind: ParameterKind::Text,
                required: true,
                autocomplete: false,
            },
        ],
        body: CommandBody::CopyMarkdown,
    }
}

/// The registry's content: the four commands, in help order.
pub open spec fn registry_content() -> Seq<CommandView> {
    seq![
        help_definition(),
        register_definition(),
        raw_markdown_definition(),
        copy_markdown_definition(),
    ]
}

fn one_parameter(
    name: &str,
    description: &str,
    kind: ParameterKind,
    required: bool,
    autocomplete: bool,
) -> (parameters: Vec<Parameter>)
    ensures
        parameters@.len() == 1,
        parameters@[0]@ == (ParameterView {
            name: name@,
            description: description@,
            kind,
            required,
            autocomplete,
        }),
{
    let mut parameters: Vec<Parameter> = Vec::new();
    parameters.push(
        Parameter {
            name: name.to_owned(),
            description: description.to_owned(),
            kind,
            required,
            autocomplete,
        },
    );
    parameters
}

/// Builds the registry.
pub fn registry() -> (commands: Vec<CommandDefinition>)
    ensures
        views(commands@) == registry_content(),
{
    let help = CommandDefinition {
        name: HELP_NAME.to_owned(),
        description: HELP_DESCRIPTION.to_owned(),
        prefix: true,
        slash: true,
        context_menu: None,
        hidden: false,
        ephemeral: false,
        guild_only: false,
        parameters: one_parameter(
            HELP_PARAMETER,
            HELP_PARAMETER_DESCRIPTION,
            ParameterKind::Text,
            false,
            true,
        ),
        body: CommandBody::Help,
    };
    let register = CommandDefinition {
        name: REGISTER_NAME.to_owned(),
        description: REGISTER_DESCRIPTION.to_owned(),
        prefix: true,
        slash: false,
        context_menu: None,
        hidden: true,
        ephemeral: false,
        guild_only: false,
        parameters: one_parameter(REGISTER_PARAMETER, "", ParameterKind::Flag, false, false),
        body: CommandBody::Register,
    };
    let raw = CommandDefinition {
        name: RAW_MARKDOWN_NAME.to_owned(),
        description: String::new(),
        prefix: false,
        slash: false,
        context_menu: Some(RAW_MARKDOWN_ENTRY.to_owned()),
        hidden: false,
        ephemeral: true,
        guild_only: false,
        parameters: one_parameter(RAW_MARKDOWN_PARAMETER, "", ParameterKind::Message, true, false),
        body: CommandBody::RawMarkdown,
    };
    let copy = CommandDefinition {
        name: COPY_MARKDOWN_NAME.to_owned(),
        description: COPY_MARKDOWN_DESCRIPTION.to_owned(),
        prefix: false,
        slash: true,
        context_menu: None,
        hidden: false,
        ephemeral: true,
        guild_only: true,
        parameters: one_parameter(
            COPY_MARKDOWN_PARAMETER,
            COPY_MARKDOWN_PARAMETER_DESCRIPTION,
            ParameterKind::Text,
            true,
            false,
        ),
        body: CommandBody::CopyMarkdown,
    };
    proof {
        reveal_strlit("");
        assert(""@ =~= Seq::<char>::empty());
        assert(help@.parameters =~= help_definition().parameters);
        assert(register@.parameters =~= register_definition().parameters);
        assert(raw@.parameters =~= raw_markdown_definition().parameters);
        assert(copy@.parameters =~= copy_markdown_definition().parameters);
    }
    let mut commands: Vec<CommandDefinition> = Vec::new();
    commands.push(help);
    commands.push(register);
    commands.push(raw);
    commands.push(copy);
    assert(views(commands@) =~= registry_content());
    commands
}

} // verus!
