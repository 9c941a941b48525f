//! Which channel the program starts with.

use vstd::prelude::*;

verus! {

/// A command that shows a preview of an entry.
pub struct PreviewCommand {
    /// The command line, with `{}` where the entry goes.
    pub command: String,
    /// What separates the fields of an entry.
    pub delimiter: String,
    /// Where in the preview the entry is found, if the command says so.
    pub offset_expr: Option<String>,
}

/// What a [`PreviewCommand`] stands for in contracts.
pub ghost struct PreviewView {
    pub command: Seq<char>,
    pub delimiter: Seq<char>,
    pub offset_expr: Option<Seq<char>>,
}

impl View for PreviewCommand {
    type V = PreviewView;

    open spec fn view(&self) -> PreviewView {
        PreviewView {
            command: self.command@,
            delimiter: self.delimiter@,
            offset_expr: match self.offset_expr {
                Some(expr) => Some(expr@),
                None => None,
            },
        }
    }
}

impl PreviewCommand {
    pub fn new(command: &str, delimiter: &str, offset_expr: Option<String>) -> (preview:
        PreviewCommand)
        ensures
            preview.command@ == command@,
            preview.delimiter@ == delimiter@,
            preview.offset_expr == offset_expr,
    {
        PreviewCommand { command: command.to_owned(), delimiter: delimiter.to_owned(), offset_expr }
    }
}

/// The view of a preview command that may be missing.
pub open spec fn preview_of(preview: Option<PreviewCommand>) -> Option<PreviewView> {
    match preview {
        Some(command) => Some(command@),
        None => None,
    }
}

/// The channel to start with.
pub enum ChannelChoice {
    /// The lines that arrive on standard input, previewed by the command
    /// given.
    Stdin { preview_command: Option<PreviewCommand> },
    /// The channel that fits the command line being completed.
    FromPrompt { prompt: String },
    /// The channel of this name. Where a preview command is given, it takes
    /// the place of the channel's own.
    Named { name: String, preview_command: Option<PreviewCommand> },
}

/// What a [`ChannelChoice`] stands for in contracts.
pub ghost enum ChoiceView {
    Stdin { preview_command: Option<PreviewView> },
    FromPrompt { prompt: Seq<char> },
    Named { name: Seq<char>, preview_command: Option<PreviewView> },
}

impl View for ChannelChoice {
    type V = ChoiceView;

    open spec fn view(&self) -> ChoiceView {
        match self {
            ChannelChoice::Stdin { preview_command } => ChoiceView::Stdin {
                preview_command: preview_of(*preview_command),
            },
            ChannelChoice::FromPrompt { prompt } => ChoiceView::FromPrompt { prompt: prompt@ },
            ChannelChoice::Named { name, preview_command } => ChoiceView::Named {
                name: name@,
                preview_command: preview_of(*preview_command),
            },
        }
    }
}

/// The rule of the choice: readable standard input comes first, then a
/// command line to complete, then the channel asked for, then the default.
/// The preview command of the command line goes with standard input and with
/// a channel that is named; a channel guessed from a prompt keeps its own.
pub open spec fn chosen(
    readable_stdin: bool,
    autocomplete_prompt: Option<Seq<char>>,
    channel: Option<Seq<char>>,
    default_channel: Seq<char>,
    preview_command: Option<PreviewView>,
) -> ChoiceView {
    if readable_stdin {
        ChoiceView::Stdin { preview_command }
    } else if autocomplete_prompt is Some {
        ChoiceView::FromPrompt { prompt: autocomplete_prompt->0 }
    } else if channel is Some {
        ChoiceView::Named { name: channel->0, preview_command }
    } else {
        ChoiceView::Named { name: default_channel, preview_command }
    }
}

/// The text of an optional string.
pub open spec fn text_of(s: Option<&str>) -> Option<Seq<char>> {
    match s {
        Some(text) => Some(text@),
        None => None,
    }
}

/// Chooses the channel to start with.
pub fn determine_channel(
    readable_stdin: bool,
    autocomplete_prompt: Option<&str>,
    channel: Option<&str>,
    default_channel: &str,
    preview_command: Option<PreviewCommand>,
) -> (choice: ChannelChoice)
    ensures
        choice@ == chosen(
            readable_stdin,
            text_of(autocomplete_prompt),
            text_of(channel),
            default_channel@,
            preview_of(preview_command),
        ),
{
    if readable_stdin {
        return ChannelChoice::Stdin { preview_command };
    }
    match autocomplete_prompt {
        Some(prompt) => ChannelChoice::FromPrompt { prompt: prompt.to_owned() },
        None => match channel {
            Some(name) => ChannelChoice::Named { name: name.to_owned(), preview_command },
            None => ChannelChoice::Named { name: default_channel.to_owned(), preview_command },
        },
    }
}

} // verus!
