use text_channel::select::{determine_channel, ChannelChoice, PreviewCommand};

fn name_of(choice: &ChannelChoice) -> String {
    match choice {
        ChannelChoice::Stdin { .. } => "stdin".to_string(),
        ChannelChoice::FromPrompt { prompt } => format!("prompt:{}", prompt),
        ChannelChoice::Named { name, .. } => name.clone(),
    }
}

fn preview_of(choice: &ChannelChoice) -> Option<(String, String, Option<String>)> {
    let preview = match choice {
        ChannelChoice::Stdin { preview_command } => preview_command,
        ChannelChoice::FromPrompt { .. } => &None,
        ChannelChoice::Named { preview_command, .. } => preview_command,
    };
    preview.as_ref().map(|p| (p.command.clone(), p.delimiter.clone(), p.offset_expr.clone()))
}

#[test]
fn test_determine_channel_readable_stdin() {
    let choice = determine_channel(true, None, None, "files", None);
    assert!(matches!(choice, ChannelChoice::Stdin { .. }));
    assert_eq!(name_of(&choice), "stdin");
    assert_eq!(preview_of(&choice), None);
}

#[test]
fn test_determine_channel_autocomplete_prompt() {
    let choice = determine_channel(false, Some("cd"), None, "files", None);
    assert!(matches!(&choice, ChannelChoice::FromPrompt { prompt } if prompt == "cd"));
}

#[test]
fn test_determine_channel_standard_case() {
    let choice = determine_channel(false, None, Some("dirs"), "files", None);
    assert_eq!(name_of(&choice), "dirs");
    assert!(matches!(choice, ChannelChoice::Named { .. }));
    assert_eq!(preview_of(&choice), None);
}

#[test]
fn test_determine_channel_config_fallback() {
    let choice = determine_channel(false, None, None, "dirs", None);
    assert_eq!(name_of(&choice), "dirs");
    assert!(matches!(choice, ChannelChoice::Named { .. }));
}

#[test]
fn test_determine_channel_with_cli_preview() {
    let preview_command = PreviewCommand::new("echo hello", ",", None);
    let choice = determine_channel(false, None, Some("dirs"), "files", Some(preview_command));
    assert_eq!(name_of(&choice), "dirs");
    assert_eq!(preview_of(&choice), Some(("echo hello".to_string(), ",".to_string(), None)));
}

#[test]
fn preview_command_keeps_its_parts() {
    let preview = PreviewCommand::new("bat -n {0}", ":", Some("{1}".to_string()));
    assert_eq!(preview.command, "bat -n {0}");
    assert_eq!(preview.delimiter, ":");
    assert_eq!(preview.offset_expr.as_deref(), Some("{1}"));
}

#[test]
fn readable_stdin_comes_before_everything_else() {
    let preview_command = PreviewCommand::new("cat {}", " ", None);
    let choice = determine_channel(true, Some("cd"), Some("dirs"), "files", Some(preview_command));
    assert!(matches!(choice, ChannelChoice::Stdin { .. }));
    assert_eq!(preview_of(&choice), Some(("cat {}".to_string(), " ".to_string(), None)));
}

#[test]
fn a_prompt_comes_before_a_named_channel() {
    let preview_command = PreviewCommand::new("cat {}", " ", None);
    let choice =
        determine_channel(false, Some("git checkout"), Some("dirs"), "files", Some(preview_command));
    assert!(matches!(&choice, ChannelChoice::FromPrompt { prompt } if prompt == "git checkout"));
    assert_eq!(preview_of(&choice), None);
}

#[test]
fn the_default_channel_takes_the_preview_command_too() {
    let preview_command = PreviewCommand::new("echo hello", ",", None);
    let choice = determine_channel(false, None, None, "files", Some(preview_command));
    assert_eq!(name_of(&choice), "files");
    assert_eq!(preview_of(&choice), Some(("echo hello".to_string(), ",".to_string(), None)));
}
