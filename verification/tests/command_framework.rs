use pikadick::framework::{
    FrameworkBuilder,
    FrameworkCommandBuilder,
};
use pikadick::slash_framework::{
    SlashFrameworkBuilder,
    SlashFrameworkCommand,
    SlashFrameworkCommandBuilder,
};

fn command(name: &str, description: &str, handler: u32) -> SlashFrameworkCommand<u32> {
    let mut builder = SlashFrameworkCommandBuilder::new();
    builder.name(name);
    builder.description(description);
    builder.on_process(handler);
    builder.build().unwrap()
}

#[test]
fn slash_command_builder() {
    let cmd = command("nekos", "Get a random neko", 7);
    assert_eq!(cmd.name(), "nekos");
    assert_eq!(cmd.description(), "Get a random neko");
    assert_eq!(*cmd.on_process(), 7);

    let mut builder: SlashFrameworkCommandBuilder<u32> = SlashFrameworkCommandBuilder::new();
    assert_eq!(builder.build().unwrap_err(), "missing name");
    builder.name("ping");
    assert_eq!(builder.build().unwrap_err(), "missing description");
    // The name was taken by the failed build.
    builder.description("Respond with pong");
    assert_eq!(builder.build().unwrap_err(), "missing name");
    builder.name("ping");
    builder.description("Respond with pong");
    assert_eq!(builder.build().unwrap_err(), "missing on_process");
    builder.name("ping");
    builder.description("Respond with pong");
    builder.on_process(1);
    let cmd = builder.build().unwrap();
    assert_eq!(cmd.name(), "ping");
    assert_eq!(builder.build().unwrap_err(), "missing name");
}

#[test]
fn slash_framework_duplicates() {
    let mut builder = SlashFrameworkBuilder::new();
    assert_eq!(builder.command(command("ping", "pong", 1)), Ok(()));
    assert_eq!(builder.command(command("nekos", "cats", 2)), Ok(()));
    assert_eq!(
        builder.command(command("ping", "again", 3)),
        Err("duplicate command for `ping`".to_string())
    );
    let framework = builder.build().unwrap();
    assert_eq!(framework.commands().len(), 2);
    // The later command replaced the earlier one under the same name.
    let ping = framework.command_named("ping").unwrap();
    assert_eq!(ping.description(), "again");
    assert_eq!(*ping.on_process(), 3);
    assert_eq!(*framework.command_named("nekos").unwrap().on_process(), 2);
    assert!(framework.command_named("pong").is_none());
    // Building again gives an empty framework.
    assert_eq!(builder.build().unwrap().commands().len(), 0);
}

#[test]
fn framework_aliases() {
    let mut cmd_builder: FrameworkCommandBuilder<&'static str> = FrameworkCommandBuilder::new();
    cmd_builder.name("tic-tac-toe");
    cmd_builder.description("Play tic-tac-toe");
    cmd_builder.on_process("ttt");
    let mut builder: FrameworkBuilder<&'static str> = FrameworkBuilder::new();
    assert_eq!(builder.command(cmd_builder.build().unwrap()), Ok(()));
    let framework = builder.build().unwrap();
    assert_eq!(*framework.command_named("tic-tac-toe").unwrap().on_process(), "ttt");
}
