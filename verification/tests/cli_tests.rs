use kplock::cli::{confirms_deletion, white_space, Cli, Commands, DEFAULT_KEYFILE_INPUT};
use kplock::launcher::{keepassxc_arguments, respond_to_interrupt, InterruptResponse};

#[test]
fn deletion_is_confirmed_by_y_in_either_case() {
    assert!(confirms_deletion("y"));
    assert!(confirms_deletion("Y"));
    assert!(confirms_deletion("y\n"));
    assert!(confirms_deletion("  Y \r\n"));
    assert!(confirms_deletion("\ty"));
    assert!(confirms_deletion("\u{3000}y\u{a0}"));
}

#[test]
fn deletion_is_not_confirmed_otherwise() {
    assert!(!confirms_deletion(""));
    assert!(!confirms_deletion("\n"));
    assert!(!confirms_deletion("n"));
    assert!(!confirms_deletion("yes"));
    assert!(!confirms_deletion("y y"));
    assert!(!confirms_deletion("ý"));
    assert!(!confirms_deletion("\u{200b}y"));
}

#[test]
fn white_space_agrees_with_std() {
    for n in 0u32..0x3100 {
        if let Some(c) = char::from_u32(n) {
            assert_eq!(white_space(c), c.is_whitespace(), "{:x}", n);
        }
    }
}

#[test]
fn commands_hold_their_arguments() {
    let cli = Cli {
        command: Commands::Encrypt { input: DEFAULT_KEYFILE_INPUT.to_string(), output: None },
    };
    assert_eq!(
        cli.command,
        Commands::Encrypt { input: "./keyfile.key".to_string(), output: None }
    );
    assert_eq!(Cli { command: Commands::Unlock }.command, Commands::Unlock);
}

#[test]
fn keepassxc_gets_the_keyfile_option() {
    assert_eq!(
        keepassxc_arguments("/tmp/keyfile.key"),
        vec!["--keyfile".to_string(), "/tmp/keyfile.key".to_string()]
    );
}

#[test]
fn second_interrupt_forces_exit() {
    let first = respond_to_interrupt(false, false);
    assert_eq!(first, InterruptResponse::CleanExit);
    assert_eq!(first.exit_code(), 0);
    assert!(!first.wipes_keyfile());
    assert_eq!(first.message(), "\nInterrupted. Cleaning up temporary file...");
    let wiping = respond_to_interrupt(false, true);
    assert_eq!(wiping, InterruptResponse::WipeAndExit);
    assert_eq!(wiping.exit_code(), 0);
    assert!(wiping.wipes_keyfile());
    assert_eq!(wiping.message(), "\nInterrupted. Cleaning up temporary file...");
    let second = respond_to_interrupt(true, true);
    assert_eq!(second, InterruptResponse::ForcedExit);
    assert_eq!(second.exit_code(), 1);
    assert!(!second.wipes_keyfile());
    assert_eq!(second.message(), "\nForced exit.");
    assert_eq!(respond_to_interrupt(true, false), InterruptResponse::ForcedExit);
}
