use lotr_mod_bot::notice::{
    change_notice, prefix_command, prefix_notice, PrefixArgument, PrefixCommand, CHANGE_FAILED,
};
use lotr_mod_bot::store::StoreError;

#[test]
fn prefix_notice_quotes_the_prefix() {
    assert_eq!(prefix_notice("!"), "My prefix here is \"!\"");
    assert_eq!(prefix_notice(""), "My prefix here is \"\"");
    assert_eq!(prefix_notice("lotr "), "My prefix here is \"lotr \"");
}

#[test]
fn change_notice_confirms_a_write() {
    assert_eq!(change_notice("?", &Ok(())), "Set the new prefix to \"?\"");
}

#[test]
fn change_notice_reports_a_failure() {
    assert_eq!(
        change_notice("?", &Err(StoreError::Unavailable)),
        "Failed to set the new prefix!"
    );
    assert_eq!(CHANGE_FAILED, "Failed to set the new prefix!");
}

#[test]
fn prefix_command_without_argument_shows() {
    assert_eq!(prefix_command(PrefixArgument::Absent), PrefixCommand::Show);
}

#[test]
fn prefix_command_with_prefix_changes() {
    assert_eq!(
        prefix_command(PrefixArgument::Given("$".to_string())),
        PrefixCommand::Change("$".to_string())
    );
}

#[test]
fn prefix_command_with_unreadable_argument_refuses() {
    assert_eq!(
        prefix_command(PrefixArgument::Unreadable),
        PrefixCommand::Refuse("Failed to set the new prefix!".to_string())
    );
}
