use ut_verification::commands::{
    help, interaction_create, unknown_command, verify, verify_reply, Color, EmbedField, Route,
    OUTSIDE_GUILD,
};

#[test]
fn commands_are_routed_by_name() {
    assert_eq!(interaction_create("verify", Some(1)), Route::Verify);
    assert_eq!(interaction_create("verify", None), Route::Verify);
    assert_eq!(interaction_create("rescan", Some(77)), Route::Rescan(77));
    assert_eq!(interaction_create("rescan", None), Route::RescanOutsideGuild);
    assert_eq!(interaction_create("help", Some(1)), Route::Unknown);
    assert_eq!(interaction_create("", None), Route::Unknown);
    assert_eq!(interaction_create("Verify", None), Route::Unknown);
    assert_eq!(interaction_create("rescan ", Some(1)), Route::Unknown);
}

#[test]
fn verify_request_is_the_identifier_on_a_line() {
    assert_eq!(verify("bha366"), "bha366\n");
    assert_eq!(verify(""), "\n");
}

#[test]
fn verify_replies() {
    assert_eq!(verify_reply(true), "Token Verification Email Sent");
    assert_eq!(verify_reply(false), "Error: Please Check You Entered Your EID Correctly");
    assert_eq!(OUTSIDE_GUILD, "This command must be run inside of a guild, not a DM.");
}

#[test]
fn help_page() {
    let embed = help();
    assert_eq!(embed.title, "UTexas Verify Help Page");
    assert_eq!(embed.description, None);
    assert_eq!(embed.color, Color { red: 0, green: 255, blue: 0 });
    assert_eq!(
        embed.fields,
        vec![
            EmbedField {
                name: "`/verify`",
                value: "Connect your UT EID to your discord account",
                inline: false
            },
            EmbedField {
                name: "`/rescan`",
                value: "**ADMIN-ONLY**: checks all users in this guild for nickname compliance",
                inline: false
            },
        ]
    );
}

#[test]
fn unknown_command_page() {
    let embed = unknown_command();
    assert_eq!(embed.title, "Incorrect Command Usage");
    assert_eq!(
        embed.description,
        Some("Use one of 3 commands: `/verify`, `/help`, `/rescan`, and make sure your input values are valid.")
    );
    assert_eq!(embed.color, Color { red: 255, green: 0, blue: 0 });
    assert!(embed.fields.is_empty());
}
