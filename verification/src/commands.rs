//! The commands that members give the engine, and what the engine says back.

use vstd::prelude::*;

verus! {

/// The name of the command that asks for a verification mail.
pub const VERIFY_COMMAND: &'static str = "verify";

/// The name of the command that scans a community again.
pub const RESCAN_COMMAND: &'static str = "rescan";

/// What ends the identifier in a request for a verification mail.
pub const REQUEST_END: &'static str = "\n";

/// The reply to a scan that was asked for outside a community.
pub const OUTSIDE_GUILD: &'static str = "This command must be run inside of a guild, not a DM.";

/// The title of the reply to a verification request that was sent on.
pub const MAIL_SENT: &'static str = "Token Verification Email Sent";

/// The title of the reply to a verification request that was not sent on.
pub const MAIL_NOT_SENT: &'static str = "Error: Please Check You Entered Your EID Correctly";

/// Where a command goes.
#[derive(Debug, Clone, Copy, PartialEq, Eq)]
pub enum Route {
    /// Ask for a verification mail.
    Verify,
    /// Scan this community again.
    Rescan(u64),
    /// A scan was asked for outside a community; answer with `OUTSIDE_GUILD`.
    RescanOutsideGuild,
    /// Any other command; answer with [`unknown_command`].
    Unknown,
}

/// Where the command called `name`, given in community `guild` or in a direct
/// message, goes.
pub open spec fn route_of(name: Seq<char>, guild: Option<u64>) -> Route {
    if name == VERIFY_COMMAND@ {
        Route::Verify
    } else if name == RESCAN_COMMAND@ {
        match guild {
            Some(guild) => Route::Rescan(guild),
            None => Route::RescanOutsideGuild,
        }
    } else {
        Route::Unknown
    }
}

/// Routes a command by its name.
pub fn interaction_create(name: &str, guild: Option<u64>) -> (route: Route)
    ensures
        route == route_of(name@, guild),
{
    let name = String::from_str(name);
    if name == String::from_str(VERIFY_COMMAND) {
        Route::Verify
    } else if name == String::from_str(RESCAN_COMMAND) {
        match guild {
            Some(guild) => Route::Rescan(guild),
            None => Route::RescanOutsideGuild,
        }
    } else {
        Route::Unknown
    }
}

/// The body of the request that asks for a verification mail for `eid`: the
/// identifier on a line of its own.
pub fn verify(eid: &str) -> (body: String)
    ensures
        body@ == eid@ + REQUEST_END@,
{
    let mut body = String::from_str(eid);
    body.append(REQUEST_END);
    body
}

/// The title of the reply to a verification request.
pub fn verify_reply(sent: bool) -> (title: &'static str)
    ensures
        title@ == if sent {
            MAIL_SENT@
        } else {
            MAIL_NOT_SENT@
        },
{
    if sent {
        MAIL_SENT
    } else {
        MAIL_NOT_SENT
    }
}

/// One titled line of an embed.
#[derive(Debug, Clone, Copy, PartialEq, Eq)]
pub struct EmbedField {
    pub name: &'static str,
    pub value: &'static str,
    pub inline: bool,
}

/// A colour, as red, green and blue.
#[derive(Debug, Clone, Copy, PartialEq, Eq)]
pub struct Color {
    pub red: u8,
    pub green: u8,
    pub blue: u8,
}

/// What the engine shows in answer to a command: a title, a colour, and
/// optionally a description and some titled lines.
#[derive(Debug, Clone, PartialEq, Eq)]
pub struct Embed {
    pub title: &'static str,
    pub description: Option<&'static str>,
    pub color: Color,
    pub fields: Vec<EmbedField>,
}

/// The title of the help page.
pub const HELP_TITLE: &'static str = "UTexas Verify Help Page";

/// The name of the help page's line on verifying.
pub const HELP_VERIFY_NAME: &'static str = "`/verify`";

/// The help page's line on verifying.
pub const HELP_VERIFY_TEXT: &'static str = "Connect your UT EID to your discord account";

/// The name of the help page's line on scanning again.
pub const HELP_RESCAN_NAME: &'static str = "`/rescan`";

/// The help page's line on scanning again.
pub const HELP_RESCAN_TEXT: &'static str =
    "**ADMIN-ONLY**: checks all users in this guild for nickname compliance";

/// The lines of the help page.
pub open spec fn help_fields() -> Seq<EmbedField> {
    seq![
        EmbedField { name: HELP_VERIFY_NAME, value: HELP_VERIFY_TEXT, inline: false },
        EmbedField { name: HELP_RESCAN_NAME, value: HELP_RESCAN_TEXT, inline: false },
    ]
}

/// The title of the answer to an unknown command.
pub const UNKNOWN_TITLE: &'static str = "Incorrect Command Usage";

/// The body of the answer to an unknown command.
pub const UNKNOWN_DESCRIPTION: &'static str =
    "Use one of 3 commands: `/verify`, `/help`, `/rescan`, and make sure your input values are valid.";

/// The help page: green, with one line for each command.
pub fn help() -> (embed: Embed)
    ensures
        embed.title == HELP_TITLE,
        embed.description is None,
        embed.color == (Color { red: 0, green: 255, blue: 0 }),
        embed.fields@ == help_fields(),
{
    let mut fields: Vec<EmbedField> = Vec::new();
    fields.push(EmbedField { name: HELP_VERIFY_NAME, value: HELP_VERIFY_TEXT, inline: false });
    fields.push(EmbedField { name: HELP_RESCAN_NAME, value: HELP_RESCAN_TEXT, inline: false });
    Embed { title: HELP_TITLE, description: None, color: Color { red: 0, green: 255, blue: 0 }, fields }
}

/// The answer to an unknown command: red, and without lines.
pub fn unknown_command() -> (embed: Embed)
    ensures
        embed.title == UNKNOWN_TITLE,
        embed.description == Some(UNKNOWN_DESCRIPTION),
        embed.color == (Color { red: 255, green: 0, blue: 0 }),
        embed.fields@.len() == 0,
{
    Embed {
        title: UNKNOWN_TITLE,
        description: Some(UNKNOWN_DESCRIPTION),
        color: Color { red: 255, green: 0, blue: 0 },
        fields: Vec::new(),
    }
}

} // verus!
