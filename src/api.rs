use vstd::prelude::*;

use vstd::string::StringExecFns;

use crate::text::{decimal, push_decimal};

verus! {

/// The address of a user.
pub fn user_url(id: u64) -> (r: String)
    ensures
        r@ == "https://top.gg/api/users/"@ + decimal(id as nat),
{
    let mut s = String::from_str("https://top.gg/api/users/");
    push_decimal(&mut s, id);
    s
}

/// The address of a listed bot.
pub fn bot_url(id: u64) -> (r: String)
    ensures
        r@ == "https://top.gg/api/bots/"@ + decimal(id as nat),
{
    let mut s = String::from_str("https://top.gg/api/bots/");
    push_decimal(&mut s, id);
    s
}

/// The address that tells whether a user voted for the bot.
pub fn vote_check_url(user_id: u64) -> (r: String)
    ensures
        r@ == "https://top.gg/api/bots/check?userId="@ + decimal(user_id as nat),
{
    let mut s = String::from_str("https://top.gg/api/bots/check?userId=");
    push_decimal(&mut s, user_id);
    s
}

/// The address of the bot's posted statistics.
pub fn stats_url() -> (r: String)
    ensures
        r@ == "https://top.gg/api/bots/stats"@,
{
    String::from_str("https://top.gg/api/bots/stats")
}

/// The address of the bot's latest voters.
pub fn votes_url() -> (r: String)
    ensures
        r@ == "https://top.gg/api/bots/votes"@,
{
    String::from_str("https://top.gg/api/bots/votes")
}

/// The address that tells whether the weekend multiplier is on.
pub fn weekend_url() -> (r: String)
    ensures
        r@ == "https://top.gg/api/weekend"@,
{
    String::from_str("https://top.gg/api/weekend")
}

/// The page of a bot: under its vanity name if it has one, else under its ID.
pub fn bot_page_url(id: u64, vanity: Option<&str>) -> (r: String)
    ensures
        r@ == "https://top.gg/bot/"@ + match vanity {
            Some(v) => v@,
            None => decimal(id as nat),
        },
{
    let mut s = String::from_str("https://top.gg/bot/");
    match vanity {
        Some(v) => s.append(v),
        None => push_decimal(&mut s, id),
    }
    s
}

/// The invite of a bot: its own if it has one, else the default authorization
/// address for its ID.
pub fn bot_invite_url(id: u64, invite: Option<&str>) -> (r: String)
    ensures
        r@ == match invite {
            Some(i) => i@,
            None => "https://discord.com/oauth2/authorize?scope=bot&client_id="@ + decimal(
                id as nat,
            ),
        },
{
    match invite {
        Some(i) => String::from_str(i),
        None => {
            let mut s = String::from_str(
                "https://discord.com/oauth2/authorize?scope=bot&client_id=",
            );
            push_decimal(&mut s, id);
            s
        },
    }
}

/// The invite address of a support server, from its invite code.
pub fn support_invite_url(code: &str) -> (r: String)
    ensures
        r@ == "https://discord.com/invite/"@ + code@,
{
    let mut s = String::from_str("https://discord.com/invite/");
    s.append(code);
    s
}

} // verus!
