//! Fixed texts, the ping reply and the cooldown verdict.

use vstd::prelude::*;
use crate::text::{decimal, render_unsigned};

verus! {

/// The help text of `register_team`.
pub fn help_rt() -> (s: String)
    ensures
        s@ == "Example Usage (Team Name and Password are one word):\n?c register_team <team_name> <password>"@,
{
    String::from_str(
        "Example Usage (Team Name and Password are one word):\n?c register_team <team_name> <password>",
    )
}

/// The help text of `login_team`.
pub fn help_lt() -> (s: String)
    ensures
        s@ == "Example Usage (Team Name and Password are one word):\n?c login_team <team_name> <password>"@,
{
    String::from_str(
        "Example Usage (Team Name and Password are one word):\n?c login_team <team_name> <password>",
    )
}

/// The help text of `answer`.
pub fn help_answer() -> (s: String)
    ensures
        s@ == "example usage:\n?c answer <answer>"@,
{
    String::from_str("example usage:\n?c answer <answer>")
}

/// The text that `howto` sends: how to play.
pub open spec fn howto_text() -> Seq<char> {
    "How to play!\n## Authentication\n1. Register Yourself - `?c register_user`\n2. Register Your Team - `?c register_team teamname password`\n3. Login With Your Team - `?c login_team teamname password`\n4. To Logout - `?c logout`\n## Playing The Game\n1. Get Question - `?c question`\n2. Answer Question - `?c answer yourguess`\n3. View Leaderboard - `?c leaderboard`\n4. Get a hint (-100 Points) - `?c hint`\n5. Get a giveaway (-100 Points) - `?c giveaway` \n\nHave Fun!"@
}

/// The reply of `howto`.
pub fn howto() -> (s: String)
    ensures
        s@ == howto_text(),
{
    String::from_str(
        "How to play!\n## Authentication\n1. Register Yourself - `?c register_user`\n2. Register Your Team - `?c register_team teamname password`\n3. Login With Your Team - `?c login_team teamname password`\n4. To Logout - `?c logout`\n## Playing The Game\n1. Get Question - `?c question`\n2. Answer Question - `?c answer yourguess`\n3. View Leaderboard - `?c leaderboard`\n4. Get a hint (-100 Points) - `?c hint`\n5. Get a giveaway (-100 Points) - `?c giveaway` \n\nHave Fun!",
    )
}

/// The reply of `ping` for the chat user tagged `tag`.
pub fn ping(tag: &str) -> (s: String)
    ensures
        s@ == "Pong for "@ + tag@ + "!"@,
{
    String::from_str("Pong for ").concat(tag).concat("!")
}

/// The message that refuses a command still cooling down for `seconds`.
pub open spec fn cooldown_message(seconds: nat) -> Seq<char> {
    "Please wait for "@ + decimal(seconds) + " seconds before running the command again."@
}

/// Decides on a command that has a cooldown, from the whole seconds of the
/// cooldown that remain for the author (`None` where it has run out). On
/// `Ok` the caller starts a new cooldown and runs the command; on `Err`
/// the command fails with the message.
pub fn check_cooldown(remaining: Option<u64>) -> (r: Result<(), String>)
    ensures
        remaining is None <==> r is Ok,
        remaining matches Some(s) ==> r matches Err(m) && m@ == cooldown_message(s as nat),
{
    match remaining {
        None => Ok(()),
        Some(s) => {
            let m = String::from_str("Please wait for ").concat(render_unsigned(s).as_str()).concat(
                " seconds before running the command again.",
            );
            Err(m)
        },
    }
}

} // verus!
