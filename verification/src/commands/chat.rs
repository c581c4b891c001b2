//! Chat: what the bot does with a reply from the language model.

use crate::commands::twitterify::{
    first_space,
    lemma_first_space_at,
};
use crate::util::{
    chars_of,
    push_str,
    string_from_chars,
};
use vstd::prelude::*;

verus! {

/// The instruction sent before each chat message, so that requests for
/// statistics come back as a command.
pub const R6_TRACKER_PROMPT: &'static str = "When a user asks for rainbox six siege statistics for a person, respond only with \"!r6tracker <playername>\".";

/// The command word that asks for R6Tracker statistics.
pub const R6_TRACKER_COMMAND: &'static str = "!r6tracker";

/// Options
#[derive(Debug, Clone)]
pub struct Options {
    /// The message
    pub message: String,
}

/// What to do with a reply of the language model.
#[derive(Debug, Clone)]
pub enum ChatAction {
    /// Look up this player on R6Tracker and show their statistics.
    LookUpR6Tracker(String),
    /// Show the reply as it is.
    Reply(String),
}

/// The reply starts with the R6Tracker command word followed by a space.
pub open spec fn asks_r6tracker(s: Seq<char>) -> bool {
    let k = first_space(s);
    k < s.len() && s.take(k) == R6_TRACKER_COMMAND@
}

/// Decide what to do with a reply: when its first word, up to the first
/// space, is the R6Tracker command, look up the rest; else show it.
pub fn chat_action(response: &str) -> (res: ChatAction)
    ensures
        asks_r6tracker(response@) ==> (res matches ChatAction::LookUpR6Tracker(name) && name@
            == response@.skip(first_space(response@) + 1)),
        !asks_r6tracker(response@) ==> (res matches ChatAction::Reply(text) && text@ == response@),
{
    let cs = chars_of(response);
    let mut i: usize = 0;
    while i < cs.len() && cs[i] != ' '
        invariant
            cs@ == response@,
            0 <= i <= cs.len(),
            forall|j: int| 0 <= j < i ==> response@[j] != ' ',
        decreases cs.len() - i,
    {
        i = i + 1;
    }
    proof {
        lemma_first_space_at(response@, i as int);
    }
    if i < cs.len() {
        let command = chars_of(R6_TRACKER_COMMAND);
        let mut same = command.len() == i;
        let mut j: usize = 0;
        while same && j < i
            invariant
                cs@ == response@,
                command@ == R6_TRACKER_COMMAND@,
                i < cs.len(),
                0 <= j <= i,
                same ==> command.len() == i,
                same ==> forall|k: int| 0 <= k < j ==> response@[k] == R6_TRACKER_COMMAND@[k],
                !same ==> response@.take(i as int) != R6_TRACKER_COMMAND@,
            decreases i - j,
        {
            if cs[j] != command[j] {
                same = false;
                assert(response@.take(i as int)[j as int] != R6_TRACKER_COMMAND@[j as int]);
            }
            j = j + 1;
        }
        if same {
            assert(response@.take(i as int) =~= R6_TRACKER_COMMAND@);
            let mut rest: Vec<char> = Vec::new();
            let mut k: usize = i + 1;
            while k < cs.len()
                invariant
                    cs@ == response@,
                    i < k <= cs.len(),
                    rest@ == response@.subrange(i + 1, k as int),
                decreases cs.len() - k,
            {
                rest.push(cs[k]);
                assert(response@.subrange(i + 1, k + 1) =~= response@.subrange(i + 1, k as int).push(
                    response@[k as int],
                ));
                k = k + 1;
            }
            assert(rest@ =~= response@.skip(i + 1));
            return ChatAction::LookUpR6Tracker(string_from_chars(&rest));
        }
    }
    ChatAction::Reply(string_from_chars(&cs))
}

/// The reply when R6Tracker has no player of that name.
pub fn player_not_found_message(name: &str) -> (res: String)
    ensures
        res@ == "User \""@ + name@ + "\" was not found"@,
{
    let mut out: Vec<char> = Vec::new();
    push_str(&mut out, "User \"");
    push_str(&mut out, name);
    push_str(&mut out, "\" was not found");
    string_from_chars(&out)
}

} // verus!
