//! Turning commands on and off for a server: reading the request, and the
//! replies.

use crate::util::{
    push_str,
    str_eq,
    string_from_chars,
};
use vstd::prelude::*;

verus! {

/// The reply when the command is used outside a server.
pub const DM_MSG: &'static str = "You cannot use this in a DM.";

/// The reply when the first argument is neither `enable` nor `disable`.
pub const INVALID_ARG_MSG: &'static str = "Invalid Arg. Choose \"enable\" or \"disable\".";

/// The reply when the command named does not exist.
pub const INVALID_COMMAND_MSG: &'static str = "Invalid Command. Use `cmd list` to list valid commands.";

/// The word for a command's state: `disabled` or `enabled`.
pub open spec fn status_text(disabled: bool) -> Seq<char> {
    if disabled {
        "disabled"@
    } else {
        "enabled"@
    }
}

/// The word for a command's state.
pub fn status_to_str(status: bool) -> (res: &'static str)
    ensures
        res@ == status_text(status),
{
    if status {
        "disabled"
    } else {
        "enabled"
    }
}

/// What a request to turn a command on or off asks for.
#[derive(Debug, Clone, PartialEq, Eq)]
pub enum CmdRequest {
    /// Set the command with this name to disabled, or not.
    Apply { disable: bool, name: String },
    /// Refuse the request with this reply.
    Refuse(&'static str),
}

/// `name` is among `names`.
pub open spec fn names_contain(names: Seq<String>, name: Seq<char>) -> bool {
    exists|i: int| 0 <= i < names.len() && #[trigger] names[i]@ == name
}

/// Read a request: `enable` or `disable`, then the name of one of the
/// commands in `names`.
pub fn parse_cmd_request(action: &str, cmd_name: &str, names: &Vec<String>) -> (res: CmdRequest)
    ensures
        action@ != "enable"@ && action@ != "disable"@ ==> res == CmdRequest::Refuse(
            INVALID_ARG_MSG,
        ),
        (action@ == "enable"@ || action@ == "disable"@) && !names_contain(names@, cmd_name@)
            ==> res == CmdRequest::Refuse(INVALID_COMMAND_MSG),
        (action@ == "enable"@ || action@ == "disable"@) && names_contain(names@, cmd_name@) ==> (
        res matches CmdRequest::Apply { disable, name } && disable == (action@ == "disable"@)
            && name@ == cmd_name@),
{
    proof {
        reveal_strlit("enable");
        reveal_strlit("disable");
        assert("enable"@.len() != "disable"@.len());
    }
    let disable = if str_eq(action, "enable") {
        false
    } else if str_eq(action, "disable") {
        true
    } else {
        return CmdRequest::Refuse(INVALID_ARG_MSG);
    };
    let mut i: usize = 0;
    while i < names.len()
        invariant
            0 <= i <= names.len(),
            action@ == "enable"@ || action@ == "disable"@,
            disable == (action@ == "disable"@),
            forall|j: int| 0 <= j < i ==> #[trigger] names@[j]@ != cmd_name@,
        decreases names.len() - i,
    {
        if str_eq(names[i].as_str(), cmd_name) {
            return CmdRequest::Apply { disable, name: String::from_str(cmd_name) };
        }
        i = i + 1;
    }
    CmdRequest::Refuse(INVALID_COMMAND_MSG)
}

/// The reply after setting the command `name`: `Ok` with whether it is now
/// disabled, or `Err` where the database failed.
pub fn set_reply(name: &str, res: Result<bool, ()>) -> (msg: String)
    ensures
        res matches Ok(disabled) ==> msg@ == "Command '"@ + name@ + "' "@ + status_text(disabled)
            + "."@,
        res is Err ==> msg@ == "Failed to disable command '"@ + name@ + "' "@,
{
    let mut out: Vec<char> = Vec::new();
    match res {
        Ok(disabled) => {
            push_str(&mut out, "Command '");
            push_str(&mut out, name);
            push_str(&mut out, "' ");
            push_str(&mut out, status_to_str(disabled));
            push_str(&mut out, ".");
        },
        Err(()) => {
            push_str(&mut out, "Failed to disable command '");
            push_str(&mut out, name);
            push_str(&mut out, "' ");
        },
    }
    string_from_chars(&out)
}

/// The lines of the list of commands: each name with its state.
pub open spec fn list_lines(commands: Seq<(String, bool)>) -> Seq<char>
    decreases commands.len(),
{
    if commands.len() == 0 {
        Seq::empty()
    } else {
        list_lines(commands.drop_last()) + commands.last().0@ + ": **"@ + (if commands.last().1 {
            "DISABLED"@
        } else {
            "ENABLED"@
        }) + "**\n"@
    }
}

/// The list of commands that can be turned on and off, each given with
/// whether it is disabled in this server.
pub fn list_text(commands: &Vec<(String, bool)>) -> (res: String)
    ensures
        res@ == "Commands:\n"@ + list_lines(commands@),
{
    let mut out: Vec<char> = Vec::new();
    push_str(&mut out, "Commands:\n");
    let mut i: usize = 0;
    while i < commands.len()
        invariant
            0 <= i <= commands.len(),
            out@ == "Commands:\n"@ + list_lines(commands@.take(i as int)),
        decreases commands.len() - i,
    {
        proof {
            assert(commands@.take(i + 1).drop_last() =~= commands@.take(i as int));
        }
        push_str(&mut out, commands[i].0.as_str());
        push_str(&mut out, ": **");
        if commands[i].1 {
            push_str(&mut out, "DISABLED");
        } else {
            push_str(&mut out, "ENABLED");
        }
        push_str(&mut out, "**\n");
        assert(out@ =~= "Commands:\n"@ + list_lines(commands@.take(i + 1)));
        i = i + 1;
    }
    assert(commands@.take(commands.len() as int) =~= commands@);
    string_from_chars(&out)
}

} // verus!
