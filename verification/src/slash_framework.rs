//! The slash-command table: commands built from a name, a description and a
//! handler, collected under distinct names, and looked up by name when an
//! interaction arrives. The handler is carried as an opaque value `P`.

use crate::util::{push_str, str_eq, string_from_chars};
use vstd::prelude::*;

verus! {

/// A slash command: its name, its description and its handler.
#[derive(Debug)]
pub struct SlashFrameworkCommand<P> {
    name: String,
    description: String,
    on_process: P,
}

impl<P> SlashFrameworkCommand<P> {
    /// The command's name.
    pub closed spec fn name_view(&self) -> Seq<char> {
        self.name@
    }

    /// The command's description.
    pub closed spec fn description_view(&self) -> Seq<char> {
        self.description@
    }

    /// The command's handler.
    pub closed spec fn handler(&self) -> P {
        self.on_process
    }

    /// Get the command name.
    pub fn name(&self) -> (res: &str)
        ensures
            res@ == self.name_view(),
    {
        self.name.as_str()
    }

    /// Get the command description.
    pub fn description(&self) -> (res: &str)
        ensures
            res@ == self.description_view(),
    {
        self.description.as_str()
    }

    /// The handler to fire for an interaction with this command.
    pub fn on_process(&self) -> (res: &P)
        ensures
            *res == self.handler(),
    {
        &self.on_process
    }
}

/// A builder for a [`SlashFrameworkCommand`].
#[derive(Debug)]
pub struct SlashFrameworkCommandBuilder<P> {
    name: Option<String>,
    description: Option<String>,
    on_process: Option<P>,
}

/// The error of a build that had no name.
pub const MISSING_NAME_MSG: &'static str = "missing name";

/// The error of a build that had no description.
pub const MISSING_DESCRIPTION_MSG: &'static str = "missing description";

/// The error of a build that had no handler.
pub const MISSING_ON_PROCESS_MSG: &'static str = "missing on_process";

impl<P> SlashFrameworkCommandBuilder<P> {
    /// The name set so far.
    pub closed spec fn name_set(&self) -> Option<Seq<char>> {
        match self.name {
            Some(n) => Some(n@),
            None => None,
        }
    }

    /// The description set so far.
    pub closed spec fn description_set(&self) -> Option<Seq<char>> {
        match self.description {
            Some(d) => Some(d@),
            None => None,
        }
    }

    /// The handler set so far.
    pub closed spec fn on_process_set(&self) -> Option<P> {
        self.on_process
    }

    /// Make a new builder with nothing set.
    pub fn new() -> (res: Self)
        ensures
            res.name_set() is None,
            res.description_set() is None,
            res.on_process_set() is None,
    {
        SlashFrameworkCommandBuilder { name: None, description: None, on_process: None }
    }

    /// Set the command name.
    pub fn name(&mut self, name: &str)
        ensures
            final(self).name_set() == Some(name@),
            final(self).description_set() == old(self).description_set(),
            final(self).on_process_set() == old(self).on_process_set(),
    {
        self.name = Some(name.to_owned());
    }

    /// Set the command description.
    pub fn description(&mut self, description: &str)
        ensures
            final(self).name_set() == old(self).name_set(),
            final(self).description_set() == Some(description@),
            final(self).on_process_set() == old(self).on_process_set(),
    {
        self.description = Some(description.to_owned());
    }

    /// Set the handler.
    pub fn on_process(&mut self, on_process: P)
        ensures
            final(self).name_set() == old(self).name_set(),
            final(self).description_set() == old(self).description_set(),
            final(self).on_process_set() == Some(on_process),
    {
        self.on_process = Some(on_process);
    }

    /// Build the command. The name, the description and the handler are
    /// taken out of the builder in that order; the first that is missing
    /// ends the build with its error, and what was taken before it is gone.
    pub fn build(&mut self) -> (res: Result<SlashFrameworkCommand<P>, String>)
        ensures
            final(self).name_set() is None,
            old(self).name_set() is None ==> (res matches Err(e) && e@ == MISSING_NAME_MSG@),
            old(self).name_set() is None ==> final(self).description_set() == old(
                self,
            ).description_set() && final(self).on_process_set() == old(self).on_process_set(),
            old(self).name_set() is Some && old(self).description_set() is None ==> (res matches Err(
                e,
            ) && e@ == MISSING_DESCRIPTION_MSG@),
            old(self).name_set() is Some ==> final(self).description_set() is None,
            old(self).name_set() is Some && old(self).description_set() is None
                ==> final(self).on_process_set() == old(self).on_process_set(),
            old(self).name_set() is Some && old(self).description_set() is Some
                ==> final(self).on_process_set() is None,
            old(self).name_set() is Some && old(self).description_set() is Some
                && old(self).on_process_set() is None ==> (res matches Err(e) && e@
                == MISSING_ON_PROCESS_MSG@),
            old(self).name_set() is Some && old(self).description_set() is Some
                && old(self).on_process_set() is Some ==> (res matches Ok(c) && c.name_view()
                == old(self).name_set()->0 && c.description_view() == old(
                self,
            ).description_set()->0 && c.handler() == old(self).on_process_set()->0),
    {
        let name = match self.name.take() {
            Some(n) => n,
            None => {
                return Err(MISSING_NAME_MSG.to_owned());
            },
        };
        let description = match self.description.take() {
            Some(d) => d,
            None => {
                return Err(MISSING_DESCRIPTION_MSG.to_owned());
            },
        };
        let on_process = match self.on_process.take() {
            Some(p) => p,
            None => {
                return Err(MISSING_ON_PROCESS_MSG.to_owned());
            },
        };
        Ok(SlashFrameworkCommand { name, description, on_process })
    }
}

/// No two commands of `cmds` have the same name.
pub open spec fn names_distinct<P>(cmds: Seq<SlashFrameworkCommand<P>>) -> bool {
    forall|i: int, j: int|
        0 <= i < cmds.len() && 0 <= j < cmds.len() && i != j ==> #[trigger] cmds[i].name_view()
            != #[trigger] cmds[j].name_view()
}

/// Some command of `cmds` is named `name`.
pub open spec fn has_name<P>(cmds: Seq<SlashFrameworkCommand<P>>, name: Seq<char>) -> bool {
    exists|i: int| 0 <= i < cmds.len() && #[trigger] cmds[i].name_view() == name
}

/// The error of adding a command under a name already taken.
pub open spec fn duplicate_message(name: Seq<char>) -> Seq<char> {
    "duplicate command for `"@ + name + "`"@
}

/// The commands added so far, under distinct names.
#[derive(Debug)]
pub struct SlashFrameworkBuilder<P> {
    commands: Vec<SlashFrameworkCommand<P>>,
}

impl<P> View for SlashFrameworkBuilder<P> {
    type V = Seq<SlashFrameworkCommand<P>>;

    /// The commands added so far, in the order they were first added.
    closed spec fn view(&self) -> Seq<SlashFrameworkCommand<P>> {
        self.commands@
    }
}

impl<P> SlashFrameworkBuilder<P> {
    /// No two commands share a name.
    #[verifier::type_invariant]
    spec fn names_are_distinct(self) -> bool {
        names_distinct(self.commands@)
    }

    /// Make a new builder with no command.
    pub fn new() -> (res: Self)
        ensures
            res.view() == Seq::<SlashFrameworkCommand<P>>::empty(),
    {
        SlashFrameworkBuilder { commands: Vec::new() }
    }

    /// Add a command. A command whose name is already taken replaces the
    /// one that had it, and the call reports the duplicate.
    pub fn command(&mut self, command: SlashFrameworkCommand<P>) -> (res: Result<(), String>)
        ensures
            names_distinct(final(self).view()),
            res is Err <==> has_name(old(self).view(), command.name_view()),
            res matches Err(e) ==> e@ == duplicate_message(command.name_view()),
            res matches Err(_) ==> exists|i: int|
                0 <= i < old(self).view().len() && old(self).view()[i].name_view()
                    == command.name_view() && final(self).view() == old(self).view().update(
                    i,
                    command,
                ),
            res is Ok ==> final(self).view() == old(self).view().push(command),
    {
        proof {
            use_type_invariant(&*self);
        }
        let mut cmds: Vec<SlashFrameworkCommand<P>> = Vec::new();
        std::mem::swap(&mut cmds, &mut self.commands);
        let mut i: usize = 0;
        while i < cmds.len()
            invariant
                0 <= i <= cmds.len(),
                cmds@ == old(self).view(),
                names_distinct(cmds@),
                forall|j: int| 0 <= j < i ==> #[trigger] cmds@[j].name_view() != command.name_view(),
            decreases cmds.len() - i,
        {
            if str_eq(cmds[i].name(), command.name()) {
                let mut msg: Vec<char> = Vec::new();
                push_str(&mut msg, "duplicate command for `");
                push_str(&mut msg, command.name());
                push_str(&mut msg, "`");
                let msg = string_from_chars(&msg);
                let ghost name = command.name_view();
                let ghost old_cmds = cmds@;
                let ghost added = command;
                cmds.set(i, command);
                proof {
                    assert(cmds@ == old_cmds.update(i as int, added));
                    assert(old(self).view()[i as int].name_view() == added.name_view());
                    assert(old_cmds[i as int].name_view() == name);
                    assert forall|a: int, b: int|
                        0 <= a < cmds@.len() && 0 <= b < cmds@.len() && a != b
                            implies #[trigger] cmds@[a].name_view()
                        != #[trigger] cmds@[b].name_view() by {
                        if a == i {
                            assert(old_cmds[b].name_view() != old_cmds[i as int].name_view());
                        } else if b == i {
                            assert(old_cmds[a].name_view() != old_cmds[i as int].name_view());
                        } else {
                            assert(old_cmds[a].name_view() != old_cmds[b].name_view());
                        }
                    }
                }
                self.commands = cmds;
                assert(self.view() == old(self).view().update(i as int, added));
                return Err(msg);
            }
            i = i + 1;
        }
        let ghost old_cmds = cmds@;
        cmds.push(command);
        proof {
            assert forall|a: int, b: int|
                0 <= a < cmds@.len() && 0 <= b < cmds@.len() && a != b
                    implies #[trigger] cmds@[a].name_view()
                != #[trigger] cmds@[b].name_view() by {
                if a == old_cmds.len() {
                    assert(old_cmds[b].name_view() != command.name_view());
                } else if b == old_cmds.len() {
                    assert(old_cmds[a].name_view() != command.name_view());
                } else {
                    assert(old_cmds[a].name_view() != old_cmds[b].name_view());
                }
            }
        }
        self.commands = cmds;
        Ok(())
    }

    /// Build the framework: the commands move into it and the builder is
    /// left empty.
    pub fn build(&mut self) -> (res: Result<SlashFramework<P>, String>)
        ensures
            res matches Ok(f) && f.view() == old(self).view(),
            final(self).view() == Seq::<SlashFrameworkCommand<P>>::empty(),
    {
        proof {
            use_type_invariant(&*self);
        }
        let mut commands: Vec<SlashFrameworkCommand<P>> = Vec::new();
        std::mem::swap(&mut commands, &mut self.commands);
        Ok(SlashFramework { commands })
    }
}

/// The slash commands, under distinct names once built from a
/// [`SlashFrameworkBuilder`].
#[derive(Debug)]
pub struct SlashFramework<P> {
    commands: Vec<SlashFrameworkCommand<P>>,
}

impl<P> View for SlashFramework<P> {
    type V = Seq<SlashFrameworkCommand<P>>;

    /// The commands.
    closed spec fn view(&self) -> Seq<SlashFrameworkCommand<P>> {
        self.commands@
    }
}

impl<P> SlashFramework<P> {
    /// No two commands share a name.
    #[verifier::type_invariant]
    spec fn names_are_distinct(self) -> bool {
        names_distinct(self.commands@)
    }

    /// The commands, to register them.
    pub fn commands(&self) -> (res: &[SlashFrameworkCommand<P>])
        ensures
            res@ == self.view(),
    {
        self.commands.as_slice()
    }

    /// The command that an interaction named `name` is for, if there is one.
    pub fn command_named(&self, name: &str) -> (res: Option<&SlashFrameworkCommand<P>>)
        ensures
            res is None <==> !has_name(self.view(), name@),
            res matches Some(c) ==> exists|i: int|
                0 <= i < self.view().len() && self.view()[i] == *c && c.name_view() == name@,
            res matches Some(c) ==> forall|j: int|
                0 <= j < self.view().len() && #[trigger] self.view()[j].name_view() == name@
                    ==> self.view()[j] == *c,
    {
        let mut i: usize = 0;
        while i < self.commands.len()
            invariant
                0 <= i <= self.commands.len(),
                forall|j: int| 0 <= j < i ==> #[trigger] self.commands@[j].name_view() != name@,
            decreases self.commands.len() - i,
        {
            if str_eq(self.commands[i].name(), name) {
                proof {
                    use_type_invariant(self);
                }
                return Some(&self.commands[i]);
            }
            i = i + 1;
        }
        None
    }
}

/// A command added to a builder is the one found under its name once the
/// framework is built, whether its name was free or taken.
pub proof fn lemma_added_command_found<P>(
    before: Seq<SlashFrameworkCommand<P>>,
    after: Seq<SlashFrameworkCommand<P>>,
    command: SlashFrameworkCommand<P>,
    i: int,
)
    requires
        names_distinct(before),
        names_distinct(after),
        after == before.push(command) || (0 <= i < before.len() && before[i].name_view()
            == command.name_view() && after == before.update(i, command)),
    ensures
        has_name(after, command.name_view()),
        forall|j: int|
            0 <= j < after.len() && #[trigger] after[j].name_view() == command.name_view()
                ==> after[j] == command,
{
    if after == before.push(command) {
        let k = before.len() as int;
        assert(after[k] == command);
        assert forall|j: int|
            0 <= j < after.len() && #[trigger] after[j].name_view() == command.name_view()
                implies after[j] == command by {
            if j != k {
                assert(after[j].name_view() != after[k].name_view());
            }
        }
    } else {
        assert(after[i] == command);
        assert forall|j: int|
            0 <= j < after.len() && #[trigger] after[j].name_view() == command.name_view()
                implies after[j] == command by {
            if j != i {
                assert(after[j].name_view() != after[i].name_view());
            }
        }
    }
}

} // verus!
