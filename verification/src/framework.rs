//! The command framework under its older names: the same table of commands
//! as [`crate::slash_framework`].

use crate::slash_framework::{
    SlashFramework,
    SlashFrameworkBuilder,
    SlashFrameworkCommand,
    SlashFrameworkCommandBuilder,
};
use vstd::prelude::*;

verus! {

/// The built table of commands.
pub type Framework<P> = SlashFramework<P>;

/// The table of commands while they are added.
pub type FrameworkBuilder<P> = SlashFrameworkBuilder<P>;

/// A command: its name, its description and its handler.
pub type FrameworkCommand<P> = SlashFrameworkCommand<P>;

/// A builder for a [`FrameworkCommand`].
pub type FrameworkCommandBuilder<P> = SlashFrameworkCommandBuilder<P>;

} // verus!
