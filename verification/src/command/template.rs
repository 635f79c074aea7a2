//! Reusable command shapes.

use vstd::prelude::*;
use crate::command::command::{commands_alike, options_alike, Command};

verus! {

/// Builds a command from a blank one.
pub trait Template: Sized {
    /// `built` is what this template makes of `command`.
    spec fn builds(&self, command: Command, built: Command) -> bool;

    fn run(&self, command: Command) -> (r: Command)
        ensures
            r.response is Some,
            r.administrator_id == command.administrator_id,
            self.builds(command, r),
    ;

    /// What the template builds is determined, texts up to their
    /// characters, by the administrator and the options it starts from.
    proof fn lemma_builds_alike(&self, c1: Command, c2: Command, d1: Command, d2: Command)
        requires
            self.builds(c1, d1),
            self.builds(c2, d2),
            c1.administrator_id == c2.administrator_id,
            options_alike(c1.options@, c2.options@),
        ensures
            commands_alike(d1, d2),
    ;
}

} // verus!
