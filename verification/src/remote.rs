use vstd::prelude::*;
use crate::commands::Command;

verus! {

/// Options for running the remote client: the one command to issue before
/// following the reply.
#[derive(Clone, Copy, Debug)]
pub struct Arguments {
    pub command: Command,
}

} // verus!
