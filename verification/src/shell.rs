//! The function that the user's shell sources: it runs the tool and evaluates
//! what the tool prints.

use vstd::prelude::*;

verus! {

/// The shells for which the function is written.
#[derive(Clone, Copy, Debug, PartialEq, Eq, Structural)]
pub enum Flavor {
    Bash,
    Zsh,
}

/// A shell of the given flavor.
#[derive(Clone, Copy, Debug, PartialEq, Eq, Structural)]
pub struct Shell(pub Flavor);

/// The text of the shell function `kb`, the same for every flavor.
pub open spec fn kb_script() -> Seq<char> {
    "kb() {\n    eval \"$(krabby \"$@\")\"\n}\n"@
}

impl Shell {
    /// The text to source: [`kb_script`], which is not empty.
    pub fn script(&self) -> (r: String)
        ensures
            r@ == kb_script(),
            r@.len() > 0,
    {
        proof {
            reveal_strlit("kb() {\n    eval \"$(krabby \"$@\")\"\n}\n");
        }
        match &self.0 {
            Flavor::Bash | Flavor::Zsh => String::from_str(
                "kb() {\n    eval \"$(krabby \"$@\")\"\n}\n",
            ),
        }
    }
}

} // verus!
