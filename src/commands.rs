use vstd::prelude::*;

verus! {

/// The administrative commands, which are handled apart from templates.
pub struct Commands;

impl Commands {
    pub const INIT: &'static str = "init";

    pub const CONFIG: &'static str = "config";

    pub const PROC: &'static str = "proc";

    pub const HELP_LONG: &'static str = "--help";

    pub const HELP_SHORT: &'static str = "-h";
}

/// The words that name an administrative command or ask for help.
pub open spec fn is_predefined(command: Seq<char>) -> bool {
    ||| command == Commands::INIT@
    ||| command == Commands::CONFIG@
    ||| command == Commands::PROC@
    ||| command == Commands::HELP_LONG@
    ||| command == Commands::HELP_SHORT@
}

impl Commands {
    /// Whether `command` names an administrative command or asks for help,
    /// rather than naming a template.
    pub fn is_predefined_command(command: &str) -> (r: bool)
        ensures
            r == is_predefined(command@),
    {
        let c = String::from_str(command);
        c == String::from_str(Commands::INIT) || c == String::from_str(Commands::CONFIG) || c
            == String::from_str(Commands::PROC) || c == String::from_str(Commands::HELP_LONG) || c
            == String::from_str(Commands::HELP_SHORT)
    }
}

} // verus!
