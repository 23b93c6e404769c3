//! Which `cert` subcommand a command line selects.

use vstd::prelude::*;
use crate::text::str_eq;

verus! {

/// The `cert` subcommands, and the help shown for anything else.
#[derive(Debug, Clone, Copy, PartialEq, Eq, Structural)]
pub enum CertCommand {
    List,
    Show,
    NewSuid,
    NewCsr,
    Sign,
    Verify,
    Import,
    Export,
    Delete,
    FactoryReset,
    Help,
}

/// The subcommand that `name` selects, given whether the subcommand came
/// with arguments of its own: `list` and `factoryreset` take none,
/// `newsuid` runs either way, the others need theirs.
pub open spec fn command_of(name: Seq<char>, has_args: bool) -> CertCommand {
    if name == "list"@ && !has_args {
        CertCommand::List
    } else if name == "show"@ && has_args {
        CertCommand::Show
    } else if name == "newsuid"@ {
        CertCommand::NewSuid
    } else if name == "newcsr"@ && has_args {
        CertCommand::NewCsr
    } else if name == "sign"@ && has_args {
        CertCommand::Sign
    } else if name == "verify"@ && has_args {
        CertCommand::Verify
    } else if name == "import"@ && has_args {
        CertCommand::Import
    } else if name == "export"@ && has_args {
        CertCommand::Export
    } else if name == "delete"@ && has_args {
        CertCommand::Delete
    } else if name == "factoryreset"@ && !has_args {
        CertCommand::FactoryReset
    } else {
        CertCommand::Help
    }
}

/// The subcommand that `name` selects, given whether the subcommand came
/// with arguments of its own.
pub fn command_for(name: &str, has_args: bool) -> (c: CertCommand)
    ensures
        c == command_of(name@, has_args),
{
    if str_eq(name, "list") && !has_args {
        CertCommand::List
    } else if str_eq(name, "show") && has_args {
        CertCommand::Show
    } else if str_eq(name, "newsuid") {
        CertCommand::NewSuid
    } else if str_eq(name, "newcsr") && has_args {
        CertCommand::NewCsr
    } else if str_eq(name, "sign") && has_args {
        CertCommand::Sign
    } else if str_eq(name, "verify") && has_args {
        CertCommand::Verify
    } else if str_eq(name, "import") && has_args {
        CertCommand::Import
    } else if str_eq(name, "export") && has_args {
        CertCommand::Export
    } else if str_eq(name, "delete") && has_args {
        CertCommand::Delete
    } else if str_eq(name, "factoryreset") && !has_args {
        CertCommand::FactoryReset
    } else {
        CertCommand::Help
    }
}

/// The exit status of a subcommand that the service does not carry out yet
/// (every one but `show`, `newsuid` and `newcsr`): success for the
/// subcommands, failure for the help.
pub fn placeholder_status(c: CertCommand) -> (status: i32)
    requires
        c != CertCommand::Show && c != CertCommand::NewSuid && c != CertCommand::NewCsr,
    ensures
        status == (if c == CertCommand::Help { 1i32 } else { 0i32 }),
{
    if c == CertCommand::Help {
        1
    } else {
        0
    }
}

/// Each subcommand is selected by its own name alone: `list` and
/// `factoryreset` only without arguments of their own, `newsuid` either way,
/// the others only with their arguments; every other command line gets the
/// help.
pub proof fn lemma_command_selection(name: Seq<char>, has_args: bool)
    ensures
        command_of(name, has_args) == CertCommand::List <==> name == "list"@ && !has_args,
        command_of(name, has_args) == CertCommand::Show <==> name == "show"@ && has_args,
        command_of(name, has_args) == CertCommand::NewSuid <==> name == "newsuid"@,
        command_of(name, has_args) == CertCommand::NewCsr <==> name == "newcsr"@ && has_args,
        command_of(name, has_args) == CertCommand::Sign <==> name == "sign"@ && has_args,
        command_of(name, has_args) == CertCommand::Verify <==> name == "verify"@ && has_args,
        command_of(name, has_args) == CertCommand::Import <==> name == "import"@ && has_args,
        command_of(name, has_args) == CertCommand::Export <==> name == "export"@ && has_args,
        command_of(name, has_args) == CertCommand::Delete <==> name == "delete"@ && has_args,
        command_of(name, has_args) == CertCommand::FactoryReset <==> name == "factoryreset"@
            && !has_args,
{
    reveal_strlit("list");
    reveal_strlit("show");
    reveal_strlit("newsuid");
    reveal_strlit("newcsr");
    reveal_strlit("sign");
    reveal_strlit("verify");
    reveal_strlit("import");
    reveal_strlit("export");
    reveal_strlit("delete");
    reveal_strlit("factoryreset");
    assert("newsuid"@.len() == 7 && "newcsr"@.len() == 6 && "factoryreset"@.len() == 12);
    assert("list"@.len() == 4 && "show"@.len() == 4 && "sign"@.len() == 4);
    assert("verify"@.len() == 6 && "import"@.len() == 6 && "export"@.len() == 6 && "delete"@.len()
        == 6);
    assert("list"@[0] != "show"@[0] && "list"@[0] != "sign"@[0] && "show"@[1] != "sign"@[1]);
    assert("newcsr"@[0] != "verify"@[0] && "newcsr"@[0] != "import"@[0] && "newcsr"@[0]
        != "export"@[0] && "newcsr"@[0] != "delete"@[0]);
    assert("verify"@[0] != "import"@[0] && "verify"@[0] != "export"@[0] && "verify"@[0]
        != "delete"@[0]);
    assert("import"@[0] != "export"@[0] && "import"@[0] != "delete"@[0] && "export"@[0]
        != "delete"@[0]);
}

} // verus!
