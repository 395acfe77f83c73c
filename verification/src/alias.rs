use vstd::prelude::*;
use vstd::string::*;
use crate::quoting::{lemma_quoted_without_quote, quoted};

verus! {

/// The line that defines the alias `name` for `command`.
pub open spec fn alias_line(name: Seq<char>, command: Seq<char>) -> Seq<char> {
    "alias "@ + name + "='"@ + command + "'\n"@
}

/// The alias definitions for a wrapper installed as `z_cmd`, as text: `zi`
/// for interactive navigation, `za` to add a directory, `zq` and `zqi` to
/// query, `zr` and `zri` to remove, in four groups.
pub open spec fn alias_script(z_cmd: Seq<char>) -> Seq<char> {
    "\n"@ + alias_line("zi"@, z_cmd + " -i"@)
    + "\n"@ + alias_line("za"@, "zoxide add"@)
    + "\n"@ + alias_line("zq"@, "zoxide query"@) + alias_line("zqi"@, "zoxide query -i"@)
    + "\n"@ + alias_line("zr"@, "zoxide remove"@) + alias_line("zri"@, "zoxide remove -i"@)
}

fn push_alias(script: &mut String, name: &str, command: &str)
    ensures
        final(script)@ == old(script)@ + alias_line(name@, command@),
{
    script.append("alias ");
    script.append(name);
    script.append("='");
    script.append(command);
    script.append("'\n");
}

/// Emits the shorthand aliases: `zi` runs the wrapper `z_cmd` with `-i`,
/// and `za`, `zq`, `zqi`, `zr`, `zri` run the tool's `add`, `query` and
/// `remove`, plain or interactive. The name is put in as it is.
pub fn alias(z_cmd: &str) -> (script: String)
    ensures
        script@ == alias_script(z_cmd@),
{
    let mut interactive = String::from_str(z_cmd);
    interactive.append(" -i");
    let mut script = String::from_str("\n");
    push_alias(&mut script, "zi", interactive.as_str());
    script.append("\n");
    push_alias(&mut script, "za", "zoxide add");
    script.append("\n");
    push_alias(&mut script, "zq", "zoxide query");
    push_alias(&mut script, "zqi", "zoxide query -i");
    script.append("\n");
    push_alias(&mut script, "zr", "zoxide remove");
    push_alias(&mut script, "zri", "zoxide remove -i");
    script
}

/// Where `command` holds no single quote, the alias's value is the quoted
/// word of `command`: a shell that reads the line binds `name` to
/// `command`, character for character.
pub proof fn lemma_alias_value_is_quoted(name: Seq<char>, command: Seq<char>)
    requires
        !command.contains('\''),
    ensures
        alias_line(name, command) == "alias "@ + name + "="@ + quoted(command) + "\n"@,
{
    lemma_quoted_without_quote(command);
    reveal_strlit("='");
    reveal_strlit("=");
    reveal_strlit("'\n");
    reveal_strlit("\n");
    assert("='"@ =~= "="@ + seq!['\'']);
    assert("'\n"@ =~= seq!['\''] + "\n"@);
    assert(alias_line(name, command) =~= "alias "@ + name + "="@ + quoted(command) + "\n"@);
}

} // verus!
