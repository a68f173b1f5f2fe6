//! Where the vault keeps its files: `vault.json`, `.session` and
//! `config.json` in the `.kookie` directory of the user's home.

use vstd::prelude::*;

verus! {

/// Joins a directory and a file name with a `/` separator.
pub open spec fn joined(dir: Seq<char>, file: Seq<char>) -> Seq<char> {
    dir + seq!['/'] + file
}

fn join_name(dir: &str, file: &str) -> (r: String)
    ensures
        r@ == joined(dir@, file@),
{
    let s = String::from_str(dir);
    let s = s.concat("/");
    proof {
        reveal_strlit("/");
    }
    s.concat(file)
}

/// Path of the vault file inside the vault directory.
pub fn get_vault_path(vault_dir: &str) -> (r: String)
    ensures
        r@ == joined(vault_dir@, "vault.json"@),
{
    join_name(vault_dir, "vault.json")
}

/// Path of the session file inside the vault directory.
pub fn get_session_path(vault_dir: &str) -> (r: String)
    ensures
        r@ == joined(vault_dir@, ".session"@),
{
    join_name(vault_dir, ".session")
}

/// Path of the configuration file inside the vault directory.
pub fn get_config_path(vault_dir: &str) -> (r: String)
    ensures
        r@ == joined(vault_dir@, "config.json"@),
{
    join_name(vault_dir, "config.json")
}

/// The vault directory inside a home directory.
pub fn get_vault_dir(home: &str) -> (r: String)
    ensures
        r@ == joined(home@, ".kookie"@),
{
    join_name(home, ".kookie")
}

} // verus!
