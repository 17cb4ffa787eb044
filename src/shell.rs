//! The user's shell and its configuration file.

use vstd::prelude::*;
use crate::text::{contains, occurs_in};

verus! {

#[derive(Clone, Copy, Debug, PartialEq, Eq, Structural)]
pub enum Shell {
    Bash,
    Zsh,
    Fish,
}

/// The program name of a shell.
pub open spec fn shell_name(shell: Shell) -> Seq<char> {
    match shell {
        Shell::Bash => "bash"@,
        Shell::Zsh => "zsh"@,
        Shell::Fish => "fish"@,
    }
}

/// A shell's configuration file, relative to the home directory.
pub open spec fn config_file(shell: Shell) -> Seq<char> {
    match shell {
        Shell::Bash => "/.bash_profile"@,
        Shell::Zsh => "/.zshrc"@,
        Shell::Fish => "/.config/fish/config.fish"@,
    }
}

/// The shell that a `SHELL` value names: fish if it mentions fish, else zsh if
/// it mentions zsh, else bash.
pub open spec fn shell_of(value: Seq<char>) -> Shell {
    if occurs_in("fish"@, value) {
        Shell::Fish
    } else if occurs_in("zsh"@, value) {
        Shell::Zsh
    } else {
        Shell::Bash
    }
}

/// Relies on `std::path::Path::exists`, which asks the file system: nothing is
/// known of its answer.
#[verifier::external_body]
fn path_exists(path: &str) -> bool {
    std::path::Path::new(path).exists()
}

impl Shell {
    pub fn name(&self) -> (r: &'static str)
        ensures
            r@ == shell_name(*self),
    {
        match self {
            Shell::Bash => "bash",
            Shell::Zsh => "zsh",
            Shell::Fish => "fish",
        }
    }

    /// The configuration file under the home directory `home`.
    pub fn get_config_path_str(&self, home: &str) -> (r: String)
        ensures
            r@ == home@ + config_file(*self),
    {
        let file: &str = match self {
            Shell::Bash => "/.bash_profile",
            Shell::Zsh => "/.zshrc",
            Shell::Fish => "/.config/fish/config.fish",
        };
        let mut path = home.to_owned();
        path.append(file);
        path
    }

    /// Whether the configuration file under `home` exists.
    pub fn config_exists(&self, home: &str) -> bool {
        let path = self.get_config_path_str(home);
        path_exists(path.as_str())
    }

    /// The shell that the value of `SHELL` names.
    pub fn from_env_value(value: &str) -> (r: Shell)
        ensures
            r == shell_of(value@),
    {
        if contains(value, "fish") {
            Shell::Fish
        } else if contains(value, "zsh") {
            Shell::Zsh
        } else {
            Shell::Bash
        }
    }
}

/// Whether the configuration text `contents` holds `line`.
pub fn holds_line(contents: &str, line: &str) -> (r: bool)
    ensures
        r == occurs_in(line@, contents@),
{
    contains(contents, line)
}

/// The configuration text with `line` appended, where it does not hold `line`
/// yet.
pub open spec fn with_line(contents: Seq<char>, line: Seq<char>) -> Option<Seq<char>> {
    if occurs_in(line, contents) {
        None
    } else {
        Some(contents + line)
    }
}

/// What to write to a configuration file that holds `contents` so that it holds
/// `line`: `None` where it already does.
pub fn config_with_line(contents: &str, line: &str) -> (r: Option<String>)
    ensures
        r matches Some(t) ==> with_line(contents@, line@) == Some(t@),
        r is None <==> with_line(contents@, line@) is None,
{
    if contains(contents, line) {
        None
    } else {
        let mut updated = contents.to_owned();
        updated.append(line);
        Some(updated)
    }
}

} // verus!
