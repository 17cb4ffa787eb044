//! The installable units that a step can run, and the commands they issue.

use vstd::prelude::*;
use crate::shell::Shell;
use crate::text::{split_on, split_spec, views};

verus! {

/// Packages for `brew install`, separated by spaces.
#[derive(Clone, Debug)]
pub enum Homebrew {
    Packages(String),
}

/// Packages for `pnpm install --global`, separated by spaces.
#[derive(Clone, Debug)]
pub enum Pnpm {
    Packages(String),
}

/// Packages for `yarn global add`, separated by spaces.
#[derive(Clone, Debug)]
pub enum Yarn {
    Packages(String),
}

/// A chezmoi dotfiles repository on GitHub (`owner/name`).
#[derive(Clone, Debug)]
pub struct Chezmoi {
    pub repo: String,
    pub apply: Option<bool>,
}

/// A JDK 11 installed through Homebrew, with `JAVA_HOME` set in the shell.
#[derive(Clone, Debug)]
pub struct Java11 {}

/// A Ruby version installed through rbenv.
#[derive(Clone, Debug)]
pub struct Rbenv {
    pub install: Option<bool>,
    pub ruby_version: String,
    pub global: Option<bool>,
}

/// Node installed through fnm.
#[derive(Clone, Debug)]
pub struct Node {}

/// The package names in a space-separated list.
pub open spec fn packages(text: Seq<char>) -> Seq<Seq<char>> {
    split_spec(text, ' ')
}

/// `words` followed by the package names in `text`.
fn words_then_packages(words: Vec<String>, text: &str) -> (r: Vec<String>)
    ensures
        views(r@) == views(words@) + packages(text@),
{
    let mut args = words;
    let mut rest = split_on(text, ' ');
    let ghost first = args@;
    let ghost second = rest@;
    args.append(&mut rest);
    proof {
        assert(args@ == first + second);
        assert(views(first + second) =~= views(first) + views(second));
    }
    args
}

/// `a` followed by `b`.
fn joined(a: &str, b: &str) -> (r: String)
    ensures
        r@ == a@ + b@,
{
    let mut r = a.to_owned();
    r.append(b);
    r
}

impl Homebrew {
    pub open spec fn text(&self) -> Seq<char> {
        match self {
            Homebrew::Packages(s) => s@,
        }
    }

    pub fn get_packages(&self) -> (r: Vec<String>)
        ensures
            views(r@) == packages(self.text()),
    {
        let Homebrew::Packages(s) = self;
        split_on(s.as_str(), ' ')
    }

    /// The arguments of `brew`.
    pub fn install_args(&self) -> (r: Vec<String>)
        ensures
            views(r@) == seq!["install"@] + packages(self.text()),
    {
        let Homebrew::Packages(s) = self;
        let words = vec!["install".to_owned()];
        proof {
            assert(views(words@) =~= seq!["install"@]);
        }
        words_then_packages(words, s.as_str())
    }

    /// The command as shown to the user.
    pub fn command_line(&self) -> (r: String)
        ensures
            r@ == "brew install "@ + self.text(),
    {
        let Homebrew::Packages(s) = self;
        joined("brew install ", s.as_str())
    }
}

impl Pnpm {
    pub open spec fn text(&self) -> Seq<char> {
        match self {
            Pnpm::Packages(s) => s@,
        }
    }

    pub fn get_packages(&self) -> (r: Vec<String>)
        ensures
            views(r@) == packages(self.text()),
    {
        let Pnpm::Packages(s) = self;
        split_on(s.as_str(), ' ')
    }

    /// The arguments of `pnpm`.
    pub fn install_args(&self) -> (r: Vec<String>)
        ensures
            views(r@) == seq!["install"@, "--global"@] + packages(self.text()),
    {
        let Pnpm::Packages(s) = self;
        let words = vec!["install".to_owned(), "--global".to_owned()];
        proof {
            assert(views(words@) =~= seq!["install"@, "--global"@]);
        }
        words_then_packages(words, s.as_str())
    }

    /// The command as shown to the user.
    pub fn command_line(&self) -> (r: String)
        ensures
            r@ == "pnpm install --global "@ + self.text(),
    {
        let Pnpm::Packages(s) = self;
        joined("pnpm install --global ", s.as_str())
    }
}

impl Yarn {
    pub open spec fn text(&self) -> Seq<char> {
        match self {
            Yarn::Packages(s) => s@,
        }
    }

    pub fn get_packages(&self) -> (r: Vec<String>)
        ensures
            views(r@) == packages(self.text()),
    {
        let Yarn::Packages(s) = self;
        split_on(s.as_str(), ' ')
    }

    /// The arguments of `yarn`.
    pub fn install_args(&self) -> (r: Vec<String>)
        ensures
            views(r@) == seq!["global"@, "add"@] + packages(self.text()),
    {
        let Yarn::Packages(s) = self;
        let words = vec!["global".to_owned(), "add".to_owned()];
        proof {
            assert(views(words@) =~= seq!["global"@, "add"@]);
        }
        words_then_packages(words, s.as_str())
    }

    /// The command as shown to the user.
    pub fn command_line(&self) -> (r: String)
        ensures
            r@ == "yarn global add "@ + self.text(),
    {
        let Yarn::Packages(s) = self;
        joined("yarn global add ", s.as_str())
    }
}

/// The SSH URL of a GitHub repository `owner/name`.
pub open spec fn repo_url(repo: Seq<char>) -> Seq<char> {
    "git@github.com/"@ + repo + ".git"@
}

impl Chezmoi {
    pub fn get_repo_url(&self) -> (r: String)
        ensures
            r@ == repo_url(self.repo@),
    {
        let mut url = joined("git@github.com/", self.repo.as_str());
        url.append(".git");
        url
    }

    pub open spec fn applies(&self) -> bool {
        self.apply == Some(true)
    }

    /// The arguments of `chezmoi`.
    pub fn init_args(&self) -> (r: Vec<String>)
        ensures
            views(r@) == if self.applies() {
                seq!["init"@, "--apply"@, repo_url(self.repo@)]
            } else {
                seq!["init"@, repo_url(self.repo@)]
            },
    {
        let url = self.get_repo_url();
        let r = if self.apply == Some(true) {
            vec!["init".to_owned(), "--apply".to_owned(), url]
        } else {
            vec!["init".to_owned(), url]
        };
        proof {
            if self.applies() {
                assert(views(r@) =~= seq!["init"@, "--apply"@, repo_url(self.repo@)]);
            } else {
                assert(views(r@) =~= seq!["init"@, repo_url(self.repo@)]);
            }
        }
        r
    }

    /// The command as shown to the user.
    pub fn command_line(&self) -> (r: String)
        ensures
            r@ == "chezmoi init "@ + (if self.applies() { "--apply "@ } else { ""@ }) + repo_url(
                self.repo@,
            ),
    {
        let url = self.get_repo_url();
        let head = if self.apply == Some(true) {
            "chezmoi init --apply "
        } else {
            "chezmoi init "
        };
        proof {
            reveal_strlit("chezmoi init --apply ");
            reveal_strlit("chezmoi init ");
            reveal_strlit("--apply ");
            reveal_strlit("");
            if self.applies() {
                assert("chezmoi init --apply "@ =~= "chezmoi init "@ + "--apply "@);
            } else {
                assert("chezmoi init "@ =~= "chezmoi init "@ + ""@);
            }
        }
        joined(head, url.as_str())
    }
}

/// The line that hooks rbenv into a shell's startup.
pub open spec fn rbenv_init_line(shell: Shell) -> Seq<char> {
    match shell {
        Shell::Bash => "eval \"$(rbenv init - bash)\""@,
        Shell::Zsh => "eval \"$(rbenv init - zsh)\""@,
        Shell::Fish => "status --is-interactive; and rbenv init - fish | source"@,
    }
}

impl Rbenv {
    /// Whether rbenv itself is installed and hooked into the shell first: only
    /// when asked for, and only on a fresh start of the tool.
    pub fn sets_up_rbenv(&self, tool_step: usize) -> (r: bool)
        ensures
            r == (self.install == Some(true) && tool_step == 0),
    {
        self.install == Some(true) && tool_step == 0
    }

    pub fn shell_init_line(shell: Shell) -> (r: &'static str)
        ensures
            r@ == rbenv_init_line(shell),
    {
        match shell {
            Shell::Bash => "eval \"$(rbenv init - bash)\"",
            Shell::Zsh => "eval \"$(rbenv init - zsh)\"",
            Shell::Fish => "status --is-interactive; and rbenv init - fish | source",
        }
    }

    /// The arguments of `rbenv` that install the Ruby version.
    pub fn install_args(&self) -> (r: Vec<String>)
        ensures
            views(r@) == seq!["install"@, self.ruby_version@],
    {
        let r = vec!["install".to_owned(), self.ruby_version.clone()];
        proof {
            assert(views(r@) =~= seq!["install"@, self.ruby_version@]);
        }
        r
    }

    /// The arguments of `rbenv` that make the version the global one, where
    /// that is asked for.
    pub fn global_args(&self) -> (r: Option<Vec<String>>)
        ensures
            r is Some <==> self.global == Some(true),
            r matches Some(a) ==> views(a@) == seq!["global"@, self.ruby_version@],
    {
        if self.global == Some(true) {
            let a = vec!["global".to_owned(), self.ruby_version.clone()];
            proof {
                assert(views(a@) =~= seq!["global"@, self.ruby_version@]);
            }
            Some(a)
        } else {
            None
        }
    }

    /// The command as shown to the user.
    pub fn command_line(&self) -> (r: String)
        ensures
            r@ == "rbenv install "@ + self.ruby_version@,
    {
        joined("rbenv install ", self.ruby_version.as_str())
    }
}

/// The line that sets `JAVA_HOME` in a shell's configuration.
pub open spec fn java_home_line(shell: Shell) -> Seq<char> {
    match shell {
        Shell::Fish => "set -x JAVA_HOME /Library/Java/JavaVirtualMachines/zulu-11.jdk/Contents/Home"@,
        _ => "export JAVA_HOME=\"/Library/Java/JavaVirtualMachines/zulu-11.jdk/Contents/Home\""@,
    }
}

impl Java11 {
    pub fn java_home_line(shell: Shell) -> (r: &'static str)
        ensures
            r@ == java_home_line(shell),
    {
        match shell {
            Shell::Fish => "set -x JAVA_HOME /Library/Java/JavaVirtualMachines/zulu-11.jdk/Contents/Home",
            _ => "export JAVA_HOME=\"/Library/Java/JavaVirtualMachines/zulu-11.jdk/Contents/Home\"",
        }
    }
}

/// Package lists read from a space-separated string.
pub trait Tools {
    fn brew(&self) -> Homebrew;

    fn pnpm(&self) -> Pnpm;

    fn yarn(&self) -> Yarn;
}

impl Tools for String {
    fn brew(&self) -> Homebrew {
        Homebrew::Packages(self.clone())
    }

    fn pnpm(&self) -> Pnpm {
        Pnpm::Packages(self.clone())
    }

    fn yarn(&self) -> Yarn {
        Yarn::Packages(self.clone())
    }
}

} // verus!
