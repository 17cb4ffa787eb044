use siu::projects::{
    has_yaml_extension, project_source, projects_path, source_for, ProjectConfiguration,
    ProjectSource, YamlConfiguration,
};
use siu::shell::{config_with_line, holds_line, Shell};
use siu::text::{ends_with, split_on};
use siu::tools::{Chezmoi, Homebrew, Java11, Pnpm, Rbenv, Tools, Yarn};
use siu::tui::{Key, Mode, ProjectList};

#[test]
fn split_on_spaces() {
    assert_eq!(split_on("git wget jq", ' '), vec!["git", "wget", "jq"]);
    assert_eq!(split_on("git", ' '), vec!["git"]);
    assert_eq!(split_on("", ' '), vec![""]);
    assert_eq!(split_on("a  b ", ' '), vec!["a", "", "b", ""]);
    assert_eq!(split_on("é ü", ' '), vec!["é", "ü"]);
}

#[test]
fn ends_with_and_contains() {
    assert!(ends_with("dev.yaml", ".yaml"));
    assert!(!ends_with("yaml", ".yaml"));
    assert!(ends_with("x", ""));
    assert!(holds_line("a\neval x\n", "eval x"));
    assert!(!holds_line("/bin/bash", "zsh"));
    assert!(holds_line("abc", ""));
}

#[test]
fn yaml_extension() {
    assert!(has_yaml_extension("dev.yaml"));
    assert!(has_yaml_extension("dev.yml"));
    assert!(!has_yaml_extension("dev.json"));
    assert!(!has_yaml_extension("yaml"));
}

#[test]
fn selector_sources() {
    assert_eq!(source_for(true, true, "x.yaml"), ProjectSource::Url);
    assert_eq!(source_for(false, true, "x.yaml"), ProjectSource::File);
    assert_eq!(source_for(false, false, "x.yaml"), ProjectSource::Named);
    assert_eq!(source_for(false, true, "x.txt"), ProjectSource::Named);
    assert_eq!(project_source("https://example.com/dev.yaml", false), ProjectSource::Url);
    assert_eq!(project_source("./dev.yaml", true), ProjectSource::File);
    assert_eq!(project_source("dev", false), ProjectSource::Named);
}

#[test]
fn projects_directory() {
    assert_eq!(projects_path(None, "/home/me"), "/home/me/.siu/projects");
    assert_eq!(projects_path(Some("/srv/p".to_string()), "/home/me"), "/srv/p");
}

#[test]
fn shell_names_and_paths() {
    assert_eq!(Shell::Bash.name(), "bash");
    assert_eq!(Shell::Zsh.name(), "zsh");
    assert_eq!(Shell::Fish.name(), "fish");
    assert_eq!(Shell::Bash.get_config_path_str("/h"), "/h/.bash_profile");
    assert_eq!(Shell::Zsh.get_config_path_str("/h"), "/h/.zshrc");
    assert_eq!(Shell::Fish.get_config_path_str("/h"), "/h/.config/fish/config.fish");
    assert!(!Shell::Zsh.config_exists("/nonexistent-home-dir"));
}

#[test]
fn shell_from_env_value() {
    assert_eq!(Shell::from_env_value("/usr/local/bin/fish"), Shell::Fish);
    assert_eq!(Shell::from_env_value("/bin/zsh"), Shell::Zsh);
    assert_eq!(Shell::from_env_value("/bin/bash"), Shell::Bash);
    assert_eq!(Shell::from_env_value(""), Shell::Bash);
}

#[test]
fn config_line_added_once() {
    assert_eq!(config_with_line("a\n", "b"), Some("a\nb".to_string()));
    assert_eq!(config_with_line("a\nb\n", "b"), None);
    assert_eq!(config_with_line("", "x"), Some("x".to_string()));
}

#[test]
fn package_commands() {
    let brew = Homebrew::Packages("git jq".to_string());
    assert_eq!(brew.get_packages(), vec!["git", "jq"]);
    assert_eq!(brew.install_args(), vec!["install", "git", "jq"]);
    assert_eq!(brew.command_line(), "brew install git jq");
    let pnpm = Pnpm::Packages("typescript".to_string());
    assert_eq!(pnpm.get_packages(), vec!["typescript"]);
    assert_eq!(pnpm.install_args(), vec!["install", "--global", "typescript"]);
    assert_eq!(pnpm.command_line(), "pnpm install --global typescript");
    let yarn = Yarn::Packages("a b".to_string());
    assert_eq!(yarn.get_packages(), vec!["a", "b"]);
    assert_eq!(yarn.install_args(), vec!["global", "add", "a", "b"]);
    assert_eq!(yarn.command_line(), "yarn global add a b");
}

#[test]
fn string_package_lists() {
    let s = "git jq".to_string();
    assert_eq!(s.brew().install_args(), vec!["install", "git", "jq"]);
    assert_eq!(s.pnpm().get_packages(), vec!["git", "jq"]);
    assert_eq!(s.yarn().command_line(), "yarn global add git jq");
}

#[test]
fn chezmoi_commands() {
    let plain = Chezmoi { repo: "me/dots".to_string(), apply: None };
    assert_eq!(plain.get_repo_url(), "git@github.com/me/dots.git");
    assert_eq!(plain.init_args(), vec!["init", "git@github.com/me/dots.git"]);
    assert_eq!(plain.command_line(), "chezmoi init git@github.com/me/dots.git");
    let apply = Chezmoi { repo: "me/dots".to_string(), apply: Some(true) };
    assert_eq!(apply.init_args(), vec!["init", "--apply", "git@github.com/me/dots.git"]);
    assert_eq!(apply.command_line(), "chezmoi init --apply git@github.com/me/dots.git");
    let no = Chezmoi { repo: "me/dots".to_string(), apply: Some(false) };
    assert_eq!(no.init_args(), vec!["init", "git@github.com/me/dots.git"]);
}

#[test]
fn rbenv_commands() {
    let r = Rbenv { install: Some(true), ruby_version: "3.2.2".to_string(), global: Some(true) };
    assert!(r.sets_up_rbenv(0));
    assert!(!r.sets_up_rbenv(1));
    assert_eq!(r.install_args(), vec!["install", "3.2.2"]);
    assert_eq!(r.global_args(), Some(vec!["global".to_string(), "3.2.2".to_string()]));
    assert_eq!(r.command_line(), "rbenv install 3.2.2");
    let q = Rbenv { install: None, ruby_version: "3.1".to_string(), global: Some(false) };
    assert!(!q.sets_up_rbenv(0));
    assert_eq!(q.global_args(), None);
    assert_eq!(Rbenv::shell_init_line(Shell::Zsh), "eval \"$(rbenv init - zsh)\"");
    assert_eq!(
        Rbenv::shell_init_line(Shell::Fish),
        "status --is-interactive; and rbenv init - fish | source"
    );
}

#[test]
fn java_home_lines() {
    assert_eq!(
        Java11::java_home_line(Shell::Fish),
        "set -x JAVA_HOME /Library/Java/JavaVirtualMachines/zulu-11.jdk/Contents/Home"
    );
    assert_eq!(
        Java11::java_home_line(Shell::Bash),
        "export JAVA_HOME=\"/Library/Java/JavaVirtualMachines/zulu-11.jdk/Contents/Home\""
    );
}

fn named(name: &str) -> ProjectConfiguration {
    ProjectConfiguration {
        options: YamlConfiguration {
            name: name.to_string(),
            description: String::new(),
            steps: Vec::new(),
        },
        path: Some(format!("{}.yaml", name)),
        url: None,
    }
}

#[test]
fn picker_wraps_around() {
    let mut list = ProjectList::new(vec![named("a"), named("b"), named("c")]);
    assert_eq!(list.selected, None);
    list.next();
    assert_eq!(list.selected, Some(0));
    list.previous();
    assert_eq!(list.selected, Some(2));
    list.next();
    assert_eq!(list.selected, Some(0));
    list.next();
    list.next();
    assert_eq!(list.get_selected().map(|p| p.options.name.clone()), Some("c".to_string()));
}

#[test]
fn picker_on_empty_list_selects_nothing() {
    let mut list = ProjectList::new(Vec::new());
    list.next();
    assert_eq!(list.selected, None);
    list.previous();
    assert_eq!(list.selected, None);
    assert!(list.get_selected().is_none());
}

#[test]
fn picker_keys() {
    let mut list = ProjectList::new(vec![named("a"), named("b")]);
    assert!(!list.on_key(Key::Enter));
    assert_eq!(list.mode, Mode::Normal);
    assert!(!list.on_key(Key::Down));
    assert!(!list.on_key(Key::Down));
    assert_eq!(list.selected, Some(1));
    assert!(!list.on_key(Key::Enter));
    assert_eq!(list.mode, Mode::SettingUp);
    assert!(!list.on_key(Key::Up));
    assert_eq!(list.selected, Some(1));
    assert!(list.on_key(Key::Quit));
}
