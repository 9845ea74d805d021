use git_automate::config::Config;
use git_automate::message::{compose_message, generate_commit_message};
use git_automate::ops::{
    add_verdict, branch_name, changes_found, commit_verdict, create_branch_verdict,
    delete_branch_verdict, pull_verdict, push_verdict, repository_found, switch_branch_verdict,
    Action, GitOps,
};
use git_automate::outcome::{join, settle, CommandResult, Failure, Outcome};
use git_automate::request::{clone_texts, GitRequest};
use git_automate::text::trim;
use git_automate::workflow::status_lines;

fn strings(items: &[&str]) -> Vec<String> {
    items.iter().map(|s| s.to_string()).collect()
}

fn exited(success: bool, stdout: &str, stderr: &str) -> Outcome {
    Outcome::Exited(CommandResult {
        success,
        stdout: stdout.to_string(),
        stderr: stderr.to_string(),
    })
}

fn not_launched(reason: &str) -> Outcome {
    Outcome::NotLaunched { reason: reason.to_string() }
}

#[test]
fn argument_lists_of_the_queries() {
    assert_eq!(GitRequest::CheckRepo.args(), strings(&["rev-parse", "--is-inside-work-tree"]));
    assert_eq!(
        GitRequest::CurrentBranch.args(),
        strings(&["rev-parse", "--abbrev-ref", "HEAD"])
    );
    assert_eq!(GitRequest::Changes.args(), strings(&["status", "--porcelain"]));
}

#[test]
fn argument_lists_of_the_changing_requests() {
    let pull = GitRequest::Pull { remote: String::from("origin") };
    assert_eq!(pull.args(), strings(&["pull", "origin"]));
    let add = GitRequest::Add { paths: strings(&["a.txt", "dir/b c"]) };
    assert_eq!(add.args(), strings(&["add", "a.txt", "dir/b c"]));
    let add_nothing = GitRequest::Add { paths: Vec::new() };
    assert_eq!(add_nothing.args(), strings(&["add"]));
    let commit = GitRequest::Commit { message: String::from("fix: a thing") };
    assert_eq!(commit.args(), strings(&["commit", "-m", "fix: a thing"]));
    let push = GitRequest::Push { remote: String::from("origin"), branch: String::from("main") };
    assert_eq!(push.args(), strings(&["push", "origin", "main"]));
    let create = GitRequest::CreateBranch { name: String::from("topic") };
    assert_eq!(create.args(), strings(&["checkout", "-b", "topic"]));
    let switch = GitRequest::SwitchBranch { name: String::from("topic") };
    assert_eq!(switch.args(), strings(&["checkout", "topic"]));
    let delete = GitRequest::DeleteBranch { name: String::from("topic") };
    assert_eq!(delete.args(), strings(&["branch", "-d", "topic"]));
}

#[test]
fn only_the_queries_leave_the_repository_alone() {
    assert!(!GitRequest::CheckRepo.mutates());
    assert!(!GitRequest::CurrentBranch.mutates());
    assert!(!GitRequest::Changes.mutates());
    assert!(GitRequest::Pull { remote: String::new() }.mutates());
    assert!(GitRequest::Add { paths: Vec::new() }.mutates());
    assert!(GitRequest::Commit { message: String::new() }.mutates());
    assert!(GitRequest::Push { remote: String::new(), branch: String::new() }.mutates());
    assert!(GitRequest::CreateBranch { name: String::new() }.mutates());
    assert!(GitRequest::SwitchBranch { name: String::new() }.mutates());
    assert!(GitRequest::DeleteBranch { name: String::new() }.mutates());
}

#[test]
fn clone_texts_copies_every_item() {
    let items = strings(&["one", "", "three"]);
    assert_eq!(clone_texts(&items), items);
    assert_eq!(clone_texts(&Vec::new()), Vec::<String>::new());
}

#[test]
fn a_dry_run_announces_what_changes_and_launches_queries() {
    let ops = GitOps::new(Config::default(), true);
    assert!(ops.dry_run);
    assert_eq!(
        ops.pull(),
        Action::Announce(GitRequest::Pull { remote: String::from("origin") })
    );
    assert_eq!(
        ops.add_files(&strings(&["."])),
        Action::Announce(GitRequest::Add { paths: strings(&["."]) })
    );
    assert_eq!(
        ops.commit("msg"),
        Action::Announce(GitRequest::Commit { message: String::from("msg") })
    );
    assert_eq!(
        ops.push("main"),
        Action::Announce(GitRequest::Push {
            remote: String::from("origin"),
            branch: String::from("main"),
        })
    );
    assert_eq!(
        ops.create_branch("b"),
        Action::Announce(GitRequest::CreateBranch { name: String::from("b") })
    );
    assert_eq!(
        ops.switch_branch("b"),
        Action::Announce(GitRequest::SwitchBranch { name: String::from("b") })
    );
    assert_eq!(
        ops.delete_branch("b"),
        Action::Announce(GitRequest::DeleteBranch { name: String::from("b") })
    );
    assert_eq!(ops.check_git_repo(), Action::Launch(GitRequest::CheckRepo));
    assert_eq!(ops.get_current_branch(), Action::Launch(GitRequest::CurrentBranch));
    assert_eq!(ops.has_changes(), Action::Launch(GitRequest::Changes));
}

#[test]
fn outside_a_dry_run_everything_is_launched() {
    let config = Config {
        default_remote: String::from("upstream"),
        commit_template: String::from("feat: {}"),
        auto_pull: true,
    };
    let ops = GitOps::new(config, false);
    assert_eq!(
        ops.pull(),
        Action::Launch(GitRequest::Pull { remote: String::from("upstream") })
    );
    assert_eq!(
        ops.push("dev"),
        Action::Launch(GitRequest::Push {
            remote: String::from("upstream"),
            branch: String::from("dev"),
        })
    );
    assert_eq!(
        ops.dispatch(GitRequest::Commit { message: String::from("m") }),
        Action::Launch(GitRequest::Commit { message: String::from("m") })
    );
    assert_eq!(ops.dispatch(GitRequest::Changes), Action::Launch(GitRequest::Changes));
}

#[test]
fn synthetic_success_is_success_without_output() {
    assert_eq!(
        CommandResult::synthetic(),
        CommandResult { success: true, stdout: String::new(), stderr: String::new() }
    );
    assert_eq!(Outcome::synthetic(), exited(true, "", ""));
    assert!(Outcome::synthetic().succeeded());
    assert!(!exited(false, "", "").succeeded());
    assert!(!not_launched("no such file").succeeded());
}

#[test]
fn repository_is_found_only_on_a_zero_exit() {
    assert!(repository_found(&exited(true, "true\n", "")));
    assert!(!repository_found(&exited(false, "", "fatal: not a git repository")));
    assert!(!repository_found(&not_launched("No such file or directory")));
}

#[test]
fn branch_name_is_the_trimmed_output() {
    assert_eq!(branch_name(&exited(true, "main\n", "")), Ok(String::from("main")));
    assert_eq!(
        branch_name(&exited(true, "  feature/x \r\n", "")),
        Ok(String::from("feature/x"))
    );
    assert_eq!(branch_name(&exited(true, "HEAD\n", "warning")), Ok(String::from("HEAD")));
    assert_eq!(branch_name(&exited(true, "", "")), Ok(String::new()));
    assert_eq!(
        branch_name(&not_launched("denied")),
        Err(Failure::Launch { message: String::from("Failed to get current branch: denied") })
    );
}

#[test]
fn a_failed_branch_query_is_a_failure_with_its_diagnostic() {
    let failed = exited(false, "", "fatal: ambiguous argument 'HEAD'\n");
    let result = branch_name(&failed);
    assert_eq!(
        result,
        Err(Failure::Exit {
            message: String::from(
                "Current branch query failed: fatal: ambiguous argument 'HEAD'\n"
            ),
        })
    );
    assert!(result.unwrap_err().message().contains("fatal: ambiguous argument 'HEAD'"));
    assert_eq!(
        branch_name(&exited(false, "HEAD\n", "fatal")),
        Err(Failure::Exit { message: String::from("Current branch query failed: fatal") })
    );
}

#[test]
fn changes_are_found_where_the_output_is_not_empty() {
    assert_eq!(changes_found(&exited(true, " M a.txt\n", "")), Ok(true));
    assert_eq!(changes_found(&exited(true, "", "")), Ok(false));
    assert_eq!(changes_found(&exited(true, "", "warning: x")), Ok(false));
    assert_eq!(changes_found(&exited(true, "\n", "")), Ok(true));
    assert_eq!(
        changes_found(&not_launched("denied")),
        Err(Failure::Launch { message: String::from("Failed to check git status: denied") })
    );
}

#[test]
fn a_failed_change_query_is_never_taken_for_no_changes() {
    let failed = exited(false, "", "fatal: index file corrupt\n");
    let result = changes_found(&failed);
    assert_ne!(result, Ok(false));
    assert_eq!(
        result,
        Err(Failure::Exit {
            message: String::from("Status check failed: fatal: index file corrupt\n"),
        })
    );
    assert!(result.unwrap_err().message().contains("fatal: index file corrupt"));
    assert_eq!(
        changes_found(&exited(false, " M a\n", "")),
        Err(Failure::Exit { message: String::from("Status check failed: ") })
    );
}

#[test]
fn verdicts_carry_the_captured_diagnostic() {
    let failed = exited(false, "out", "boom");
    let unlaunched = not_launched("no git");
    let exit = |text: &str| Err(Failure::Exit { message: text.to_string() });
    let launch = |text: &str| Err(Failure::Launch { message: text.to_string() });
    assert_eq!(pull_verdict(&failed), exit("Pull failed: boom"));
    assert_eq!(pull_verdict(&unlaunched), launch("Failed to pull changes: no git"));
    assert_eq!(add_verdict(&failed), exit("Add failed: boom"));
    assert_eq!(add_verdict(&unlaunched), launch("Failed to add files: no git"));
    assert_eq!(commit_verdict(&failed), exit("Commit failed: boom"));
    assert_eq!(commit_verdict(&unlaunched), launch("Failed to commit: no git"));
    assert_eq!(push_verdict(&failed), exit("Push failed: boom"));
    assert_eq!(push_verdict(&unlaunched), launch("Failed to push: no git"));
    assert_eq!(create_branch_verdict(&failed), exit("Branch creation failed: boom"));
    assert_eq!(create_branch_verdict(&unlaunched), launch("Failed to create branch: no git"));
    assert_eq!(switch_branch_verdict(&failed), exit("Branch switch failed: boom"));
    assert_eq!(switch_branch_verdict(&unlaunched), launch("Failed to switch branch: no git"));
    assert_eq!(delete_branch_verdict(&failed), exit("Branch deletion failed: boom"));
    assert_eq!(delete_branch_verdict(&unlaunched), launch("Failed to delete branch: no git"));
}

#[test]
fn verdicts_accept_a_zero_exit() {
    let fine = exited(true, "", "warning: something");
    assert_eq!(pull_verdict(&fine), Ok(()));
    assert_eq!(add_verdict(&fine), Ok(()));
    assert_eq!(commit_verdict(&fine), Ok(()));
    assert_eq!(push_verdict(&fine), Ok(()));
    assert_eq!(create_branch_verdict(&fine), Ok(()));
    assert_eq!(switch_branch_verdict(&fine), Ok(()));
    assert_eq!(delete_branch_verdict(&fine), Ok(()));
    assert_eq!(pull_verdict(&Outcome::synthetic()), Ok(()));
    assert_eq!(settle(&fine, "a", "b"), Ok(()));
    assert_eq!(
        settle(&exited(false, "", "x"), "a: ", "b: "),
        Err(Failure::Exit { message: String::from("b: x") })
    );
}

#[test]
fn failure_messages() {
    assert_eq!(Failure::NotARepository.message(), "Not in a git repository");
    assert_eq!(Failure::Launch { message: String::from("l") }.message(), "l");
    assert_eq!(Failure::Exit { message: String::from("e") }.message(), "e");
    assert_eq!(Failure::Config { message: String::from("c") }.message(), "c");
}

#[test]
fn join_appends() {
    assert_eq!(join("ab", "cd"), "abcd");
    assert_eq!(join("", ""), "");
    assert_eq!(join("x", ""), "x");
}

#[test]
fn trim_agrees_with_the_standard_library() {
    let samples = [
        "",
        " ",
        "main",
        "main\n",
        "\n\t main \r\n",
        "a b",
        "  a  b  ",
        "\u{a0}x\u{2003}",
        "\u{3000}",
        "é \u{85}",
        "x\u{200b}",
    ];
    for sample in samples {
        assert_eq!(trim(sample), sample.trim(), "on {:?}", sample);
    }
}

#[test]
fn composed_messages() {
    assert_eq!(compose_message(String::from("rusty-nail"), true), "feat: rusty-nail");
    assert_eq!(compose_message(String::from("rusty-nail"), false), "rusty-nail");
    assert_eq!(compose_message(String::new(), true), "feat: ");
    assert_eq!(compose_message(String::new(), false), "");
}

fn is_phrase(text: &str) -> bool {
    !text.is_empty()
        && text.contains('-')
        && text.chars().all(|c| c.is_ascii_lowercase() || c == '-')
}

#[test]
fn generated_messages_are_not_empty_and_take_the_prefix() {
    for _ in 0..200 {
        let plain = generate_commit_message("feat: {}", false);
        assert!(!plain.is_empty());
        assert!(is_phrase(&plain), "{:?}", plain);
        assert!(!plain.starts_with("feat: "));
        let conventional = generate_commit_message("feat: {}", true);
        assert!(conventional.starts_with("feat: "));
        assert!(is_phrase(&conventional["feat: ".len()..]), "{:?}", conventional);
    }
}

#[test]
fn every_word_of_the_generator_is_lowercase_letters_and_hyphens() {
    for list in [names::ADJECTIVES, names::NOUNS] {
        assert!(!list.is_empty());
        for word in list {
            assert!(!word.is_empty());
            assert!(word.chars().all(|c| c.is_ascii_lowercase() || c == '-'), "{:?}", word);
        }
    }
}

#[test]
fn generated_messages_leave_the_template_aside() {
    for _ in 0..20 {
        let message = generate_commit_message("chore({}): x", false);
        assert!(!message.contains("chore"));
        let message = generate_commit_message("chore({}): x", true);
        assert!(message.starts_with("feat: "));
        assert!(!message.contains("chore"));
    }
}

#[test]
fn status_lines_are_two() {
    assert_eq!(
        status_lines("main", true),
        strings(&["Current branch: main", "Has uncommitted changes: true"])
    );
    assert_eq!(
        status_lines("", false),
        strings(&["Current branch: ", "Has uncommitted changes: false"])
    );
}

#[test]
fn whitespace_is_the_listed_code_points() {
    let mut listed: Vec<u32> = Vec::new();
    listed.extend(0x9..=0xd);
    listed.extend([0x20, 0x85, 0xa0, 0x1680]);
    listed.extend(0x2000..=0x200a);
    listed.extend([0x2028, 0x2029, 0x202f, 0x205f, 0x3000]);
    assert_eq!(listed.len(), 25);
    let found: Vec<u32> = (0..=0x10ffff_u32)
        .filter(|code| char::from_u32(*code).map_or(false, |c| c.is_whitespace()))
        .collect();
    assert_eq!(found, listed);
    for code in listed {
        let c = char::from_u32(code).unwrap();
        assert_eq!(trim(&format!("{}x{}", c, c)), "x");
    }
}
