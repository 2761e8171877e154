use systemd_locator::command::{
    complete_slash_command_argument, index_docs, launch_command, run_slash_command,
    suggest_docs_packages, LaunchCommand,
};
use systemd_locator::layout::version_dir;
use systemd_locator::prune::{plan_prune, Entry, PrunePlan};

fn named(name: &str) -> Entry {
    Entry::Named(name.to_string())
}

#[test]
fn prune_removes_old_version_and_keeps_new() {
    let entries = vec![named(&version_dir("V1")), named(&version_dir("V2"))];
    let plan = plan_prune(&entries, &version_dir("V2"));
    assert_eq!(plan, PrunePlan { remove: vec![0], failure: None });
    let entries = vec![named(&version_dir("V2")), named(&version_dir("V1"))];
    let plan = plan_prune(&entries, &version_dir("V2"));
    assert_eq!(plan, PrunePlan { remove: vec![1], failure: None });
}

#[test]
fn prune_removes_everything_but_the_kept_directory() {
    let entries = vec![
        named("systemd-language-server-v1"),
        named("notes.txt"),
        Entry::Unnamed,
        named("systemd-language-server-v3"),
        named("systemd-language-server-v2"),
    ];
    let plan = plan_prune(&entries, "systemd-language-server-v3");
    assert_eq!(plan, PrunePlan { remove: vec![0, 1, 2, 4], failure: None });
}

#[test]
fn prune_of_empty_listing() {
    let plan = plan_prune(&Vec::new(), "systemd-language-server-v3");
    assert_eq!(plan, PrunePlan { remove: vec![], failure: None });
}

#[test]
fn prune_stops_at_unreadable_entry() {
    let entries = vec![
        named("old"),
        named("keep"),
        Entry::Unreadable("input/output error".to_string()),
        named("older"),
        Entry::Unreadable("second".to_string()),
    ];
    let plan = plan_prune(&entries, "keep");
    assert_eq!(
        plan,
        PrunePlan {
            remove: vec![0],
            failure: Some("failed to load directory entry input/output error".to_string()),
        }
    );
}

#[test]
fn launch_command_sets_path_to_the_binary_itself() {
    let command = launch_command("language-server/x/systemd-language-server".to_string());
    assert_eq!(
        command,
        LaunchCommand {
            command: "language-server/x/systemd-language-server".to_string(),
            args: vec![],
            env: vec![(
                "PATH".to_string(),
                "language-server/x/systemd-language-server".to_string()
            )],
        }
    );
}

#[test]
fn declined_capabilities() {
    assert_eq!(complete_slash_command_argument(&vec!["a".to_string()]), Ok(vec![]));
    assert_eq!(
        run_slash_command(&vec![]),
        Err("`run_slash_command` not implemented".to_string())
    );
    assert_eq!(suggest_docs_packages("provider"), Ok(vec![]));
    assert_eq!(index_docs("provider", "package"), Err("`index_docs` not implemented".to_string()));
}
