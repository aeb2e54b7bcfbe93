use gitru::commands::report_add;
use gitru::commands::report_list;
use gitru::commands::report_remove;
use gitru::commands::report_select;
use gitru::commands::report_status;
use gitru::commands::run;
use gitru::commands::Cli;
use gitru::commands::CliCommands;
use gitru::commands::Outcome;
use gitru::commands::Report;
use gitru::error::StoreError;
use gitru::error::SyncHalf;
use gitru::identity::GitUser;
use gitru::store::create_connection;
use gitru::store::status;

fn user(name: &str, email: &str) -> GitUser {
    GitUser { name: name.to_string(), email: email.to_string() }
}

fn told(lines: &[&str], failed: bool) -> Outcome {
    Outcome::Finished(Report { lines: lines.iter().map(|line| line.to_string()).collect(), failed })
}

fn add(name: &str, email: &str) -> Cli {
    Cli { command: CliCommands::Add { name: name.to_string(), email: email.to_string() } }
}

#[test]
fn each_command_runs_its_operation() {
    let mut store = create_connection(":memory:").unwrap();
    assert_eq!(run(&mut store, &Cli { command: CliCommands::List }), told(&["Users:"], false));
    assert_eq!(
        run(&mut store, &Cli { command: CliCommands::Status }),
        told(&["No user currently selected."], true)
    );
    assert_eq!(run(&mut store, &add("a", "x@x")), told(&["User added: a <x@x>"], false));
    assert_eq!(run(&mut store, &add("b", "y@y")), told(&["User added: b <y@y>"], false));
    assert_eq!(run(&mut store, &add("a", "z@z")), told(&["User 'a' already exists."], true));
    assert_eq!(run(&mut store, &add("", "z@z")), told(&["Name and email must not be empty."], true));
    assert_eq!(
        run(&mut store, &Cli { command: CliCommands::List }),
        told(&["Users:", "- a <x@x>", "- b <y@y>"], false)
    );
    assert_eq!(
        run(&mut store, &Cli { command: CliCommands::Select { name: "b".to_string() } }),
        Outcome::Sync(user("b", "y@y"))
    );
    assert_eq!(
        run(&mut store, &Cli { command: CliCommands::Status }),
        told(&["user Selected: b <y@y>"], false)
    );
    assert_eq!(
        run(&mut store, &Cli { command: CliCommands::Select { name: "c".to_string() } }),
        told(&["User 'c' not found."], true)
    );
    assert_eq!(
        run(&mut store, &Cli { command: CliCommands::Remove { name: "a".to_string() } }),
        told(&["User 'a' removed."], false)
    );
    assert_eq!(
        run(&mut store, &Cli { command: CliCommands::Remove { name: "b".to_string() } }),
        told(&["User 'b' removed; the selection was cleared."], false)
    );
    assert_eq!(
        run(&mut store, &Cli { command: CliCommands::Remove { name: "b".to_string() } }),
        told(&["User 'b' not found."], true)
    );
    assert_eq!(status(&store), Err(StoreError::NoSelection));
}

#[test]
fn a_report_exits_with_zero_only_for_a_success() {
    assert_eq!(Report::success("done".to_string()).exit_code(), 0);
    assert_eq!(Report::failure(&StoreError::NoSelection).exit_code(), 1);
    assert_eq!(Report::success("done".to_string()).lines, vec!["done".to_string()]);
    assert!(!Report::success("done".to_string()).failed);
    assert!(Report::failure(&StoreError::NoSelection).failed);
}

#[test]
fn reports_of_the_operations() {
    assert_eq!(report_list(&vec![]).lines, vec!["Users:".to_string()]);
    assert_eq!(
        report_list(&vec![user("a", "x@x")]).lines,
        vec!["Users:".to_string(), "- a <x@x>".to_string()]
    );
    assert_eq!(report_add(&Ok(user("a", "x@x"))).lines, vec!["User added: a <x@x>".to_string()]);
    assert!(report_add(&Err(StoreError::InvalidArgument)).failed);
    assert_eq!(
        report_status(&Ok(user("a", "x@x"))).lines,
        vec!["user Selected: a <x@x>".to_string()]
    );
    assert_eq!(
        report_status(&Err(StoreError::DanglingSelection("a".to_string()))).lines,
        vec!["Error: Selected user 'a' not found in users table.".to_string()]
    );
    assert_eq!(report_remove("a", &Ok(false)).lines, vec!["User 'a' removed.".to_string()]);
    assert_eq!(
        report_remove("a", &Ok(true)).lines,
        vec!["User 'a' removed; the selection was cleared.".to_string()]
    );
    assert_eq!(
        report_remove("a", &Err(StoreError::NotFound("a".to_string()))),
        Report { lines: vec!["User 'a' not found.".to_string()], failed: true }
    );
    assert_eq!(
        report_select("a", &Ok(())),
        Report { lines: vec!["User 'a' selected and git config updated.".to_string()], failed: false }
    );
    assert_eq!(
        report_select("a", &Err(StoreError::SyncFailed(SyncHalf::Name))),
        Report { lines: vec!["Git config update failed for user.name.".to_string()], failed: true }
    );
}
