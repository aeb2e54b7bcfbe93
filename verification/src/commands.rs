use crate::changes::texts_of;
use crate::error::message_of;
use crate::error::quote;
use crate::error::quoted;
use crate::error::ErrorView;
use crate::error::StoreError;
use crate::identity::GitUser;
use crate::identity::IdentityView;
use crate::model::add_outcome;
use crate::model::after_add;
use crate::model::after_remove;
use crate::model::after_select;
use crate::model::remove_outcome;
use crate::model::select_outcome;
use crate::model::status_outcome;
use crate::model::StoreView;
use crate::rules::flag_outcome;
use crate::rules::user_outcome;
use crate::store::add_user;
use crate::store::list_users;
use crate::store::remove_user;
use crate::store::select_user;
use crate::store::status;
use crate::store::written_through;
use crate::store::IdentityStore;
use crate::tables::views_of;
use vstd::prelude::*;
use vstd::string::StringExecFns;

verus! {

/// The commands of the command line, one for each operation of the store.
#[derive(Debug, PartialEq, Eq)]
pub enum CliCommands {
    /// list configured users
    List,
    /// show current user selected
    Status,
    /// Remove user
    Remove { name: String },
    /// add new user
    Add { name: String, email: String },
    /// select user
    Select { name: String },
}

/// The command line: the command to run.
#[derive(Debug, PartialEq, Eq)]
pub struct Cli {
    pub command: CliCommands,
}

/// The mathematical value of a report.
pub struct ReportView {
    pub lines: Seq<Seq<char>>,
    pub failed: bool,
}

/// What a command leaves to tell the user: the lines to print, and whether the
/// operation failed.
#[derive(Debug, PartialEq, Eq)]
pub struct Report {
    pub lines: Vec<String>,
    pub failed: bool,
}

impl View for Report {
    type V = ReportView;

    open spec fn view(&self) -> ReportView {
        ReportView { lines: texts_of(self.lines@), failed: self.failed }
    }
}

/// How a command ended.
#[derive(Debug, PartialEq, Eq)]
pub enum Outcome {
    /// The command is done; this is what to tell the user.
    Finished(Report),
    /// The identity was selected and the selection is stored; it is still to
    /// be brought into the external configuration.
    Sync(GitUser),
}

/// The report of a success, with one line.
pub open spec fn success_of(line: Seq<char>) -> ReportView {
    ReportView { lines: seq![line], failed: false }
}

/// The report of the failure `error`.
pub open spec fn failure_of(error: ErrorView) -> ReportView {
    ReportView { lines: seq![message_of(error)], failed: true }
}

/// The report that lists `users`: a heading, then one line for each.
pub open spec fn listing_of(users: Seq<IdentityView>) -> ReportView {
    ReportView {
        lines: seq!["Users:"@] + Seq::new(users.len(), |i: int| "- "@ + users[i].label()),
        failed: false,
    }
}

/// The report of an identity that was added, or of the failure to add it.
pub open spec fn added_of(got: Result<IdentityView, ErrorView>) -> ReportView {
    match got {
        Ok(user) => success_of("User added: "@ + user.label()),
        Err(e) => failure_of(e),
    }
}

/// The report of the selected identity, or of the failure to find it.
pub open spec fn shown_of(got: Result<IdentityView, ErrorView>) -> ReportView {
    match got {
        Ok(user) => success_of("user Selected: "@ + user.label()),
        Err(e) => failure_of(e),
    }
}

/// The report of the identity `name` that was removed, or of the failure to
/// remove it.
pub open spec fn removed_of(name: Seq<char>, got: Result<bool, ErrorView>) -> ReportView {
    match got {
        Ok(true) => success_of(quoted("User "@, name, " removed; the selection was cleared."@)),
        Ok(false) => success_of(quoted("User "@, name, " removed."@)),
        Err(e) => failure_of(e),
    }
}

/// The report of the identity `name` that was selected, once the external
/// configuration was updated or failed to be.
pub open spec fn selected_of(name: Seq<char>, synced: Result<(), ErrorView>) -> ReportView {
    match synced {
        Ok(()) => success_of(quoted("User "@, name, " selected and git config updated."@)),
        Err(e) => failure_of(e),
    }
}

/// The view of the outcome of a synchronisation.
pub open spec fn sync_outcome(synced: Result<(), StoreError>) -> Result<(), ErrorView> {
    match synced {
        Ok(()) => Ok(()),
        Err(e) => Err(e@),
    }
}

/// Whether `out` ends the command with the report `report`.
pub open spec fn finished_with(out: Outcome, report: ReportView) -> bool {
    out matches Outcome::Finished(told) && told@ == report
}

/// Whether `out` hands the identity `user` over to be synchronised.
pub open spec fn hands_over(out: Outcome, user: IdentityView) -> bool {
    out matches Outcome::Sync(selected) && selected@ == user
}

/// Whether `out` and the store `post` are what running `command` on the store
/// `pre` leaves behind.
pub open spec fn runs(command: CliCommands, pre: StoreView, post: StoreView, out: Outcome) -> bool {
    match command {
        CliCommands::List => post == pre && finished_with(out, listing_of(pre.users)),
        CliCommands::Status => post == pre && finished_with(out, shown_of(status_outcome(pre))),
        CliCommands::Add { name, email } => exists|got: Result<IdentityView, ErrorView>|
            #[trigger] written_through(
                got,
                post,
                add_outcome(pre, name@, email@),
                pre,
                after_add(pre, name@, email@),
            ) && finished_with(out, added_of(got)),
        CliCommands::Remove { name } => exists|got: Result<bool, ErrorView>|
            #[trigger] written_through(
                got,
                post,
                remove_outcome(pre, name@),
                pre,
                after_remove(pre, name@),
            ) && finished_with(out, removed_of(name@, got)),
        CliCommands::Select { name } => exists|got: Result<IdentityView, ErrorView>|
            #[trigger] written_through(
                got,
                post,
                select_outcome(pre, name@),
                pre,
                after_select(pre, name@),
            ) && match got {
                Ok(user) => hands_over(out, user),
                Err(e) => finished_with(out, failure_of(e)),
            },
    }
}

impl Report {
    /// The report of a success, with one line.
    pub fn success(line: String) -> (report: Report)
        ensures
            report@ == success_of(line@),
    {
        let mut lines: Vec<String> = Vec::new();
        lines.push(line);
        let report = Report { lines, failed: false };
        assert(report@.lines =~= seq![line@]);
        report
    }

    /// The report of the failure `error`.
    pub fn failure(error: &StoreError) -> (report: Report)
        ensures
            report@ == failure_of(error@),
    {
        let mut lines: Vec<String> = Vec::new();
        lines.push(error.message());
        let report = Report { lines, failed: true };
        assert(report@.lines =~= seq![message_of(error@)]);
        report
    }

    /// The status that the process exits with: zero for a success, one for a
    /// failure.
    pub fn exit_code(&self) -> (code: u8)
        ensures
            code == (if self.failed { 1u8 } else { 0u8 }),
    {
        if self.failed {
            1
        } else {
            0
        }
    }
}

/// The report that lists `users`.
pub fn report_list(users: &Vec<GitUser>) -> (report: Report)
    ensures
        report@ == listing_of(views_of(users@)),
{
    let mut lines: Vec<String> = Vec::new();
    lines.push("Users:".to_owned());
    let mut i: usize = 0;
    while i < users.len()
        invariant
            i <= users.len(),
            lines.len() == i + 1,
            lines[0]@ == "Users:"@,
            forall|j: int| 0 <= j < i ==> (#[trigger] lines[j + 1])@ == "- "@ + users[j]@.label(),
        decreases users.len() - i,
    {
        let label = users[i].to_string();
        lines.push("- ".to_owned().concat(label.as_str()));
        i += 1;
    }
    let report = Report { lines, failed: false };
    proof {
        let want = listing_of(views_of(users@)).lines;
        assert forall|k: int| 0 <= k < want.len() implies report@.lines[k] == want[k] by {
            if k > 0 {
                assert(lines[(k - 1) + 1]@ == "- "@ + users[k - 1]@.label());
            }
        }
        assert(report@.lines =~= want);
    }
    report
}

/// The report of an identity that was added, or of the failure to add it.
pub fn report_add(got: &Result<GitUser, StoreError>) -> (report: Report)
    ensures
        report@ == added_of(user_outcome(*got)),
{
    match got {
        Ok(user) => Report::success("User added: ".to_owned().concat(user.to_string().as_str())),
        Err(e) => Report::failure(e),
    }
}

/// The report of the selected identity, or of the failure to find it.
pub fn report_status(got: &Result<GitUser, StoreError>) -> (report: Report)
    ensures
        report@ == shown_of(user_outcome(*got)),
{
    match got {
        Ok(user) => Report::success("user Selected: ".to_owned().concat(user.to_string().as_str())),
        Err(e) => Report::failure(e),
    }
}

/// The report of the identity `name` that was removed, or of the failure to
/// remove it.
pub fn report_remove(name: &str, got: &Result<bool, StoreError>) -> (report: Report)
    ensures
        report@ == removed_of(name@, flag_outcome(*got)),
{
    match got {
        Ok(true) => Report::success(quote("User ", name, " removed; the selection was cleared.")),
        Ok(false) => Report::success(quote("User ", name, " removed.")),
        Err(e) => Report::failure(e),
    }
}

/// The report of the identity `name` that was selected, once the external
/// configuration was updated or failed to be. The selection is stored either
/// way.
pub fn report_select(name: &str, synced: &Result<(), StoreError>) -> (report: Report)
    ensures
        report@ == selected_of(name@, sync_outcome(*synced)),
{
    match synced {
        Ok(()) => Report::success(quote("User ", name, " selected and git config updated.")),
        Err(e) => Report::failure(e),
    }
}

/// Runs the command of `cli` on `store`: each command is one operation of the
/// store. A selection ends in `Outcome::Sync`, with the identity that the
/// caller brings into the external configuration before it reports with
/// `report_select`; every other command ends with its report.
pub fn run(store: &mut IdentityStore, cli: &Cli) -> (out: Outcome)
    ensures
        final(store)@.wf(),
        runs(cli.command, old(store)@, final(store)@, out),
{
    match &cli.command {
        CliCommands::List => {
            let users = list_users(store);
            Outcome::Finished(report_list(&users))
        },
        CliCommands::Status => {
            let got = status(store);
            Outcome::Finished(report_status(&got))
        },
        CliCommands::Add { name, email } => {
            let got = add_user(store, name.as_str(), email.as_str());
            let out = Outcome::Finished(report_add(&got));
            assert(written_through(
                user_outcome(got),
                store@,
                add_outcome(old(store)@, name@, email@),
                old(store)@,
                after_add(old(store)@, name@, email@),
            ));
            out
        },
        CliCommands::Remove { name } => {
            let got = remove_user(store, name.as_str());
            let out = Outcome::Finished(report_remove(name.as_str(), &got));
            assert(written_through(
                flag_outcome(got),
                store@,
                remove_outcome(old(store)@, name@),
                old(store)@,
                after_remove(old(store)@, name@),
            ));
            out
        },
        CliCommands::Select { name } => {
            let got = select_user(store, name.as_str());
            assert(written_through(
                user_outcome(got),
                store@,
                select_outcome(old(store)@, name@),
                old(store)@,
                after_select(old(store)@, name@),
            ));
            match got {
                Ok(user) => Outcome::Sync(user),
                Err(e) => Outcome::Finished(Report::failure(&e)),
            }
        },
    }
}

} // verus!
