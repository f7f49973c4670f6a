//! Keeping plugins up to date from the repository that their manifest names.
//!
//! The host runs the commands and touches the disk. After each step it
//! reports how the step went and is told what comes next.

use crate::plugin_manager::{DirEntry, DirEntryView, ManifestFile, ManifestView};
use crate::text::{contains, contains_text};
use crate::xml::{
    element_text, event_views, read_events, text_of, through_terminal, xml_events, XmlEvent,
    XmlEventView,
};
use vstd::prelude::*;
use vstd::string::*;

verus! {

/// What the host found where the active store should be.
#[derive(Debug)]
pub enum UpdateSource {
    /// The configuration root is not known; the text says why.
    NoConfig(String),
    /// The entries directly under the active store; none where it could
    /// not be listed.
    Listing(Vec<DirEntry>),
}

/// An update source as plain values.
pub enum UpdateSourceView {
    NoConfig(Seq<char>),
    Listing(Seq<DirEntryView>),
}

impl View for UpdateSource {
    type V = UpdateSourceView;

    open spec fn view(&self) -> UpdateSourceView {
        match self {
            UpdateSource::NoConfig(cause) => UpdateSourceView::NoConfig(cause@),
            UpdateSource::Listing(entries) => UpdateSourceView::Listing(
                entries@.map_values(|e: DirEntry| e@),
            ),
        }
    }
}

/// An update that is due: the plugin and the address of its repository.
#[derive(Debug)]
pub struct UpdateJob {
    pub plugin: String,
    pub url: String,
}

/// An update as plain values.
pub struct UpdateJobView {
    pub plugin: Seq<char>,
    pub url: Seq<char>,
}

impl View for UpdateJob {
    type V = UpdateJobView;

    open spec fn view(&self) -> UpdateJobView {
        UpdateJobView { plugin: self.plugin@, url: self.url@ }
    }
}

/// One step of an update, each a command or a change on disk.
#[derive(Clone, Copy, Debug, PartialEq, Eq, Structural)]
pub enum UpdateStep {
    /// `git remote update` in the plugin's directory.
    RemoteUpdate,
    /// `git clone` of the repository into a temporary directory.
    CloneFresh,
    /// Removal of the plugin's directory tree.
    RemoveOld,
    /// Move of the fresh clone to the plugin's place.
    MoveNew,
    /// `git status -uno` in the plugin's directory.
    Status,
    /// `git pull origin main` in the plugin's directory.
    Pull,
}

/// How a step went.
#[derive(Debug)]
pub enum StepOutcome {
    /// The step could not be carried out; the text says why.
    Failed(String),
    /// The step ran to its end. A command reports whether it exited with
    /// success and what it printed.
    Finished { success: bool, output: String },
}

/// The address of the repository that a manifest's events name, if any.
pub open spec fn update_url_of(events: Seq<XmlEventView>) -> Option<Seq<char>> {
    element_text(events, "update"@)
}

/// The updates that are due among the entries of the active store, in their
/// order, and the failure that ended the search, if any. A directory whose
/// manifest names a repository is due; one whose manifest cannot be read
/// ends the search, and what follows it is not looked at.
pub open spec fn plan_of(entries: Seq<DirEntryView>) -> (Seq<UpdateJobView>, Option<Seq<char>>)
    decreases entries.len(),
{
    if entries.len() == 0 {
        (Seq::empty(), None)
    } else {
        let (jobs, failure) = plan_of(entries.drop_last());
        let entry = entries.last();
        if failure is Some || !entry.is_dir {
            (jobs, failure)
        } else {
            match entry.manifest {
                ManifestView::Missing => (jobs, None),
                ManifestView::Unreadable(cause) => (
                    jobs,
                    Some("Failed to read index.xml: "@ + cause),
                ),
                ManifestView::Text(xml) => match update_url_of(through_terminal(xml_events(xml))) {
                    Some(url) => (jobs.push(UpdateJobView { plugin: entry.name, url }), None),
                    None => (jobs, None),
                },
            }
        }
    }
}

/// The updates that are due and the failure to report, given what the host
/// found. Without a configuration root nothing is due and the failure says
/// so; else the entries of the active store decide.
pub open spec fn plan_for(source: UpdateSourceView) -> (Seq<UpdateJobView>, Option<Seq<char>>) {
    match source {
        UpdateSourceView::NoConfig(cause) => (
            Seq::empty(),
            Some("Failed to get CONFIG environment variable: "@ + cause),
        ),
        UpdateSourceView::Listing(entries) => plan_of(entries),
    }
}

impl UpdateStep {
    /// What stands before the cause in the report of this step's failure.
    pub open spec fn spec_failure_prefix(self) -> Seq<char> {
        match self {
            UpdateStep::RemoteUpdate => "Failed to check for updates: "@,
            UpdateStep::CloneFresh => "Failed to clone repository: "@,
            UpdateStep::RemoveOld => "Failed to remove old plugin: "@,
            UpdateStep::MoveNew => "Failed to move new plugin version: "@,
            UpdateStep::Status => "Failed to check git status: "@,
            UpdateStep::Pull => "Failed to pull updates: "@,
        }
    }

    /// The step that follows this one after it has finished, if any. A
    /// plugin whose remote cannot be updated is cloned afresh; one whose
    /// branch is not up to date is pulled.
    pub open spec fn spec_next(self, success: bool, output: Seq<char>) -> Option<UpdateStep> {
        match self {
            UpdateStep::RemoteUpdate => if success {
                Some(UpdateStep::Status)
            } else {
                Some(UpdateStep::CloneFresh)
            },
            UpdateStep::CloneFresh => Some(UpdateStep::RemoveOld),
            UpdateStep::RemoveOld => Some(UpdateStep::MoveNew),
            UpdateStep::MoveNew => None,
            UpdateStep::Status => if contains_text(output, "Your branch is up to date"@) {
                None
            } else {
                Some(UpdateStep::Pull)
            },
            UpdateStep::Pull => None,
        }
    }

    /// What follows this step, given how it went: the next step, the end of
    /// the update, or the failure to report.
    pub open spec fn spec_after(self, outcome: StepOutcome) -> Result<Option<UpdateStep>, Seq<char>> {
        match outcome {
            StepOutcome::Failed(cause) => Err(self.spec_failure_prefix() + cause@),
            StepOutcome::Finished { success, output } => Ok(self.spec_next(success, output@)),
        }
    }

    /// The arguments of the `git` command that carries this step out, given
    /// the repository's address and the directory to clone into; none for
    /// a step that is no command.
    pub open spec fn spec_git_args(self, url: Seq<char>, clone_dir: Seq<char>) -> Option<
        Seq<Seq<char>>,
    > {
        match self {
            UpdateStep::RemoteUpdate => Some(seq!["remote"@, "update"@]),
            UpdateStep::CloneFresh => Some(seq!["clone"@, url, clone_dir]),
            UpdateStep::RemoveOld => None,
            UpdateStep::MoveNew => None,
            UpdateStep::Status => Some(seq!["status"@, "-uno"@]),
            UpdateStep::Pull => Some(seq!["pull"@, "origin"@, "main"@]),
        }
    }

    /// Whether the step's command runs in the plugin's own directory.
    pub open spec fn spec_runs_in_plugin_dir(self) -> bool {
        self == UpdateStep::RemoteUpdate || self == UpdateStep::Status || self == UpdateStep::Pull
    }

    pub fn git_args(self, url: &str, clone_dir: &str) -> (args: Option<Vec<String>>)
        ensures
            match self.spec_git_args(url@, clone_dir@) {
                Some(wanted) => args is Some && args->0@.map_values(|a: String| a@) == wanted,
                None => args is None,
            },
    {
        let mut args: Vec<String> = Vec::new();
        match self {
            UpdateStep::RemoteUpdate => {
                args.push(String::from_str("remote"));
                args.push(String::from_str("update"));
            },
            UpdateStep::CloneFresh => {
                args.push(String::from_str("clone"));
                args.push(String::from_str(url));
                args.push(String::from_str(clone_dir));
            },
            UpdateStep::RemoveOld => {
                return None;
            },
            UpdateStep::MoveNew => {
                return None;
            },
            UpdateStep::Status => {
                args.push(String::from_str("status"));
                args.push(String::from_str("-uno"));
            },
            UpdateStep::Pull => {
                args.push(String::from_str("pull"));
                args.push(String::from_str("origin"));
                args.push(String::from_str("main"));
            },
        }
        assert(args@.map_values(|a: String| a@) =~= self.spec_git_args(url@, clone_dir@)->0);
        Some(args)
    }

    #[verifier::when_used_as_spec(spec_runs_in_plugin_dir)]
    pub fn runs_in_plugin_dir(self) -> (inside: bool)
        ensures
            inside == self.spec_runs_in_plugin_dir(),
    {
        match self {
            UpdateStep::RemoteUpdate | UpdateStep::Status | UpdateStep::Pull => true,
            _ => false,
        }
    }

    pub fn failure_prefix(self) -> (prefix: &'static str)
        ensures
            prefix@ == self.spec_failure_prefix(),
    {
        match self {
            UpdateStep::RemoteUpdate => "Failed to check for updates: ",
            UpdateStep::CloneFresh => "Failed to clone repository: ",
            UpdateStep::RemoveOld => "Failed to remove old plugin: ",
            UpdateStep::MoveNew => "Failed to move new plugin version: ",
            UpdateStep::Status => "Failed to check git status: ",
            UpdateStep::Pull => "Failed to pull updates: ",
        }
    }

    /// What follows this step, given how it went.
    pub fn after(self, outcome: &StepOutcome) -> (next: Result<Option<UpdateStep>, String>)
        ensures
            match self.spec_after(*outcome) {
                Ok(step) => next == Ok::<Option<UpdateStep>, String>(step),
                Err(report) => next is Err && next->Err_0@ == report,
            },
    {
        match outcome {
            StepOutcome::Failed(cause) => Err(
                String::from_str(self.failure_prefix()).concat(cause.as_str()),
            ),
            StepOutcome::Finished { success, output } => Ok(
                match self {
                    UpdateStep::RemoteUpdate => if *success {
                        Some(UpdateStep::Status)
                    } else {
                        Some(UpdateStep::CloneFresh)
                    },
                    UpdateStep::CloneFresh => Some(UpdateStep::RemoveOld),
                    UpdateStep::RemoveOld => Some(UpdateStep::MoveNew),
                    UpdateStep::MoveNew => None,
                    UpdateStep::Status => if contains(output.as_str(), "Your branch is up to date") {
                        None
                    } else {
                        Some(UpdateStep::Pull)
                    },
                    UpdateStep::Pull => None,
                },
            ),
        }
    }
}

/// The step that an update begins with.
pub fn first_step() -> (step: UpdateStep)
    ensures
        step == UpdateStep::RemoteUpdate,
{
    UpdateStep::RemoteUpdate
}

/// The address of the repository that a manifest's events name, if any.
pub fn update_url(events: &Vec<XmlEvent>) -> (url: Option<String>)
    ensures
        url.deep_view() == update_url_of(event_views(events@)),
{
    text_of(events, "update")
}

/// Finds the updates that are due. The host carries them out in order,
/// step by step, and reports the failure, if there is one, once they are
/// done. Without a configuration root there is nothing to carry out, only
/// the failure to report.
pub fn update_plugins(source: &UpdateSource) -> (plan: (Vec<UpdateJob>, Option<String>))
    ensures
        (plan.0@.map_values(|j: UpdateJob| j@), plan.1.deep_view()) == plan_for(source@),
        plan.0@.len() == plan_for(source@).0.len(),
{
    match source {
        UpdateSource::NoConfig(cause) => {
            let jobs: Vec<UpdateJob> = Vec::new();
            assert(jobs@.map_values(|j: UpdateJob| j@) =~= Seq::empty());
            let failure = String::from_str("Failed to get CONFIG environment variable: ").concat(
                cause.as_str(),
            );
            (jobs, Some(failure))
        },
        UpdateSource::Listing(entries) => plan_entries(entries),
    }
}

/// Finds the updates that are due among the entries of the active store.
fn plan_entries(entries: &Vec<DirEntry>) -> (plan: (Vec<UpdateJob>, Option<String>))
    ensures
        (plan.0@.map_values(|j: UpdateJob| j@), plan.1.deep_view()) == plan_of(
            entries@.map_values(|e: DirEntry| e@),
        ),
        plan.0@.len() == plan_of(entries@.map_values(|e: DirEntry| e@)).0.len(),
{
    let ghost all = entries@.map_values(|e: DirEntry| e@);
    let mut jobs: Vec<UpdateJob> = Vec::new();
    let mut i: usize = 0;
    assert(all.take(0) =~= Seq::empty());
    assert(jobs@.map_values(|j: UpdateJob| j@) =~= Seq::empty());
    while i < entries.len()
        invariant
            i <= entries.len(),
            all == entries@.map_values(|e: DirEntry| e@),
            (jobs@.map_values(|j: UpdateJob| j@), None::<Seq<char>>) == plan_of(
                all.take(i as int),
            ),
        decreases entries.len() - i,
    {
        proof {
            assert(all.take(i + 1).drop_last() =~= all.take(i as int));
            assert(all.take(i + 1).last() == entries[i as int]@);
        }
        let entry = &entries[i];
        if entry.is_dir {
            match &entry.manifest {
                ManifestFile::Missing => {},
                ManifestFile::Unreadable(cause) => {
                    let failure = String::from_str("Failed to read index.xml: ").concat(
                        cause.as_str(),
                    );
                    proof {
                        lemma_plan_stays_failed(all, i + 1);
                    }
                    return (jobs, Some(failure));
                },
                ManifestFile::Text(xml) => {
                    let events = read_events(xml.as_str());
                    match update_url(&events) {
                        Some(url) => {
                            let ghost before = jobs@.map_values(|j: UpdateJob| j@);
                            let job = UpdateJob { plugin: entry.name.clone(), url };
                            let ghost added = job@;
                            jobs.push(job);
                            assert(jobs@.map_values(|j: UpdateJob| j@) =~= before.push(added));
                        },
                        None => {},
                    }
                },
            }
        }
        i += 1;
    }
    assert(all.take(entries.len() as int) =~= all);
    (jobs, None)
}

/// Once the search has failed, further entries change nothing.
proof fn lemma_plan_stays_failed(entries: Seq<DirEntryView>, k: int)
    requires
        0 <= k <= entries.len(),
        plan_of(entries.take(k)).1 is Some,
    ensures
        plan_of(entries) == plan_of(entries.take(k)),
    decreases entries.len() - k,
{
    if k < entries.len() {
        assert(entries.take(k + 1).drop_last() =~= entries.take(k));
        lemma_plan_stays_failed(entries, k + 1);
    } else {
        assert(entries.take(k) =~= entries);
    }
}

impl UpdateStep {
    /// An upper bound on the steps that may still follow this one.
    pub open spec fn steps_left(self) -> nat {
        match self {
            UpdateStep::RemoteUpdate => 3,
            UpdateStep::CloneFresh => 2,
            UpdateStep::RemoveOld => 1,
            UpdateStep::MoveNew => 0,
            UpdateStep::Status => 1,
            UpdateStep::Pull => 0,
        }
    }
}

/// Every update ends: each step leaves fewer steps to follow.
pub proof fn lemma_update_ends(step: UpdateStep, success: bool, output: Seq<char>)
    ensures
        step.spec_next(success, output) is Some ==> step.spec_next(success, output)->0.steps_left()
            < step.steps_left(),
{
}

} // verus!
