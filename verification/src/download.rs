//! The decisions of preparing the game files: which archive to fetch,
//! check, unpack or remove next, how often the game archive is retried, and
//! when the preparation has succeeded or failed. The caller performs each
//! step and reports its outcome.
use vstd::prelude::*;
use crate::text::{decimal, decimal_string};

verus! {

/// The step that the preparation asks for next.
#[derive(PartialEq, Eq, Structural, Clone, Copy, Debug)]
pub enum DownloadStep {
    /// Create the install directory.
    CreateBaseDir,
    /// Ask whether the installed Java is the one published now.
    CheckJavaCurrent,
    /// Remove the Java archive of an outdated install (outcome ignored).
    RemoveStaleJavaArchive,
    /// Ask whether the Java executable exists.
    CheckJavaExe,
    /// Ask whether the Java archive exists.
    CheckJavaArchive,
    /// Fetch the Java archive.
    DownloadJava,
    /// Check that the Java archive is a readable zip.
    ValidateJava,
    /// Unpack the Java archive into the install directory.
    ExtractJava,
    /// Record the published revision of the Java just unpacked (outcome ignored).
    RecordJavaRevision,
    /// Ask whether the installed game files are the ones published now.
    CheckGameCurrent,
    /// Ask whether both the Forge manifest and the client jar exist.
    CheckGameFiles,
    /// Ask whether the game archive exists.
    CheckVersionArchive,
    /// Remove a game archive that is outdated or left from a failed attempt
    /// (outcome ignored).
    RemoveStaleVersionArchive,
    /// Fetch the game archive.
    DownloadVersion,
    /// Check that the game archive is a readable zip.
    ValidateVersion,
    /// Remove the game archive that failed its check (outcome ignored).
    RemoveBadVersionArchive,
    /// Tell the user of the retry (outcome ignored).
    ReportRetry,
    /// Unpack the game archive into the install directory.
    ExtractVersion,
    /// Record the published revision of the game files just unpacked
    /// (outcome ignored).
    RecordVersionRevision,
    /// Ask whether the Java executable exists now.
    VerifyJava,
    /// Ask whether the Forge manifest exists now.
    VerifyForge,
    /// Tell the user that the game is ready (outcome ignored).
    ReportReady,
    /// The preparation has succeeded.
    Succeeded,
    /// The preparation has failed with the plan's error.
    Failed,
}

/// The state of a preparation: the step it asks for, the number of failed
/// checks of the game archive so far, whether the game files are being
/// replaced by newly published ones, and the error it failed with.
#[derive(Debug)]
pub struct DownloadPlan {
    pub step: DownloadStep,
    pub tries: u32,
    pub refresh_game: bool,
    pub error: String,
}

/// The abstract state of a preparation.
pub struct PlanState {
    pub step: DownloadStep,
    pub tries: nat,
    pub refresh_game: bool,
    pub error: Seq<char>,
}

impl View for DownloadPlan {
    type V = PlanState;

    open spec fn view(&self) -> PlanState {
        PlanState {
            step: self.step,
            tries: self.tries as nat,
            refresh_game: self.refresh_game,
            error: self.error@,
        }
    }
}

/// The outcome of a step as the plan sees it: for a question, `Ok` with the
/// answer; for an action, `Ok` when it succeeded and `Err` with its error
/// text when it failed.
pub open spec fn outcome_view(o: Result<bool, String>) -> Result<bool, Seq<char>> {
    match o {
        Ok(b) => Ok(b),
        Err(e) => Err(e@),
    }
}

/// What the error of a failed game archive check becomes once all attempts
/// are spent.
pub open spec fn exhausted_error(e: Seq<char>) -> Seq<char> {
    e + " (after 3 download attempts)"@
}

/// The error when the Java executable is missing after unpacking.
pub const JAVA_MISSING: &'static str = "Java not found after extraction.";
/// The error when the Forge manifest is missing after unpacking.
pub const FORGE_MISSING: &'static str = "Forge files not found. Check GITHUB_REPO_OWNER, GITHUB_REPO_NAME and GITHUB_BRANCH.";

/// The state at a step, with the same tries, refresh and error.
pub open spec fn at(s: PlanState, step: DownloadStep) -> PlanState {
    PlanState { step: step, ..s }
}

/// The state that failed with `e`.
pub open spec fn failed(s: PlanState, e: Seq<char>) -> PlanState {
    PlanState { step: DownloadStep::Failed, error: e, ..s }
}

/// The next state after the outcome `o` of the current step. An error of
/// any step but those whose outcome is ignored ends the preparation with
/// that error.
///
/// Java: an installed Java that is not the one published now is replaced:
/// its archive is removed, fetched again, checked and unpacked. Otherwise
/// the archive is fetched only where neither the executable nor the archive
/// exists, then checked and unpacked. After unpacking, the revision is
/// recorded.
///
/// Game files: where the installed ones are not the ones published now, or
/// the Forge manifest or the client jar is missing, the game archive is
/// fetched (an existing one is kept only on the first attempt of an install
/// that is not a replacement), then checked: a failed check after three
/// attempts ends the preparation, an earlier one removes the archive,
/// reports the retry and starts over. After unpacking, the revision is
/// recorded. Finally Java and the Forge manifest must exist.
pub open spec fn next_state(s: PlanState, o: Result<bool, Seq<char>>) -> PlanState {
    match s.step {
        DownloadStep::Succeeded => s,
        DownloadStep::Failed => s,
        DownloadStep::RemoveStaleJavaArchive => at(s, DownloadStep::DownloadJava),
        DownloadStep::RecordJavaRevision => at(s, DownloadStep::CheckGameCurrent),
        DownloadStep::RemoveStaleVersionArchive => at(s, DownloadStep::DownloadVersion),
        DownloadStep::RemoveBadVersionArchive => at(s, DownloadStep::ReportRetry),
        DownloadStep::ReportRetry => at(s, DownloadStep::CheckVersionArchive),
        DownloadStep::RecordVersionRevision => at(s, DownloadStep::VerifyJava),
        DownloadStep::ReportReady => at(s, DownloadStep::Succeeded),
        DownloadStep::ValidateVersion => match o {
            Ok(_) => at(s, DownloadStep::ExtractVersion),
            Err(e) => if s.tries >= 2 {
                failed(s, exhausted_error(e))
            } else {
                PlanState { step: DownloadStep::RemoveBadVersionArchive, tries: s.tries + 1, ..s }
            },
        },
        _ => match o {
            Err(e) => failed(s, e),
            Ok(b) => match s.step {
                DownloadStep::CreateBaseDir => at(s, DownloadStep::CheckJavaCurrent),
                DownloadStep::CheckJavaCurrent => if b {
                    at(s, DownloadStep::CheckJavaExe)
                } else {
                    at(s, DownloadStep::RemoveStaleJavaArchive)
                },
                DownloadStep::CheckJavaExe => if b {
                    at(s, DownloadStep::CheckGameCurrent)
                } else {
                    at(s, DownloadStep::CheckJavaArchive)
                },
                DownloadStep::CheckJavaArchive => if b {
                    at(s, DownloadStep::ValidateJava)
                } else {
                    at(s, DownloadStep::DownloadJava)
                },
                DownloadStep::DownloadJava => at(s, DownloadStep::ValidateJava),
                DownloadStep::ValidateJava => at(s, DownloadStep::ExtractJava),
                DownloadStep::ExtractJava => at(s, DownloadStep::RecordJavaRevision),
                DownloadStep::CheckGameCurrent => if b {
                    at(s, DownloadStep::CheckGameFiles)
                } else {
                    PlanState { step: DownloadStep::CheckVersionArchive, refresh_game: true, ..s }
                },
                DownloadStep::CheckGameFiles => if b {
                    at(s, DownloadStep::VerifyJava)
                } else {
                    at(s, DownloadStep::CheckVersionArchive)
                },
                DownloadStep::CheckVersionArchive => if !b {
                    at(s, DownloadStep::DownloadVersion)
                } else if s.tries > 0 || s.refresh_game {
                    at(s, DownloadStep::RemoveStaleVersionArchive)
                } else {
                    at(s, DownloadStep::ValidateVersion)
                },
                DownloadStep::DownloadVersion => at(s, DownloadStep::ValidateVersion),
                DownloadStep::ExtractVersion => at(s, DownloadStep::RecordVersionRevision),
                DownloadStep::VerifyJava => if b {
                    at(s, DownloadStep::VerifyForge)
                } else {
                    failed(s, JAVA_MISSING@)
                },
                DownloadStep::VerifyForge => if b {
                    at(s, DownloadStep::ReportReady)
                } else {
                    failed(s, FORGE_MISSING@)
                },
                _ => s,
            },
        },
    }
}

/// The state a preparation starts in.
pub open spec fn initial_state() -> PlanState {
    PlanState { step: DownloadStep::CreateBaseDir, tries: 0, refresh_game: false, error: Seq::empty() }
}

/// Whether the preparation has ended.
pub open spec fn is_finished(s: PlanState) -> bool {
    s.step == DownloadStep::Succeeded || s.step == DownloadStep::Failed
}

impl DownloadPlan {
    /// A preparation that has not begun, for the game folder `game_path`
    /// that the player picked. The install tree is fixed, so the plan is the
    /// same whatever the folder.
    pub fn new(_game_path: &str) -> (r: DownloadPlan)
        ensures
            r@ == initial_state(),
    {
        DownloadPlan {
            step: DownloadStep::CreateBaseDir,
            tries: 0,
            refresh_game: false,
            error: String::new(),
        }
    }

    /// Whether the preparation has ended.
    pub fn finished(&self) -> (r: bool)
        ensures
            r == is_finished(self@),
    {
        self.step == DownloadStep::Succeeded || self.step == DownloadStep::Failed
    }

    /// The plan after the outcome `o` of its current step.
    pub fn advance(self, o: Result<bool, String>) -> (r: DownloadPlan)
        ensures
            r@ == next_state(self@, outcome_view(o)),
    {
        let DownloadPlan { step, tries, refresh_game, error } = self;
        let keep = |next: DownloadStep| -> (p: DownloadPlan)
            ensures
                p@ == (PlanState { step: next, tries: tries as nat, refresh_game: refresh_game, error: error@ }),
        {
            DownloadPlan { step: next, tries, refresh_game, error: error.clone() }
        };
        match step {
            DownloadStep::Succeeded | DownloadStep::Failed => keep(step),
            DownloadStep::RemoveStaleJavaArchive => keep(DownloadStep::DownloadJava),
            DownloadStep::RecordJavaRevision => keep(DownloadStep::CheckGameCurrent),
            DownloadStep::RemoveStaleVersionArchive => keep(DownloadStep::DownloadVersion),
            DownloadStep::RemoveBadVersionArchive => keep(DownloadStep::ReportRetry),
            DownloadStep::ReportRetry => keep(DownloadStep::CheckVersionArchive),
            DownloadStep::RecordVersionRevision => keep(DownloadStep::VerifyJava),
            DownloadStep::ReportReady => keep(DownloadStep::Succeeded),
            DownloadStep::ValidateVersion => match o {
                Ok(_) => keep(DownloadStep::ExtractVersion),
                Err(e) => if tries >= 2 {
                    let mut msg = e;
                    msg.append(" (after 3 download attempts)");
                    DownloadPlan { step: DownloadStep::Failed, tries, refresh_game, error: msg }
                } else {
                    DownloadPlan {
                        step: DownloadStep::RemoveBadVersionArchive,
                        tries: tries + 1,
                        refresh_game,
                        error: error.clone(),
                    }
                },
            },
            _ => match o {
                Err(e) => DownloadPlan { step: DownloadStep::Failed, tries, refresh_game, error: e },
                Ok(b) => match step {
                    DownloadStep::CreateBaseDir => keep(DownloadStep::CheckJavaCurrent),
                    DownloadStep::CheckJavaCurrent => if b {
                        keep(DownloadStep::CheckJavaExe)
                    } else {
                        keep(DownloadStep::RemoveStaleJavaArchive)
                    },
                    DownloadStep::CheckJavaExe => if b {
                        keep(DownloadStep::CheckGameCurrent)
                    } else {
                        keep(DownloadStep::CheckJavaArchive)
                    },
                    DownloadStep::CheckJavaArchive => if b {
                        keep(DownloadStep::ValidateJava)
                    } else {
                        keep(DownloadStep::DownloadJava)
                    },
                    DownloadStep::DownloadJava => keep(DownloadStep::ValidateJava),
                    DownloadStep::ValidateJava => keep(DownloadStep::ExtractJava),
                    DownloadStep::ExtractJava => keep(DownloadStep::RecordJavaRevision),
                    DownloadStep::CheckGameCurrent => if b {
                        keep(DownloadStep::CheckGameFiles)
                    } else {
                        DownloadPlan {
                            step: DownloadStep::CheckVersionArchive,
                            tries,
                            refresh_game: true,
                            error: error.clone(),
                        }
                    },
                    DownloadStep::CheckGameFiles => if b {
                        keep(DownloadStep::VerifyJava)
                    } else {
                        keep(DownloadStep::CheckVersionArchive)
                    },
                    DownloadStep::CheckVersionArchive => if !b {
                        keep(DownloadStep::DownloadVersion)
                    } else if tries > 0 || refresh_game {
                        keep(DownloadStep::RemoveStaleVersionArchive)
                    } else {
                        keep(DownloadStep::ValidateVersion)
                    },
                    DownloadStep::DownloadVersion => keep(DownloadStep::ValidateVersion),
                    DownloadStep::ExtractVersion => keep(DownloadStep::RecordVersionRevision),
                    DownloadStep::VerifyJava => if b {
                        keep(DownloadStep::VerifyForge)
                    } else {
                        DownloadPlan {
                            step: DownloadStep::Failed,
                            tries,
                            refresh_game,
                            error: JAVA_MISSING.to_string(),
                        }
                    },
                    DownloadStep::VerifyForge => if b {
                        keep(DownloadStep::ReportReady)
                    } else {
                        DownloadPlan {
                            step: DownloadStep::Failed,
                            tries,
                            refresh_game,
                            error: FORGE_MISSING.to_string(),
                        }
                    },
                    _ => keep(step),
                },
            },
        }
    }
}

/// The message of a retry announced at `tries` failed checks: the number of
/// the coming attempt out of three.
pub open spec fn retry_message_spec(tries: nat) -> Seq<char> {
    "Download incomplete, retrying ("@ + decimal(tries + 1) + "/3)..."@
}

/// The message that announces the retry after `tries` failed checks.
pub fn retry_message(tries: u32) -> (r: String)
    ensures
        r@ == retry_message_spec(tries as nat),
{
    let mut r = "Download incomplete, retrying (".to_string();
    let n = decimal_string(tries as u64 + 1);
    r.append(n.as_str());
    r.append("/3)...");
    r
}

/// The states of a preparation that never spent more than three attempts.
pub open spec fn plan_wf(s: PlanState) -> bool {
    s.tries <= 2
}

/// The state after a whole sequence of outcomes.
pub open spec fn run(s: PlanState, outcomes: Seq<Result<bool, Seq<char>>>) -> PlanState
    decreases outcomes.len(),
{
    if outcomes.len() == 0 {
        s
    } else {
        run(next_state(s, outcomes[0]), outcomes.skip(1))
    }
}

/// How often a run of outcomes enters `step`.
pub open spec fn entries(s: PlanState, outcomes: Seq<Result<bool, Seq<char>>>, step: DownloadStep) -> nat
    decreases outcomes.len(),
{
    if outcomes.len() == 0 {
        0
    } else {
        let t = next_state(s, outcomes[0]);
        (if t.step == step { 1nat } else { 0nat }) + entries(t, outcomes.skip(1), step)
    }
}

/// How many more fetches of the game archive a state can lead to.
pub open spec fn version_budget(s: PlanState) -> nat {
    match s.step {
        DownloadStep::CreateBaseDir | DownloadStep::CheckJavaCurrent | DownloadStep::RemoveStaleJavaArchive
        | DownloadStep::CheckJavaExe | DownloadStep::CheckJavaArchive | DownloadStep::DownloadJava
        | DownloadStep::ValidateJava | DownloadStep::ExtractJava | DownloadStep::RecordJavaRevision
        | DownloadStep::CheckGameCurrent | DownloadStep::CheckGameFiles => 3,
        DownloadStep::CheckVersionArchive | DownloadStep::RemoveStaleVersionArchive
        | DownloadStep::RemoveBadVersionArchive | DownloadStep::ReportRetry => (3 - s.tries) as nat,
        DownloadStep::DownloadVersion | DownloadStep::ValidateVersion => (2 - s.tries) as nat,
        _ => 0,
    }
}

/// How many more fetches of the Java archive a state can lead to.
pub open spec fn java_budget(s: PlanState) -> nat {
    match s.step {
        DownloadStep::CreateBaseDir | DownloadStep::CheckJavaCurrent | DownloadStep::RemoveStaleJavaArchive
        | DownloadStep::CheckJavaExe | DownloadStep::CheckJavaArchive => 1,
        _ => 0,
    }
}

/// A measure that every step of an unfinished preparation lowers.
pub open spec fn plan_rank(s: PlanState) -> nat {
    let round = (6 + 6 * (2 - s.tries)) as nat;
    match s.step {
        DownloadStep::Succeeded | DownloadStep::Failed => 0,
        DownloadStep::ReportReady => 1,
        DownloadStep::VerifyForge => 2,
        DownloadStep::VerifyJava => 3,
        DownloadStep::RecordVersionRevision => 4,
        DownloadStep::ExtractVersion => 5,
        DownloadStep::ValidateVersion => round + 2,
        DownloadStep::DownloadVersion => round + 3,
        DownloadStep::RemoveStaleVersionArchive => round + 4,
        DownloadStep::CheckVersionArchive => round + 5,
        DownloadStep::ReportRetry => round + 6,
        DownloadStep::RemoveBadVersionArchive => round + 7,
        DownloadStep::CheckGameFiles => 30,
        DownloadStep::CheckGameCurrent => 31,
        DownloadStep::RecordJavaRevision => 32,
        DownloadStep::ExtractJava => 33,
        DownloadStep::ValidateJava => 34,
        DownloadStep::DownloadJava => 35,
        DownloadStep::RemoveStaleJavaArchive => 36,
        DownloadStep::CheckJavaArchive => 37,
        DownloadStep::CheckJavaExe => 38,
        DownloadStep::CheckJavaCurrent => 39,
        DownloadStep::CreateBaseDir => 40,
    }
}

/// The most outcomes a preparation takes before it ends.
pub open spec fn max_plan_steps() -> nat {
    40
}

/// No step of a preparation spends more than three attempts of the game
/// archive.
pub proof fn lemma_plan_wf_preserved(s: PlanState, o: Result<bool, Seq<char>>)
    requires
        plan_wf(s),
    ensures
        plan_wf(next_state(s, o)),
{
}

/// One step of a preparation enters the fetch of the game archive, or of the
/// Java archive, no more often than the budgets of the state allow.
pub proof fn lemma_budgets_step(s: PlanState, o: Result<bool, Seq<char>>)
    requires
        plan_wf(s),
    ensures
        version_budget(next_state(s, o)) + (if next_state(s, o).step == DownloadStep::DownloadVersion { 1nat } else { 0nat }) <= version_budget(s),
        java_budget(next_state(s, o)) + (if next_state(s, o).step == DownloadStep::DownloadJava { 1nat } else { 0nat }) <= java_budget(s),
{
}

/// Law: whatever the outcomes, a preparation fetches the game archive at most
/// as often as its budget allows, and the Java archive likewise.
pub proof fn lemma_run_fetches_bounded(s: PlanState, outcomes: Seq<Result<bool, Seq<char>>>)
    requires
        plan_wf(s),
    ensures
        entries(s, outcomes, DownloadStep::DownloadVersion) <= version_budget(s),
        entries(s, outcomes, DownloadStep::DownloadJava) <= java_budget(s),
    decreases outcomes.len(),
{
    if outcomes.len() > 0 {
        let t = next_state(s, outcomes[0]);
        lemma_plan_wf_preserved(s, outcomes[0]);
        lemma_budgets_step(s, outcomes[0]);
        lemma_run_fetches_bounded(t, outcomes.skip(1));
    }
}

/// Law: a preparation fetches the game archive at most three times and the
/// Java archive at most once, whatever the outcomes of its steps.
pub proof fn lemma_fetches_at_most(outcomes: Seq<Result<bool, Seq<char>>>)
    ensures
        entries(initial_state(), outcomes, DownloadStep::DownloadVersion) <= 3,
        entries(initial_state(), outcomes, DownloadStep::DownloadJava) <= 1,
{
    lemma_run_fetches_bounded(initial_state(), outcomes);
}

/// Every step of an unfinished preparation lowers its rank; a finished one
/// stays as it is.
pub proof fn lemma_rank_decreases(s: PlanState, o: Result<bool, Seq<char>>)
    requires
        plan_wf(s),
    ensures
        is_finished(s) ==> next_state(s, o) == s,
        !is_finished(s) ==> plan_rank(next_state(s, o)) < plan_rank(s),
        plan_rank(s) == 0 <==> is_finished(s),
{
}

/// A run of at least as many outcomes as the rank of its state ends finished.
pub proof fn lemma_run_finishes(s: PlanState, outcomes: Seq<Result<bool, Seq<char>>>)
    requires
        plan_wf(s),
        outcomes.len() >= plan_rank(s),
    ensures
        is_finished(run(s, outcomes)),
    decreases outcomes.len(),
{
    lemma_rank_decreases(s, Ok(true));
    if outcomes.len() > 0 {
        let t = next_state(s, outcomes[0]);
        lemma_plan_wf_preserved(s, outcomes[0]);
        lemma_rank_decreases(s, outcomes[0]);
        lemma_run_finishes(t, outcomes.skip(1));
    }
}

/// Law: a preparation ends, failed or succeeded, after at most 40 outcomes,
/// whatever they are.
pub proof fn lemma_plan_terminates(outcomes: Seq<Result<bool, Seq<char>>>)
    requires
        outcomes.len() >= max_plan_steps(),
    ensures
        is_finished(run(initial_state(), outcomes)),
{
    lemma_run_finishes(initial_state(), outcomes);
}

/// Law: a preparation succeeds only by way of the final checks: the
/// success report follows a Forge manifest found, which follows a Java
/// executable found; and success follows only the success report.
pub proof fn lemma_success_needs_final_checks(s: PlanState, o: Result<bool, Seq<char>>)
    ensures
        next_state(s, o).step == DownloadStep::Succeeded ==> s.step == DownloadStep::ReportReady
            || s.step == DownloadStep::Succeeded,
        next_state(s, o).step == DownloadStep::ReportReady ==> s.step == DownloadStep::VerifyForge
            && o == Ok::<bool, Seq<char>>(true),
        next_state(s, o).step == DownloadStep::VerifyForge ==> s.step == DownloadStep::VerifyJava
            && o == Ok::<bool, Seq<char>>(true),
{
}

/// A finished preparation stays as it is, whatever the outcomes.
pub proof fn lemma_finished_stays(s: PlanState, outcomes: Seq<Result<bool, Seq<char>>>)
    requires
        is_finished(s),
    ensures
        run(s, outcomes) == s,
    decreases outcomes.len(),
{
    if outcomes.len() > 0 {
        lemma_finished_stays(next_state(s, outcomes[0]), outcomes.skip(1));
    }
}

/// Where every step from a set of states either enters `target`, fails, or
/// stays in the set, a run from the set that succeeds enters `target`.
pub proof fn lemma_success_passes_through(
    s: PlanState,
    outcomes: Seq<Result<bool, Seq<char>>>,
    inside: spec_fn(PlanState) -> bool,
    target: DownloadStep,
)
    requires
        inside(s),
        forall|st: PlanState, o: Result<bool, Seq<char>>|
            #![trigger inside(st), next_state(st, o)]
            inside(st) ==> ({
                let t = next_state(st, o);
                t.step == target || t.step == DownloadStep::Failed || inside(t)
            }),
        forall|st: PlanState| #[trigger] inside(st) ==> st.step != DownloadStep::Succeeded,
        run(s, outcomes).step == DownloadStep::Succeeded,
    ensures
        entries(s, outcomes, target) >= 1,
    decreases outcomes.len(),
{
    if outcomes.len() > 0 {
        let t = next_state(s, outcomes[0]);
        if t.step == target {
        } else if t.step == DownloadStep::Failed {
            lemma_finished_stays(t, outcomes.skip(1));
        } else {
            lemma_success_passes_through(t, outcomes.skip(1), inside, target);
        }
    }
}

/// Law: where the installed Java is not the one published now, a
/// preparation that succeeds has fetched the Java archive again and
/// unpacked it.
pub proof fn lemma_outdated_java_replaced(s: PlanState, outcomes: Seq<Result<bool, Seq<char>>>)
    requires
        s.step == DownloadStep::CheckJavaCurrent,
        outcomes.len() > 0,
        outcomes[0] == Ok::<bool, Seq<char>>(false),
        run(s, outcomes).step == DownloadStep::Succeeded,
    ensures
        entries(s, outcomes, DownloadStep::DownloadJava) >= 1,
        entries(s, outcomes, DownloadStep::ExtractJava) >= 1,
{
    let t = next_state(s, outcomes[0]);
    let rest = outcomes.skip(1);
    assert(t.step == DownloadStep::RemoveStaleJavaArchive);
    let stale = |st: PlanState| st.step == DownloadStep::RemoveStaleJavaArchive;
    lemma_success_passes_through(t, rest, stale, DownloadStep::DownloadJava);
    let fetching = |st: PlanState|
        st.step == DownloadStep::RemoveStaleJavaArchive || st.step == DownloadStep::DownloadJava
            || st.step == DownloadStep::ValidateJava;
    lemma_success_passes_through(t, rest, fetching, DownloadStep::ExtractJava);
}

/// Law: where the installed game files are not the ones published now, a
/// preparation that succeeds has fetched the game archive again and
/// unpacked it.
pub proof fn lemma_outdated_game_replaced(s: PlanState, outcomes: Seq<Result<bool, Seq<char>>>)
    requires
        plan_wf(s),
        s.step == DownloadStep::CheckGameCurrent,
        outcomes.len() > 0,
        outcomes[0] == Ok::<bool, Seq<char>>(false),
        run(s, outcomes).step == DownloadStep::Succeeded,
    ensures
        entries(s, outcomes, DownloadStep::DownloadVersion) >= 1,
        entries(s, outcomes, DownloadStep::ExtractVersion) >= 1,
{
    let t = next_state(s, outcomes[0]);
    let rest = outcomes.skip(1);
    assert(t.step == DownloadStep::CheckVersionArchive && t.refresh_game);
    let before_fetch = |st: PlanState|
        st.refresh_game && (st.step == DownloadStep::CheckVersionArchive || st.step
            == DownloadStep::RemoveStaleVersionArchive);
    lemma_success_passes_through(t, rest, before_fetch, DownloadStep::DownloadVersion);
    let in_loop = |st: PlanState|
        st.tries <= 2 && (st.step == DownloadStep::CheckVersionArchive || st.step
            == DownloadStep::RemoveStaleVersionArchive || st.step == DownloadStep::DownloadVersion
            || st.step == DownloadStep::ValidateVersion || st.step == DownloadStep::RemoveBadVersionArchive
            || st.step == DownloadStep::ReportRetry);
    lemma_success_passes_through(t, rest, in_loop, DownloadStep::ExtractVersion);
}

/// Whether the outcome of `step` is ignored: removing an archive, recording
/// a revision and telling the user are not checked.
pub open spec fn outcome_ignored(step: DownloadStep) -> bool {
    step == DownloadStep::RemoveStaleJavaArchive || step == DownloadStep::RecordJavaRevision
        || step == DownloadStep::RemoveStaleVersionArchive || step
        == DownloadStep::RemoveBadVersionArchive || step == DownloadStep::ReportRetry || step
        == DownloadStep::RecordVersionRevision || step == DownloadStep::ReportReady
}

/// Law: an error ends the preparation. Where a step that is not finished,
/// whose outcome is not ignored and that is not the check of the game
/// archive fails with `e`, the preparation fails with exactly `e`, and the
/// rest of the state is kept. A failed check of the game archive ends it
/// with `e` and the attempt count once three attempts are spent, and
/// otherwise removes the archive and counts the attempt.
pub proof fn lemma_errors_end_preparation(s: PlanState, e: Seq<char>)
    ensures
        !is_finished(s) && !outcome_ignored(s.step) && s.step != DownloadStep::ValidateVersion
            ==> ({
            let t = next_state(s, Err(e));
            &&& t.step == DownloadStep::Failed
            &&& t.error == e
            &&& t.tries == s.tries
            &&& t.refresh_game == s.refresh_game
        }),
        s.step == DownloadStep::ValidateVersion && s.tries >= 2 ==> ({
            let t = next_state(s, Err(e));
            &&& t.step == DownloadStep::Failed
            &&& t.error == e + " (after 3 download attempts)"@
        }),
        s.step == DownloadStep::ValidateVersion && s.tries < 2 ==> ({
            let t = next_state(s, Err(e));
            &&& t.step == DownloadStep::RemoveBadVersionArchive
            &&& t.tries == s.tries + 1
            &&& t.error == s.error
        }),
{
}

/// Law: the outcome of a step whose outcome is ignored changes nothing:
/// any two outcomes lead to the same state, which is not a failure.
pub proof fn lemma_ignored_outcomes(s: PlanState, o1: Result<bool, Seq<char>>, o2: Result<bool, Seq<char>>)
    requires
        outcome_ignored(s.step),
    ensures
        next_state(s, o1) == next_state(s, o2),
        next_state(s, o1).step != DownloadStep::Failed,
        next_state(s, o1).error == s.error,
        next_state(s, o1).tries == s.tries,
{
}

/// Law: a preparation that has not failed keeps its error as it was, and
/// fails with an error only as the outcome of a step.
pub proof fn lemma_failure_needs_error_or_missing_file(s: PlanState, o: Result<bool, Seq<char>>)
    requires
        !is_finished(s),
        next_state(s, o).step == DownloadStep::Failed,
    ensures
        o is Err || (s.step == DownloadStep::VerifyJava && next_state(s, o).error == JAVA_MISSING@)
            || (s.step == DownloadStep::VerifyForge && next_state(s, o).error == FORGE_MISSING@),
        o is Ok ==> o == Ok::<bool, Seq<char>>(false),
{
}

/// Law: files are unpacked and revisions recorded only in order. The game
/// archive is unpacked only after it passed its check, and its revision is
/// recorded only after it was unpacked without error; likewise for Java.
/// A game archive is fetched only where none exists or after the stale one
/// was removed, and a stale one is removed only where one exists and it is
/// a later attempt or a replacement.
pub proof fn lemma_steps_in_order(s: PlanState, o: Result<bool, Seq<char>>)
    requires
        !is_finished(s),
    ensures
        next_state(s, o).step == DownloadStep::ExtractVersion && s.step != DownloadStep::ExtractVersion
            ==> s.step == DownloadStep::ValidateVersion && o is Ok,
        next_state(s, o).step == DownloadStep::RecordVersionRevision && s.step
            != DownloadStep::RecordVersionRevision ==> s.step == DownloadStep::ExtractVersion && o
            is Ok,
        next_state(s, o).step == DownloadStep::ExtractJava && s.step != DownloadStep::ExtractJava
            ==> s.step == DownloadStep::ValidateJava && o is Ok,
        next_state(s, o).step == DownloadStep::RecordJavaRevision && s.step
            != DownloadStep::RecordJavaRevision ==> s.step == DownloadStep::ExtractJava && o is Ok,
        next_state(s, o).step == DownloadStep::DownloadVersion && s.step != DownloadStep::DownloadVersion
            ==> (s.step == DownloadStep::CheckVersionArchive && o == Ok::<bool, Seq<char>>(false))
            || s.step == DownloadStep::RemoveStaleVersionArchive,
        next_state(s, o).step == DownloadStep::RemoveStaleVersionArchive && s.step
            != DownloadStep::RemoveStaleVersionArchive ==> s.step == DownloadStep::CheckVersionArchive
            && o == Ok::<bool, Seq<char>>(true) && (s.tries > 0 || s.refresh_game),
        next_state(s, o).step == DownloadStep::DownloadJava && s.step != DownloadStep::DownloadJava
            ==> (s.step == DownloadStep::CheckJavaArchive && o == Ok::<bool, Seq<char>>(false))
            || s.step == DownloadStep::RemoveStaleJavaArchive,
{
}

} // verus!
