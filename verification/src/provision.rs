use vstd::prelude::*;
use crate::error::Error;

verus! {

/// An installation status the host shows to the user while a provisioning run
/// blocks on a slow host call.
#[derive(Debug, Clone, Copy, PartialEq, Eq)]
pub enum ProvisionStatus {
    CheckingForUpdate,
    Downloading,
}

/// One request a provisioning run asks its driver to carry out. The driver
/// performs the host call and feeds the answer back as the matching event.
/// Where an action carries a `notify`, the driver reports that status to the
/// host first, then makes the call; `notify` is absent exactly when the run
/// has no status observer.
#[derive(Debug, Clone, PartialEq, Eq)]
pub enum ProvisionAction {
    /// Ask the host which version of the package is installed, if any.
    QueryInstalledVersion,
    /// Ask the host for the latest published version of the package.
    QueryLatestVersion { notify: Option<ProvisionStatus> },
    /// Install `version` of the package.
    Install { notify: Option<ProvisionStatus>, version: String },
}

/// Where a provisioning run stands between two host calls.
#[derive(Debug, PartialEq, Eq)]
pub enum ProvisionPhase {
    /// Waiting for the installed version.
    Begin,
    /// Waiting for the latest published version; `installed` is what the host
    /// answered for the installed version.
    AwaitLatest { installed: Option<String> },
    /// Waiting for the installation of `version` to finish; `had_installed`
    /// says whether some version was already installed before.
    AwaitInstall { had_installed: bool, version: String },
    /// The run is over, with this outcome.
    Done { outcome: Result<(), Error> },
}

/// The host's answer to the pending action of a phase.
#[derive(Debug, PartialEq, Eq)]
pub enum ProvisionEvent {
    /// Answer to `QueryInstalledVersion`: the installed version, if any, or
    /// why the host could not tell.
    GotInstalled(Result<Option<String>, String>),
    /// Answer to `QueryLatestVersion`: the latest published version, or why
    /// the lookup failed.
    GotLatest(Result<String, String>),
    /// Answer to `Install`: whether the installation succeeded.
    InstallFinished(Result<(), String>),
}

/// Ensures packages are installed and current, remembering which package
/// names were confirmed during this session so that a package is re-checked
/// only if it is unseen this session or no longer reports an installed
/// version. One instance per extension/process lifetime; a fresh instance
/// starts with nothing marked.
pub struct Provisioner {
    installed: Vec<String>,
}

/// The action pending in a phase, or nothing once the run is over. With an
/// observer, the latest-version query is preceded by `CheckingForUpdate` and
/// the installation by `Downloading`; without one, nothing is ever reported.
pub open spec fn spec_pending(phase: ProvisionPhase, has_observer: bool) -> Option<ProvisionAction> {
    match phase {
        ProvisionPhase::Begin => Some(ProvisionAction::QueryInstalledVersion),
        ProvisionPhase::AwaitLatest { .. } => Some(
            ProvisionAction::QueryLatestVersion {
                notify: if has_observer {
                    Some(ProvisionStatus::CheckingForUpdate)
                } else {
                    None
                },
            },
        ),
        ProvisionPhase::AwaitInstall { version, .. } => Some(
            ProvisionAction::Install {
                notify: if has_observer {
                    Some(ProvisionStatus::Downloading)
                } else {
                    None
                },
                version,
            },
        ),
        ProvisionPhase::Done { .. } => None,
    }
}

/// One transition of a provisioning run for a package: from the phase and the
/// host's answer to the next phase, and whether this transition marks the
/// package as provisioned. `seen` says whether the package was already marked
/// when the run began.
///
/// The transitions are exactly these: a failed version lookup ends the run
/// with a query error; an installed version together with `seen` is the fast
/// path, ending the run at once with success; an installed version equal to
/// the latest needs no install and marks the package; otherwise the latest
/// version is installed, and an install failure is swallowed (the stale
/// installed version is reused, and the package is still marked) unless no
/// version was installed at all, which ends the run with an install error and
/// marks nothing. An answer that does not fit the phase changes nothing.
pub open spec fn spec_step(seen: bool, phase: ProvisionPhase, event: ProvisionEvent) -> (
    ProvisionPhase,
    bool,
) {
    match (phase, event) {
        (ProvisionPhase::Begin, ProvisionEvent::GotInstalled(answer)) => match answer {
            Err(e) => (ProvisionPhase::Done { outcome: Err(Error::Query(e)) }, false),
            Ok(installed) => if installed is Some && seen {
                (ProvisionPhase::Done { outcome: Ok(()) }, false)
            } else {
                (ProvisionPhase::AwaitLatest { installed }, false)
            },
        },
        (ProvisionPhase::AwaitLatest { installed }, ProvisionEvent::GotLatest(answer)) => match answer {
            Err(e) => (ProvisionPhase::Done { outcome: Err(Error::Query(e)) }, false),
            Ok(latest) => if installed matches Some(v) && v@ == latest@ {
                (ProvisionPhase::Done { outcome: Ok(()) }, true)
            } else {
                (
                    ProvisionPhase::AwaitInstall {
                        had_installed: installed is Some,
                        version: latest,
                    },
                    false,
                )
            },
        },
        (
            ProvisionPhase::AwaitInstall { had_installed, .. },
            ProvisionEvent::InstallFinished(answer),
        ) => match answer {
            Ok(_) => (ProvisionPhase::Done { outcome: Ok(()) }, true),
            Err(e) => if had_installed {
                (ProvisionPhase::Done { outcome: Ok(()) }, true)
            } else {
                (ProvisionPhase::Done { outcome: Err(Error::Install(e)) }, false)
            },
        },
        _ => (phase, false),
    }
}

impl ProvisionPhase {
    /// The action pending in this phase, or nothing once the run is over.
    pub fn next_action(&self, has_observer: bool) -> (a: Option<ProvisionAction>)
        ensures
            a == spec_pending(*self, has_observer),
    {
        match self {
            ProvisionPhase::Begin => Some(ProvisionAction::QueryInstalledVersion),
            ProvisionPhase::AwaitLatest { .. } => Some(
                ProvisionAction::QueryLatestVersion {
                    notify: if has_observer {
                        Some(ProvisionStatus::CheckingForUpdate)
                    } else {
                        None
                    },
                },
            ),
            ProvisionPhase::AwaitInstall { version, .. } => Some(
                ProvisionAction::Install {
                    notify: if has_observer {
                        Some(ProvisionStatus::Downloading)
                    } else {
                        None
                    },
                    version: version.clone(),
                },
            ),
            ProvisionPhase::Done { .. } => None,
        }
    }
}

impl Provisioner {
    /// Whether a package name was marked provisioned during this session.
    pub closed spec fn seen(&self, name: Seq<char>) -> bool {
        exists|i: int|
            0 <= i < self.installed@.len() && self.installed@[i]@ == name
    }

    /// A fresh provisioner, with no package marked: the session starts empty,
    /// so the first call for any package performs the full check.
    pub fn new() -> (p: Provisioner)
        ensures
            forall|n: Seq<char>| !p.seen(n),
    {
        Provisioner { installed: Vec::new() }
    }

    /// Whether `name` was marked provisioned during this session.
    pub fn contains(&self, name: &str) -> (r: bool)
        ensures
            r == self.seen(name@),
    {
        let needle = name.to_owned();
        let mut i: usize = 0;
        while i < self.installed.len()
            invariant
                i <= self.installed.len(),
                needle@ == name@,
                forall|j: int| 0 <= j < i ==> self.installed@[j]@ != name@,
            decreases self.installed.len() - i,
        {
            if self.installed[i] == needle {
                assert(self.seen(name@)) by {
                    assert(self.installed@[i as int]@ == name@);
                }
                return true;
            }
            i += 1;
        }
        false
    }

    /// Marks `package` provisioned for the rest of the session; every other
    /// mark is kept as it was.
    fn record(&mut self, package: &str)
        ensures
            forall|n: Seq<char>|
                final(self).seen(n) == (old(self).seen(n) || n == package@),
    {
        if !self.contains(package) {
            let ghost old_len = self.installed@.len();
            let owned = package.to_owned();
            self.installed.push(owned);
            assert forall|n: Seq<char>|
                self.seen(n) == (old(self).seen(n) || n == package@) by {
                if n == package@ {
                    assert(self.installed@[old_len as int]@ == n);
                    assert(self.seen(n));
                } else {
                    if self.seen(n) {
                        let k = choose|k: int|
                            0 <= k < self.installed@.len() && self.installed@[k]@ == n;
                        assert(k < old_len);
                        assert(old(self).installed@[k]@ == n);
                        assert(old(self).seen(n));
                    }
                    if old(self).seen(n) {
                        let k = choose|k: int|
                            0 <= k < old(self).installed@.len() && old(self).installed@[k]@ == n;
                        assert(self.installed@[k]@ == n);
                        assert(self.seen(n));
                    }
                }
            }
        }
    }

    /// One transition of the provisioning run for `package`: hands the host's
    /// answer to the protocol and applies its decision, marking the package in
    /// the session set exactly when the transition records it.
    pub fn step(&mut self, package: &str, phase: ProvisionPhase, event: ProvisionEvent) -> (next:
        ProvisionPhase)
        ensures
            next == spec_step(old(self).seen(package@), phase, event).0,
            forall|n: Seq<char>|
                final(self).seen(n) == (old(self).seen(n) || (spec_step(
                    old(self).seen(package@),
                    phase,
                    event,
                ).1 && n == package@)),
    {
        match (phase, event) {
            (ProvisionPhase::Begin, ProvisionEvent::GotInstalled(answer)) => match answer {
                Err(e) => ProvisionPhase::Done { outcome: Err(Error::Query(e)) },
                Ok(installed) => {
                    if installed.is_some() && self.contains(package) {
                        ProvisionPhase::Done { outcome: Ok(()) }
                    } else {
                        ProvisionPhase::AwaitLatest { installed }
                    }
                },
            },
            (ProvisionPhase::AwaitLatest { installed }, ProvisionEvent::GotLatest(answer)) => match answer {
                Err(e) => ProvisionPhase::Done { outcome: Err(Error::Query(e)) },
                Ok(latest) => {
                    let up_to_date = match &installed {
                        Some(v) => *v == latest,
                        None => false,
                    };
                    if up_to_date {
                        self.record(package);
                        ProvisionPhase::Done { outcome: Ok(()) }
                    } else {
                        ProvisionPhase::AwaitInstall {
                            had_installed: installed.is_some(),
                            version: latest,
                        }
                    }
                },
            },
            (
                ProvisionPhase::AwaitInstall { had_installed, .. },
                ProvisionEvent::InstallFinished(answer),
            ) => match answer {
                Ok(_) => {
                    self.record(package);
                    ProvisionPhase::Done { outcome: Ok(()) }
                },
                Err(e) => {
                    if had_installed {
                        self.record(package);
                        ProvisionPhase::Done { outcome: Ok(()) }
                    } else {
                        ProvisionPhase::Done { outcome: Err(Error::Install(e)) }
                    }
                },
            },
            (p, _) => p,
        }
    }
}

/// A measure that every transition of a run strictly lowers.
pub open spec fn phase_rank(phase: ProvisionPhase) -> nat {
    match phase {
        ProvisionPhase::Begin => 3,
        ProvisionPhase::AwaitLatest { .. } => 2,
        ProvisionPhase::AwaitInstall { .. } => 1,
        ProvisionPhase::Done { .. } => 0,
    }
}

/// The event a driver that got these three host answers feeds back in a phase.
pub open spec fn event_for(
    phase: ProvisionPhase,
    a_installed: Result<Option<String>, String>,
    a_latest: Result<String, String>,
    a_install: Result<(), String>,
) -> ProvisionEvent {
    match phase {
        ProvisionPhase::Begin => ProvisionEvent::GotInstalled(a_installed),
        ProvisionPhase::AwaitLatest { .. } => ProvisionEvent::GotLatest(a_latest),
        ProvisionPhase::AwaitInstall { .. } => ProvisionEvent::InstallFinished(a_install),
        ProvisionPhase::Done { .. } => ProvisionEvent::InstallFinished(a_install),
    }
}

/// A whole provisioning run, as a driver with these host answers plays it
/// from `phase` to its end: the actions the run asks for, in order; the final
/// phase; and whether the run marked the package as provisioned.
pub open spec fn run_from(
    phase: ProvisionPhase,
    seen: bool,
    has_observer: bool,
    a_installed: Result<Option<String>, String>,
    a_latest: Result<String, String>,
    a_install: Result<(), String>,
) -> (Seq<ProvisionAction>, ProvisionPhase, bool)
    decreases phase_rank(phase),
{
    match spec_pending(phase, has_observer) {
        None => (Seq::<ProvisionAction>::empty(), phase, false),
        Some(action) => {
            let event = event_for(phase, a_installed, a_latest, a_install);
            let stepped = spec_step(seen, phase, event);
            let rest = run_from(stepped.0, seen, has_observer, a_installed, a_latest, a_install);
            (seq![action] + rest.0, rest.1, stepped.1 || rest.2)
        },
    }
}

/// The statuses one action reports: what its `notify` holds, if anything.
pub open spec fn note_of(action: ProvisionAction) -> Seq<ProvisionStatus> {
    match action {
        ProvisionAction::QueryInstalledVersion => Seq::<ProvisionStatus>::empty(),
        ProvisionAction::QueryLatestVersion { notify } => match notify {
            Some(s) => seq![s],
            None => Seq::<ProvisionStatus>::empty(),
        },
        ProvisionAction::Install { notify, .. } => match notify {
            Some(s) => seq![s],
            None => Seq::<ProvisionStatus>::empty(),
        },
    }
}

/// The statuses a sequence of actions reports, in order.
pub open spec fn notifications_of(actions: Seq<ProvisionAction>) -> Seq<ProvisionStatus>
    decreases actions.len(),
{
    if actions.len() == 0 {
        Seq::<ProvisionStatus>::empty()
    } else {
        note_of(actions[0]) + notifications_of(actions.skip(1))
    }
}

impl Provisioner {
    /// Plays a whole provisioning run for `package` against the given host
    /// answers: queries the installed version, and unless the fast path ends
    /// the run there, checks the latest version and installs it when it
    /// differs. Returns the actions the run asked for, in order, and its
    /// outcome; the package is marked provisioned exactly when the run
    /// records it. The answers stand for what the host would have said had
    /// the run asked; an answer the run never asks for is ignored.
    pub fn ensure_installed_with(
        &mut self,
        package: &str,
        has_observer: bool,
        a_installed: Result<Option<String>, String>,
        a_latest: Result<String, String>,
        a_install: Result<(), String>,
    ) -> (r: (Vec<ProvisionAction>, Result<(), Error>))
        ensures
            ({
                let run = run_from(
                    ProvisionPhase::Begin,
                    old(self).seen(package@),
                    has_observer,
                    a_installed,
                    a_latest,
                    a_install,
                );
                &&& r.0@ == run.0
                &&& run.1 == (ProvisionPhase::Done { outcome: r.1 })
                &&& forall|n: Seq<char>|
                    final(self).seen(n) == (old(self).seen(n) || (run.2 && n == package@))
            }),
    {
        proof {
            reveal_with_fuel(run_from, 4);
        }
        let mut actions: Vec<ProvisionAction> = Vec::new();
        let phase0 = ProvisionPhase::Begin;
        let action0 = match phase0.next_action(has_observer) {
            Some(a) => a,
            None => unreached(),
        };
        actions.push(action0);
        let phase1 = self.step(package, ProvisionPhase::Begin, ProvisionEvent::GotInstalled(a_installed));
        match phase1 {
            ProvisionPhase::Done { outcome } => {
                proof {
                    assert(actions@ =~= run_from(
                        ProvisionPhase::Begin,
                        old(self).seen(package@),
                        has_observer,
                        a_installed,
                        a_latest,
                        a_install,
                    ).0);
                }
                (actions, outcome)
            },
            phase1 => {
                let action1 = match phase1.next_action(has_observer) {
                    Some(a) => a,
                    None => unreached(),
                };
                actions.push(action1);
                let phase2 = self.step(package, phase1, ProvisionEvent::GotLatest(a_latest));
                match phase2 {
                    ProvisionPhase::Done { outcome } => {
                        proof {
                            assert(actions@ =~= run_from(
                                ProvisionPhase::Begin,
                                old(self).seen(package@),
                                has_observer,
                                a_installed,
                                a_latest,
                                a_install,
                            ).0);
                        }
                        (actions, outcome)
                    },
                    phase2 => {
                        let action2 = match phase2.next_action(has_observer) {
                            Some(a) => a,
                            None => unreached(),
                        };
                        actions.push(action2);
                        let phase3 = self.step(
                            package,
                            phase2,
                            ProvisionEvent::InstallFinished(a_install),
                        );
                        match phase3 {
                            ProvisionPhase::Done { outcome } => {
                                proof {
                                    assert(actions@ =~= run_from(
                                        ProvisionPhase::Begin,
                                        old(self).seen(package@),
                                        has_observer,
                                        a_installed,
                                        a_latest,
                                        a_install,
                                    ).0);
                                }
                                (actions, outcome)
                            },
                            _ => unreached(),
                        }
                    },
                }
            },
        }
    }
}

/// Every run ends: played to the end, a run stands in its final phase.
pub proof fn lemma_run_completes(
    seen: bool,
    has_observer: bool,
    a_installed: Result<Option<String>, String>,
    a_latest: Result<String, String>,
    a_install: Result<(), String>,
)
    ensures
        run_from(ProvisionPhase::Begin, seen, has_observer, a_installed, a_latest, a_install).1
            matches ProvisionPhase::Done { .. },
{
    reveal_with_fuel(run_from, 4);
}

/// A run that ends successfully leaves the package marked for the session:
/// either it was marked before (the fast path), or the run recorded it.
pub proof fn lemma_success_marks_package(
    seen: bool,
    has_observer: bool,
    a_installed: Result<Option<String>, String>,
    a_latest: Result<String, String>,
    a_install: Result<(), String>,
)
    requires
        run_from(ProvisionPhase::Begin, seen, has_observer, a_installed, a_latest, a_install).1
            == (ProvisionPhase::Done { outcome: Ok::<(), Error>(()) }),
    ensures
        seen || run_from(
            ProvisionPhase::Begin,
            seen,
            has_observer,
            a_installed,
            a_latest,
            a_install,
        ).2,
{
    reveal_with_fuel(run_from, 4);
}

/// Law: provisioning is idempotent within a session. After a successful run
/// for a package, the package is marked; a later run in the same session that
/// still finds an installed version takes the fast path: it asks only for the
/// installed version, succeeds at once, performs no further host call, and
/// changes nothing.
pub proof fn lemma_idempotent_provisioning(
    seen: bool,
    obs1: bool,
    a1_installed: Result<Option<String>, String>,
    a1_latest: Result<String, String>,
    a1_install: Result<(), String>,
    obs2: bool,
    installed2: String,
    a2_latest: Result<String, String>,
    a2_install: Result<(), String>,
)
    requires
        run_from(ProvisionPhase::Begin, seen, obs1, a1_installed, a1_latest, a1_install).1 == (
        ProvisionPhase::Done { outcome: Ok::<(), Error>(()) }),
    ensures
        ({
            let marked = seen || run_from(
                ProvisionPhase::Begin,
                seen,
                obs1,
                a1_installed,
                a1_latest,
                a1_install,
            ).2;
            let second = run_from(
                ProvisionPhase::Begin,
                marked,
                obs2,
                Ok::<Option<String>, String>(Some(installed2)),
                a2_latest,
                a2_install,
            );
            &&& marked
            &&& second.0 =~= seq![ProvisionAction::QueryInstalledVersion]
            &&& second.1 == (ProvisionPhase::Done { outcome: Ok::<(), Error>(()) })
            &&& !second.2
        }),
{
    reveal_with_fuel(run_from, 4);
    lemma_success_marks_package(seen, obs1, a1_installed, a1_latest, a1_install);
}

/// Law: session isolation. While a package is not marked this session, a run
/// never takes the fast path: whatever the host answers for the installed
/// version, the run asks at least a second question.
pub proof fn lemma_session_isolation(
    has_observer: bool,
    installed: Option<String>,
    a_latest: Result<String, String>,
    a_install: Result<(), String>,
)
    ensures
        run_from(
            ProvisionPhase::Begin,
            false,
            has_observer,
            Ok::<Option<String>, String>(installed),
            a_latest,
            a_install,
        ).0.len() >= 2,
{
    reveal_with_fuel(run_from, 4);
}

/// Law: update detection. With an installed version that differs from the
/// latest, a full check asks for the installed version, then the latest one,
/// then installs exactly the latest version — one install, and nothing else.
pub proof fn lemma_update_detection(
    has_observer: bool,
    installed: String,
    latest: String,
    a_install: Result<(), String>,
)
    requires
        installed@ != latest@,
    ensures
        ({
            let run = run_from(
                ProvisionPhase::Begin,
                false,
                has_observer,
                Ok::<Option<String>, String>(Some(installed)),
                Ok::<String, String>(latest),
                a_install,
            );
            run.0 =~= seq![
                ProvisionAction::QueryInstalledVersion,
                ProvisionAction::QueryLatestVersion {
                    notify: if has_observer {
                        Some(ProvisionStatus::CheckingForUpdate)
                    } else {
                        None
                    },
                },
                ProvisionAction::Install {
                    notify: if has_observer {
                        Some(ProvisionStatus::Downloading)
                    } else {
                        None
                    },
                    version: latest,
                },
            ]
        }),
{
    reveal_with_fuel(run_from, 4);
}

/// Law: graceful degradation. When an update's installation fails but some
/// version is already installed, the failure is swallowed: the run succeeds
/// and the package is still marked, so the stale version is reused.
pub proof fn lemma_graceful_degradation(
    has_observer: bool,
    installed: String,
    latest: String,
    failure: String,
)
    requires
        installed@ != latest@,
    ensures
        ({
            let run = run_from(
                ProvisionPhase::Begin,
                false,
                has_observer,
                Ok::<Option<String>, String>(Some(installed)),
                Ok::<String, String>(latest),
                Err::<(), String>(failure),
            );
            &&& run.1 == (ProvisionPhase::Done { outcome: Ok::<(), Error>(()) })
            &&& run.2
        }),
{
    reveal_with_fuel(run_from, 4);
}

/// Law: hard failure on a first install. When no version is installed at all
/// and the installation fails, the run fails with an install error and the
/// package is not marked.
pub proof fn lemma_hard_failure_on_first_install(
    seen: bool,
    has_observer: bool,
    latest: String,
    failure: String,
)
    ensures
        ({
            let run = run_from(
                ProvisionPhase::Begin,
                seen,
                has_observer,
                Ok::<Option<String>, String>(None),
                Ok::<String, String>(latest),
                Err::<(), String>(failure),
            );
            &&& run.1 == (ProvisionPhase::Done { outcome: Err::<(), Error>(Error::Install(failure)) })
            &&& !run.2
        }),
{
    reveal_with_fuel(run_from, 4);
}

/// Splitting off the first action splits its notifications off the front.
proof fn lemma_notifications_cons(action: ProvisionAction, rest: Seq<ProvisionAction>)
    ensures
        notifications_of(seq![action] + rest) == note_of(action) + notifications_of(rest),
{
    let s = seq![action] + rest;
    assert(s[0] == action);
    assert(s.skip(1) =~= rest);
}

/// Law: status notification ordering. Over a whole run, the statuses reported
/// are, in order, nothing, `CheckingForUpdate` alone, or `CheckingForUpdate`
/// followed by `Downloading` — so `Downloading` never comes first. Without an
/// observer nothing is ever reported, and the fast path reports nothing.
pub proof fn lemma_status_notification_order(
    seen: bool,
    has_observer: bool,
    a_installed: Result<Option<String>, String>,
    a_latest: Result<String, String>,
    a_install: Result<(), String>,
)
    ensures
        ({
            let notes = notifications_of(
                run_from(
                    ProvisionPhase::Begin,
                    seen,
                    has_observer,
                    a_installed,
                    a_latest,
                    a_install,
                ).0,
            );
            &&& (notes =~= Seq::<ProvisionStatus>::empty() || notes =~= seq![
                ProvisionStatus::CheckingForUpdate,
            ] || notes =~= seq![ProvisionStatus::CheckingForUpdate, ProvisionStatus::Downloading])
            &&& !has_observer ==> notes =~= Seq::<ProvisionStatus>::empty()
            &&& (seen && (a_installed matches Ok(v) && v is Some)) ==> notes =~= Seq::<
                ProvisionStatus,
            >::empty()
        }),
{
    reveal_with_fuel(run_from, 4);
    reveal_with_fuel(notifications_of, 2);
    let run = run_from(ProvisionPhase::Begin, seen, has_observer, a_installed, a_latest, a_install);
    let q = ProvisionAction::QueryInstalledVersion;
    let ql = ProvisionAction::QueryLatestVersion {
        notify: if has_observer {
            Some(ProvisionStatus::CheckingForUpdate)
        } else {
            None
        },
    };
    if run.0.len() == 1 {
        assert(run.0 =~= seq![q]);
        lemma_notifications_cons(q, Seq::<ProvisionAction>::empty());
        assert(notifications_of(run.0) =~= Seq::<ProvisionStatus>::empty());
    } else if run.0.len() == 2 {
        assert(run.0 =~= seq![q, ql]);
        lemma_notifications_cons(q, seq![ql]);
        lemma_notifications_cons(ql, Seq::<ProvisionAction>::empty());
        assert(seq![q, ql] =~= seq![q] + seq![ql]);
        assert(notifications_of(run.0) =~= note_of(ql));
    } else {
        let version = run.0[2]->Install_version;
        let ins = ProvisionAction::Install {
            notify: if has_observer {
                Some(ProvisionStatus::Downloading)
            } else {
                None
            },
            version,
        };
        assert(run.0 =~= seq![q, ql, ins]);
        lemma_notifications_cons(q, seq![ql, ins]);
        lemma_notifications_cons(ql, seq![ins]);
        lemma_notifications_cons(ins, Seq::<ProvisionAction>::empty());
        assert(seq![q, ql, ins] =~= seq![q] + (seq![ql] + seq![ins]));
        assert(seq![ql, ins] =~= seq![ql] + seq![ins]);
        assert(notifications_of(run.0) =~= note_of(ql) + note_of(ins));
    }
}

} // verus!
