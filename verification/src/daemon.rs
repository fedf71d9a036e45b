use vstd::prelude::*;
use crate::events::Event;

verus! {

/// Options for running the daemon.
#[derive(Clone, Debug)]
pub struct Arguments {
    /// Whether the built-in submap overlay behaviour is registered at startup.
    pub submap: bool,
}

/// Joins the per-user runtime directory with the daemon's fixed socket file name.
pub fn socket_path(runtime_dir: &str) -> (path: String)
    ensures
        path@ == runtime_dir@ + "/homehelper.sock"@,
{
    let mut path = String::from_str(runtime_dir);
    path.append("/homehelper.sock");
    path
}

/// What a step asks of the registry after one of its hooks ran.
#[derive(Clone, Copy, Debug, PartialEq, Eq, Structural)]
pub enum StepState {
    KeepActive,
    Done,
}

/// The declared error taxonomy of step hooks: the I/O layer reports a closed
/// peer as its own kind, so the loop can match on it instead of inspecting an
/// opaque error's dynamic type.
#[derive(Clone, Debug)]
pub enum StepError {
    /// The remote peer closed its end of the connection.
    PeerClosed,
    /// Any other failure, carrying its description.
    Failure(String),
}

/// A temporary, non-blocking stage in the main loop, often used for certain
/// client requests.  Implementations live with the I/O code; the loop itself
/// only sees the outcomes their hooks return.
pub trait MainLoopStep {
    /// Periodic hook, run once per tick.
    fn step(&mut self) -> Result<StepState, StepError> {
        Ok(StepState::KeepActive)
    }

    /// Event hook, run once per decoded compositor event, in arrival order.
    fn on_event(&mut self, event: &Event) -> Result<StepState, StepError> {
        let _ = event;
        Ok(StepState::KeepActive)
    }

    /// Error hook: decides whether a failed hook keeps the step active, ends
    /// just this step, or (by returning an error) ends the whole daemon.
    /// By default an error is not absorbed, and takes the daemon down.
    fn on_error(&mut self, error: StepError) -> Result<StepState, StepError> {
        Err(error)
    }
}

/// The steps that survive a sweep: those whose flag is true, in their old order.
pub open spec fn filter_kept<T>(s: Seq<T>, keep: Seq<bool>) -> Seq<T>
    recommends
        keep.len() == s.len(),
    decreases s.len(),
{
    if s.len() == 0 {
        Seq::empty()
    } else {
        let prefix = filter_kept(s.drop_last(), keep.drop_last());
        if keep.last() {
            prefix.push(s.last())
        } else {
            prefix
        }
    }
}

/// How many flags are true.
pub open spec fn count_true(keep: Seq<bool>) -> int
    decreases keep.len(),
{
    if keep.len() == 0 {
        0
    } else {
        count_true(keep.drop_last()) + if keep.last() {
            1int
        } else {
            0int
        }
    }
}

proof fn lemma_filter_kept_len<T>(s: Seq<T>, keep: Seq<bool>)
    requires
        keep.len() == s.len(),
    ensures
        filter_kept(s, keep).len() == count_true(keep),
        count_true(keep) <= s.len(),
    decreases s.len(),
{
    if s.len() > 0 {
        lemma_filter_kept_len(s.drop_last(), keep.drop_last());
    }
}

/// The position in the registry that the `j`-th surviving step came from.
pub open spec fn kept_index(keep: Seq<bool>, j: int) -> int
    decreases keep.len(),
{
    if keep.len() == 0 {
        0
    } else if j >= count_true(keep.drop_last()) {
        keep.len() - 1
    } else {
        kept_index(keep.drop_last(), j)
    }
}

/// Sweeping a registry removes exactly the steps marked done, no matter where
/// in the registry the removals fall: every step still active keeps exactly one
/// place, in registry order, and every surviving place is one still-active
/// step's — no other step is removed, skipped or doubled.
#[verifier::rlimit(50)]
pub proof fn lemma_registry_sweep_exact<T>(s: Seq<T>, keep: Seq<bool>)
    requires
        keep.len() == s.len(),
    ensures
        filter_kept(s, keep).len() == count_true(keep),
        forall|i: int|
            0 <= i < s.len() && keep[i] ==> {
                &&& 0 <= count_true(keep.take(i)) < filter_kept(s, keep).len()
                &&& filter_kept(s, keep)[count_true(keep.take(i))] == s[i]
            },
        forall|j: int| #![trigger kept_index(keep, j)]
            0 <= j < filter_kept(s, keep).len() ==> {
                &&& 0 <= kept_index(keep, j) < s.len()
                &&& keep[kept_index(keep, j)]
                &&& count_true(keep.take(kept_index(keep, j))) == j
                &&& filter_kept(s, keep)[j] == s[kept_index(keep, j)]
            },
    decreases s.len(),
{
    lemma_filter_kept_len(s, keep);
    if s.len() > 0 {
        let n = s.len() as int;
        lemma_registry_sweep_exact(s.drop_last(), keep.drop_last());
        lemma_filter_kept_len(s.drop_last(), keep.drop_last());
        let prefix = filter_kept(s.drop_last(), keep.drop_last());
        assert forall|i: int| 0 <= i < n && keep[i] implies {
            &&& 0 <= count_true(keep.take(i)) < filter_kept(s, keep).len()
            &&& filter_kept(s, keep)[count_true(keep.take(i))] == s[i]
        } by {
            if i < n - 1 {
                assert(keep.drop_last()[i] == keep[i]);
                assert(keep.drop_last().take(i) =~= keep.take(i));
                assert(count_true(keep.drop_last().take(i)) == count_true(keep.take(i)));
                assert(s.drop_last()[i] == s[i]);
                assert(0 <= count_true(keep.drop_last().take(i)) < prefix.len());
                assert(prefix[count_true(keep.drop_last().take(i))] == s.drop_last()[i]);
                if keep.last() {
                    assert(filter_kept(s, keep) == prefix.push(s.last()));
                    assert(filter_kept(s, keep)[count_true(keep.take(i))] == prefix[count_true(
                        keep.take(i),
                    )]);
                }
            } else {
                assert(keep.take(i) =~= keep.drop_last());
                assert(count_true(keep.take(i)) == prefix.len());
                assert(filter_kept(s, keep) == prefix.push(s.last()));
            }
        }
        assert forall|j: int| #![trigger kept_index(keep, j)]
            0 <= j < filter_kept(s, keep).len() implies {
            &&& 0 <= kept_index(keep, j) < s.len()
            &&& keep[kept_index(keep, j)]
            &&& count_true(keep.take(kept_index(keep, j))) == j
            &&& filter_kept(s, keep)[j] == s[kept_index(keep, j)]
        } by {
            if j < prefix.len() {
                if keep.last() {
                    assert(filter_kept(s, keep) == prefix.push(s.last()));
                } else {
                    assert(filter_kept(s, keep) == prefix);
                }
                assert(filter_kept(s, keep)[j] == prefix[j]);
                assert(j < count_true(keep.drop_last()));
                let i = kept_index(keep.drop_last(), j);
                assert(kept_index(keep, j) == i);
                assert(keep.drop_last()[i] == keep[i]);
                assert(s.drop_last()[i] == s[i]);
                assert(keep.drop_last().take(i) =~= keep.take(i));
                assert(count_true(keep.take(i)) == j);
            } else {
                assert(j >= count_true(keep.drop_last()));
                assert(kept_index(keep, j) == n - 1);
                assert(keep.last());
                assert(filter_kept(s, keep) == prefix.push(s.last()));
                assert(keep.take(n - 1) =~= keep.drop_last());
            }
        }
    }
}

proof fn lemma_filter_kept_all_true<T>(s: Seq<T>)
    ensures
        filter_kept(s, Seq::new(s.len(), |i: int| true)) =~= s,
    decreases s.len(),
{
    let keep = Seq::new(s.len(), |i: int| true);
    if s.len() > 0 {
        lemma_filter_kept_all_true(s.drop_last());
        assert(keep.drop_last() =~= Seq::new(s.drop_last().len(), |i: int| true));
    }
}

proof fn lemma_filter_kept_append<T>(s1: Seq<T>, k1: Seq<bool>, s2: Seq<T>, k2: Seq<bool>)
    requires
        k1.len() == s1.len(),
        k2.len() == s2.len(),
    ensures
        filter_kept(s1 + s2, k1 + k2) =~= filter_kept(s1, k1) + filter_kept(s2, k2),
    decreases s2.len(),
{
    if s2.len() == 0 {
        assert(s1 + s2 =~= s1);
        assert(k1 + k2 =~= k1);
    } else {
        lemma_filter_kept_append(s1, k1, s2.drop_last(), k2.drop_last());
        assert((s1 + s2).drop_last() =~= s1 + s2.drop_last());
        assert((k1 + k2).drop_last() =~= k1 + k2.drop_last());
        assert((s1 + s2).last() == s2.last());
        assert((k1 + k2).last() == k2.last());
    }
}

/// The keep flag one step's verdict earns in the sweep: only an explicit
/// keep-active keeps the step; a step that reports done, or whose own error
/// hook handed an error back rather than absorbing it, is removed.
pub fn sweep_flag(verdict: &Result<StepState, StepError>) -> (keep: bool)
    ensures
        keep == (*verdict matches Ok(StepState::KeepActive)),
{
    match verdict {
        Ok(StepState::KeepActive) => true,
        Ok(StepState::Done) => false,
        Err(_) => false,
    }
}

/// Whether one step's verdict stops the whole pass: exactly the errors the
/// step's own error hook did not absorb.  An absorbed error — a closed peer a
/// streaming step resolves to done, say — ends at most that one step.
pub fn sweep_fatal(verdict: &Result<StepState, StepError>) -> (fatal: bool)
    ensures
        fatal == (*verdict is Err),
{
    verdict.is_err()
}

/// What one sweep of the registry did: the verdict each visited step's hooks
/// produced (its hook result, routed through its own error hook on failure),
/// and the keep flag each registry position got.
pub struct SweepLog {
    pub verdicts: Seq<Result<StepState, StepError>>,
    pub flags: Seq<bool>,
}

/// The contract of one sweep over registry contents `before`, leaving
/// `after`.  The hooks themselves carry no contracts — they are the step
/// implementations' own — so the sweep cannot promise what any verdict is;
/// it promises how it acted on whatever came back:
/// every position got a flag; a visited step is kept exactly when its verdict
/// was keep-active; at most the last visited verdict is an unabsorbed error,
/// and exactly then the sweep stops, leaves the rest unvisited and kept, and
/// returns that error; with no unabsorbed error, every step was visited and
/// the result is success; and the surviving registry is the flags' filter of
/// the (hook-mutated) registry, with `apply_outcomes`' exact bookkeeping.
pub open spec fn sweep_post<T>(
    before: Seq<T>,
    after: Seq<T>,
    r: Result<(), StepError>,
    log: SweepLog,
) -> bool {
    &&& log.flags.len() == before.len()
    &&& log.verdicts.len() <= before.len()
    &&& exists|mid: Seq<T>|
        mid.len() == before.len() && after == #[trigger] filter_kept(mid, log.flags)
    &&& forall|k: int|
        0 <= k < log.verdicts.len() ==> log.flags[k] == (#[trigger] log.verdicts[k] matches Ok(
            StepState::KeepActive,
        ))
    &&& forall|k: int| log.verdicts.len() <= k < log.flags.len() ==> log.flags[k]
    &&& forall|k: int|
        0 <= k < log.verdicts.len() && (#[trigger] log.verdicts[k]) is Err ==> k
            == log.verdicts.len() - 1
    &&& (r is Err <==> log.verdicts.len() > 0 && log.verdicts.last() is Err)
    &&& (r matches Err(e) ==> log.verdicts.last() == Err::<StepState, StepError>(e))
    &&& (r is Ok ==> log.verdicts.len() == before.len())
}

/// Phase one of a sweep: runs one hook of every step, in registry order, and
/// records each step's verdict and keep flag instead of removing it mid-walk.
/// A hook error goes to that step's own error hook; an error the step does not
/// absorb marks it for removal, leaves the steps after it unvisited and
/// flagged kept, and is handed back so the caller can stop the daemon.
#[verifier::loop_isolation(false)]
fn collect_outcomes<T: MainLoopStep>(steps: &mut Vec<T>, event: Option<&Event>) -> (r: (
    Vec<bool>,
    Option<StepError>,
    Ghost<Seq<Result<StepState, StepError>>>,
))
    ensures
        final(steps)@.len() == old(steps)@.len(),
        r.0@.len() == old(steps)@.len(),
        r.2@.len() <= old(steps)@.len(),
        forall|k: int|
            0 <= k < r.2@.len() ==> r.0@[k] == (#[trigger] r.2@[k] matches Ok(
                StepState::KeepActive,
            )),
        forall|k: int| r.2@.len() <= k < r.0@.len() ==> r.0@[k],
        forall|k: int|
            0 <= k < r.2@.len() && (#[trigger] r.2@[k]) is Err ==> k == r.2@.len() - 1,
        r.1 is Some <==> r.2@.len() > 0 && r.2@.last() is Err,
        r.1 matches Some(e) ==> r.2@.last() == Err::<StepState, StepError>(e),
        r.1 is None ==> r.2@.len() == old(steps)@.len(),
{
    let ghost n = steps@.len();
    let mut flags: Vec<bool> = Vec::new();
    let ghost mut verdicts: Seq<Result<StepState, StepError>> = Seq::empty();
    let mut i: usize = 0;
    let mut fatal: Option<StepError> = None;
    while i < steps.len() && fatal.is_none()
        invariant
            steps@.len() == n,
            i <= n,
            flags@.len() == i,
            verdicts.len() == i,
            forall|k: int|
                0 <= k < i ==> flags@[k] == (#[trigger] verdicts[k] matches Ok(
                    StepState::KeepActive,
                )),
            forall|k: int| 0 <= k < i && (#[trigger] verdicts[k]) is Err ==> k == i - 1,
            fatal is Some <==> i > 0 && verdicts.last() is Err,
            fatal matches Some(e) ==> verdicts.last() == Err::<StepState, StepError>(e),
        decreases n - i,
    {
        let mut entry = steps.remove(i);
        let outcome = match event {
            Some(e) => entry.on_event(e),
            None => entry.step(),
        };
        let verdict: Result<StepState, StepError> = match outcome {
            Ok(state) => Ok(state),
            Err(e) => entry.on_error(e),
        };
        steps.insert(i, entry);
        proof {
            verdicts = verdicts.push(verdict);
        }
        flags.push(sweep_flag(&verdict));
        if sweep_fatal(&verdict) {
            match verdict {
                Err(e) => {
                    fatal = Some(e);
                },
                Ok(_) => {},
            }
        }
        i += 1;
    }
    let ghost visited = verdicts;
    proof {
        assert(flags@.take(i as int) =~= visited.map_values(
            |v: Result<StepState, StepError>| v matches Ok(StepState::KeepActive),
        ));
    }
    while flags.len() < steps.len()
        invariant
            steps@.len() == n,
            i <= flags@.len() <= n,
            flags@.take(i as int) =~= visited.map_values(
                |v: Result<StepState, StepError>| v matches Ok(StepState::KeepActive),
            ),
            forall|k: int| i <= k < flags@.len() ==> flags@[k],
        decreases n - flags@.len(),
    {
        flags.push(true);
    }
    proof {
        let kept_of = |v: Result<StepState, StepError>| v matches Ok(StepState::KeepActive);
        assert forall|k: int|
            0 <= k < verdicts.len() implies flags@[k] == (#[trigger] verdicts[k] matches Ok(
            StepState::KeepActive,
        )) by {
            assert(flags@.take(i as int)[k] == flags@[k]);
            assert(visited.map_values(kept_of)[k] == kept_of(visited[k]));
        }
    }
    (flags, fatal, Ghost(verdicts))
}

/// Phase two of a sweep: removes exactly the steps whose flag is false, with
/// the index bookkeeping of in-place removal — the index advances only when a
/// step is kept, so no later step is skipped or visited twice.
pub fn apply_outcomes<T>(steps: &mut Vec<T>, keep: &Vec<bool>)
    requires
        keep@.len() == old(steps)@.len(),
    ensures
        final(steps)@ == filter_kept(old(steps)@, keep@),
{
    let ghost orig = steps@;
    let ghost flags = keep@;
    let mut i: usize = 0;
    let mut j: usize = 0;
    while j < keep.len()
        invariant
            flags == keep@,
            flags.len() == orig.len(),
            j <= flags.len(),
            steps@ == filter_kept(orig.take(j as int), flags.take(j as int)) + orig.skip(j as int),
            i as int == filter_kept(orig.take(j as int), flags.take(j as int)).len(),
        decreases flags.len() - j,
    {
        let ghost old_filtered = filter_kept(orig.take(j as int), flags.take(j as int));
        proof {
            assert(steps@[i as int] == orig.skip(j as int)[0]);
            assert(orig.skip(j as int)[0] == orig[j as int]);
            assert(orig.take(j + 1).drop_last() =~= orig.take(j as int));
            assert(flags.take(j + 1).drop_last() =~= flags.take(j as int));
            assert(orig.take(j + 1).last() == orig[j as int]);
            assert(flags.take(j + 1).last() == flags[j as int]);
        }
        if keep[j] {
            proof {
                lemma_filter_kept_len(orig.take(j as int), flags.take(j as int));
                assert(i as int <= j as int);
                assert(filter_kept(orig.take(j + 1), flags.take(j + 1)) =~= old_filtered.push(
                    orig[j as int],
                ));
                assert(steps@ =~= filter_kept(orig.take(j + 1), flags.take(j + 1)) + orig.skip(
                    j + 1,
                ));
            }
            i += 1;
        } else {
            steps.remove(i);
            proof {
                assert(filter_kept(orig.take(j + 1), flags.take(j + 1)) =~= old_filtered);
                assert(steps@ =~= filter_kept(orig.take(j + 1), flags.take(j + 1)) + orig.skip(
                    j + 1,
                ));
            }
        }
        j += 1;
    }
    proof {
        assert(orig.take(j as int) =~= orig);
        assert(flags.take(j as int) =~= flags);
        assert(steps@ =~= filter_kept(orig, flags));
    }
}

/// Invokes every currently registered step's periodic hook once, in registry
/// order, then removes exactly the steps that ended; an error a step did not
/// absorb removes that step, stops the pass, and is returned so the caller
/// can stop the daemon.  The returned log fixes how the sweep acted on each
/// verdict; see `sweep_post`.
pub fn run_steps<T: MainLoopStep>(steps: &mut Vec<T>) -> (res: (
    Result<(), StepError>,
    Ghost<SweepLog>,
))
    ensures
        sweep_post(old(steps)@, final(steps)@, res.0, res.1@),
        old(steps)@.len() == 0 ==> (res.0 is Ok && final(steps)@ =~= Seq::<T>::empty()),
{
    drive_steps(steps, None)
}

/// Invokes every currently registered step's event hook for one decoded event,
/// in registry order, then removes exactly the steps that ended, under the
/// same sweep contract as the periodic pass.
pub fn dispatch_event<T: MainLoopStep>(steps: &mut Vec<T>, event: &Event) -> (res: (
    Result<(), StepError>,
    Ghost<SweepLog>,
))
    ensures
        sweep_post(old(steps)@, final(steps)@, res.0, res.1@),
        old(steps)@.len() == 0 ==> (res.0 is Ok && final(steps)@ =~= Seq::<T>::empty()),
{
    drive_steps(steps, Some(event))
}

fn drive_steps<T: MainLoopStep>(steps: &mut Vec<T>, event: Option<&Event>) -> (res: (
    Result<(), StepError>,
    Ghost<SweepLog>,
))
    ensures
        sweep_post(old(steps)@, final(steps)@, res.0, res.1@),
        old(steps)@.len() == 0 ==> (res.0 is Ok && final(steps)@ =~= Seq::<T>::empty()),
{
    let (flags, fatal, Ghost(verdicts)) = collect_outcomes(steps, event);
    let ghost mid = steps@;
    apply_outcomes(steps, &flags);
    let r: Result<(), StepError> = match fatal {
        None => Ok(()),
        Some(e) => Err(e),
    };
    let ghost log = SweepLog { verdicts, flags: flags@ };
    proof {
        assert(mid.len() == old(steps)@.len());
        assert(steps@ == filter_kept(mid, log.flags));
        if old(steps)@.len() == 0 {
            assert(steps@ =~= Seq::<T>::empty());
        }
    }
    (r, Ghost(log))
}

/// The scheduler's tick period, in nanoseconds.
pub const TICK_PERIOD_NANOS: u64 = 25000000;

/// How long the loop sleeps after one tick's work: the remainder of the tick
/// period, or nothing when the work overran it — there is no backlog
/// catch-up.
pub fn tick_sleep_nanos(elapsed: u64) -> (r: u64)
    ensures
        elapsed < TICK_PERIOD_NANOS ==> r == TICK_PERIOD_NANOS - elapsed,
        elapsed >= TICK_PERIOD_NANOS ==> r == 0,
{
    if elapsed < TICK_PERIOD_NANOS {
        TICK_PERIOD_NANOS - elapsed
    } else {
        0
    }
}

/// What the built-in submap overlay behaviour does in response to one event.
#[derive(Debug)]
pub enum PanelAction {
    /// A submap was entered: close any previous overlay and show one for the
    /// named submap.
    Show(String),
    /// The submap was left: close any overlay.
    Hide,
    /// Not a submap change: leave the overlay as it is.
    Keep,
}

/// The overlay decision for one event: only submap changes matter.
pub fn submap_panel_action(event: &Event) -> (a: PanelAction)
    ensures
        *event matches Event::Submap { name: Some(n) } ==> (a matches PanelAction::Show(s) && s@
            == n@),
        (*event matches Event::Submap { name: None }) ==> a is Hide,
        !(*event matches Event::Submap { .. }) ==> a is Keep,
{
    match event {
        Event::Submap { name: Some(n) } => PanelAction::Show(n.clone()),
        Event::Submap { name: None } => PanelAction::Hide,
        _ => PanelAction::Keep,
    }
}

} // verus!
