//! What the Linux text-console print hook does on each call. The first call reads the
//! console's own debug-log flag (`m_bConDebug`, set by `-condebug`). When it is off,
//! the hook removes itself and the module does nothing more. When it is on, the hook
//! turns the flag off (so the engine stops writing the log file itself) and replaces
//! itself with a lighter hook that only forwards; every call then forwards the message
//! to the writer and runs the original print.
use vstd::prelude::*;

verus! {

/// Which print hook is installed.
#[derive(PartialEq, Eq, Structural, Clone, Copy, Debug)]
pub enum HookStage {
    /// The first hook, installed at load time.
    Primary,
    /// The forwarding hook that replaces it when `-condebug` is on.
    Secondary,
    /// No hook: `-condebug` was off, so the first hook removed itself.
    Removed,
}

/// One thing the hook does, in order.
#[derive(PartialEq, Eq, Structural, Clone, Copy, Debug)]
pub enum HookStep {
    /// Set the console object's `m_bConDebug` flag to false.
    ClearConDebugFlag,
    /// Disable the first hook and install and enable the forwarding hook in its place.
    InstallSecondary,
    /// Disable the first hook, leaving the print function as it was.
    RemoveHook,
    /// Frame the message and send it to the writer.
    Forward,
    /// Call the original print function.
    CallOriginal,
}

/// The steps of one call of the hook installed in `stage`, and the stage after it;
/// `con_debug_on` is the value of the console's debug-log flag when the call starts.
pub open spec fn print_hook_spec(stage: HookStage, con_debug_on: bool) -> (HookStage, Seq<HookStep>) {
    match stage {
        HookStage::Primary => if con_debug_on {
            (
                HookStage::Secondary,
                seq![
                    HookStep::ClearConDebugFlag,
                    HookStep::InstallSecondary,
                    HookStep::Forward,
                    HookStep::ClearConDebugFlag,
                    HookStep::CallOriginal,
                ],
            )
        } else {
            (HookStage::Removed, seq![HookStep::RemoveHook, HookStep::CallOriginal])
        },
        HookStage::Secondary => (HookStage::Secondary, seq![HookStep::Forward, HookStep::CallOriginal]),
        HookStage::Removed => (HookStage::Removed, seq![HookStep::CallOriginal]),
    }
}

/// Every call of the hook, whatever is installed and whatever the flag holds, ends by
/// running the original print, exactly once; a call forwards the message at most once,
/// and before the original runs.
pub proof fn law_each_call_ends_in_original(stage: HookStage, con_debug_on: bool)
    ensures
        print_hook_spec(stage, con_debug_on).1.len() > 0,
        print_hook_spec(stage, con_debug_on).1.last() == HookStep::CallOriginal,
        count_step(print_hook_spec(stage, con_debug_on).1, HookStep::CallOriginal) == 1,
        count_step(print_hook_spec(stage, con_debug_on).1, HookStep::Forward) <= 1,
        forall|i: int|
            0 <= i < print_hook_spec(stage, con_debug_on).1.len() - 1 ==> #[trigger] print_hook_spec(
                stage,
                con_debug_on,
            ).1[i] != HookStep::CallOriginal,
{
    lemma_count_one_call(stage, con_debug_on, HookStep::CallOriginal);
    lemma_count_one_call(stage, con_debug_on, HookStep::Forward);
}

/// The stage and the steps after calls of the hook that see the debug-log flag values
/// `flags`, one per call.
pub open spec fn hook_run(stage: HookStage, flags: Seq<bool>) -> (HookStage, Seq<HookStep>)
    decreases flags.len(),
{
    if flags.len() == 0 {
        (stage, seq![])
    } else {
        let (s1, steps1) = print_hook_spec(stage, flags[0]);
        let (s2, steps2) = hook_run(s1, flags.drop_first());
        (s2, steps1 + steps2)
    }
}

/// How many times `step` occurs in `steps`.
pub open spec fn count_step(steps: Seq<HookStep>, step: HookStep) -> nat
    decreases steps.len(),
{
    if steps.len() == 0 {
        0
    } else {
        (if steps[0] == step { 1nat } else { 0nat }) + count_step(steps.drop_first(), step)
    }
}

proof fn lemma_count_concat(a: Seq<HookStep>, b: Seq<HookStep>, step: HookStep)
    ensures
        count_step(a + b, step) == count_step(a, step) + count_step(b, step),
    decreases a.len(),
{
    if a.len() == 0 {
        assert(a + b =~= b);
    } else {
        assert((a + b).drop_first() =~= a.drop_first() + b);
        lemma_count_concat(a.drop_first(), b, step);
    }
}

/// How many times `step` occurs in one call of the hook.
spec fn one_call_count(stage: HookStage, con_debug_on: bool, step: HookStep) -> nat {
    match (stage, step) {
        (HookStage::Primary, HookStep::ClearConDebugFlag) => if con_debug_on { 2nat } else { 0nat },
        (HookStage::Primary, HookStep::InstallSecondary) => if con_debug_on { 1nat } else { 0nat },
        (HookStage::Primary, HookStep::RemoveHook) => if con_debug_on { 0nat } else { 1nat },
        (HookStage::Primary, HookStep::Forward) => if con_debug_on { 1nat } else { 0nat },
        (HookStage::Secondary, HookStep::Forward) => 1nat,
        (_, HookStep::CallOriginal) => 1nat,
        _ => 0nat,
    }
}

proof fn lemma_count_one_call(stage: HookStage, con_debug_on: bool, step: HookStep)
    ensures
        count_step(print_hook_spec(stage, con_debug_on).1, step) == one_call_count(
            stage,
            con_debug_on,
            step,
        ),
{
    reveal_with_fuel(count_step, 6);
    let s = print_hook_spec(stage, con_debug_on).1;
    if s.len() == 5 {
        assert(s.drop_first() =~= seq![
            HookStep::InstallSecondary,
            HookStep::Forward,
            HookStep::ClearConDebugFlag,
            HookStep::CallOriginal,
        ]);
        assert(s.drop_first().drop_first() =~= seq![
            HookStep::Forward,
            HookStep::ClearConDebugFlag,
            HookStep::CallOriginal,
        ]);
        assert(s.drop_first().drop_first().drop_first() =~= seq![
            HookStep::ClearConDebugFlag,
            HookStep::CallOriginal,
        ]);
        assert(s.drop_first().drop_first().drop_first().drop_first() =~= seq![
            HookStep::CallOriginal,
        ]);
        assert(s.drop_first().drop_first().drop_first().drop_first().drop_first() =~= seq![]);
    } else if s.len() == 2 {
        assert(s.drop_first() =~= seq![HookStep::CallOriginal]);
        assert(s.drop_first().drop_first() =~= seq![]);
    } else {
        assert(s.drop_first() =~= seq![]);
    }
}

/// Over calls after the first, the installed hook stays, and each call does one step
/// of kind `step` when the hook forwards and `step` is `Forward`, or when `step` is
/// `CallOriginal`, and none otherwise.
proof fn lemma_settled_run(stage: HookStage, flags: Seq<bool>, step: HookStep)
    requires
        stage == HookStage::Secondary || stage == HookStage::Removed,
    ensures
        hook_run(stage, flags).0 == stage,
        count_step(hook_run(stage, flags).1, step) == if step == HookStep::CallOriginal || (
        step == HookStep::Forward && stage == HookStage::Secondary) {
            flags.len()
        } else {
            0nat
        },
    decreases flags.len(),
{
    if flags.len() > 0 {
        lemma_settled_run(stage, flags.drop_first(), step);
        lemma_count_one_call(stage, flags[0], step);
        lemma_count_concat(
            print_hook_spec(stage, flags[0]).1,
            hook_run(stage, flags.drop_first()).1,
            step,
        );
    }
}

/// With `-condebug` on (the first call sees the flag set): over any number of calls,
/// every message is forwarded once and the original print runs once per call; the
/// forwarding hook is installed once, on the first call, and stays; the debug-log flag
/// is cleared only during the first call, and that call clears it before anything else.
pub proof fn law_print_hook_with_condebug(flags: Seq<bool>)
    requires
        flags.len() > 0,
        flags[0],
    ensures
        hook_run(HookStage::Primary, flags).0 == HookStage::Secondary,
        count_step(hook_run(HookStage::Primary, flags).1, HookStep::Forward) == flags.len(),
        count_step(hook_run(HookStage::Primary, flags).1, HookStep::CallOriginal) == flags.len(),
        count_step(hook_run(HookStage::Primary, flags).1, HookStep::InstallSecondary) == 1,
        count_step(hook_run(HookStage::Primary, flags).1, HookStep::RemoveHook) == 0,
        count_step(hook_run(HookStage::Primary, flags).1, HookStep::ClearConDebugFlag) == 2,
        hook_run(HookStage::Primary, flags).1[0] == HookStep::ClearConDebugFlag,
{
    let first = print_hook_spec(HookStage::Primary, true).1;
    let rest = hook_run(HookStage::Secondary, flags.drop_first()).1;
    assert(hook_run(HookStage::Primary, flags).1 == first + rest);
    assert forall|step: HookStep| #[trigger]
        count_step(hook_run(HookStage::Primary, flags).1, step) == one_call_count(
            HookStage::Primary,
            true,
            step,
        ) + count_step(rest, step) by {
        lemma_count_one_call(HookStage::Primary, true, step);
        lemma_count_concat(first, rest, step);
    }
    lemma_settled_run(HookStage::Secondary, flags.drop_first(), HookStep::Forward);
    lemma_settled_run(HookStage::Secondary, flags.drop_first(), HookStep::CallOriginal);
    lemma_settled_run(HookStage::Secondary, flags.drop_first(), HookStep::InstallSecondary);
    lemma_settled_run(HookStage::Secondary, flags.drop_first(), HookStep::RemoveHook);
    lemma_settled_run(HookStage::Secondary, flags.drop_first(), HookStep::ClearConDebugFlag);
}

/// With `-condebug` off (the first call sees the flag clear), the module does nothing:
/// over any number of calls no message is forwarded and the flag is never touched; the
/// first call removes the hook, and every call runs the original print once.
pub proof fn law_print_hook_without_condebug(flags: Seq<bool>)
    requires
        flags.len() > 0,
        !flags[0],
    ensures
        hook_run(HookStage::Primary, flags).0 == HookStage::Removed,
        count_step(hook_run(HookStage::Primary, flags).1, HookStep::Forward) == 0,
        count_step(hook_run(HookStage::Primary, flags).1, HookStep::ClearConDebugFlag) == 0,
        count_step(hook_run(HookStage::Primary, flags).1, HookStep::InstallSecondary) == 0,
        count_step(hook_run(HookStage::Primary, flags).1, HookStep::RemoveHook) == 1,
        count_step(hook_run(HookStage::Primary, flags).1, HookStep::CallOriginal) == flags.len(),
{
    let first = print_hook_spec(HookStage::Primary, false).1;
    let rest = hook_run(HookStage::Removed, flags.drop_first()).1;
    assert(hook_run(HookStage::Primary, flags).1 == first + rest);
    assert forall|step: HookStep| #[trigger]
        count_step(hook_run(HookStage::Primary, flags).1, step) == one_call_count(
            HookStage::Primary,
            false,
            step,
        ) + count_step(rest, step) by {
        lemma_count_one_call(HookStage::Primary, false, step);
        lemma_count_concat(first, rest, step);
    }
    lemma_settled_run(HookStage::Removed, flags.drop_first(), HookStep::Forward);
    lemma_settled_run(HookStage::Removed, flags.drop_first(), HookStep::CallOriginal);
    lemma_settled_run(HookStage::Removed, flags.drop_first(), HookStep::InstallSecondary);
    lemma_settled_run(HookStage::Removed, flags.drop_first(), HookStep::RemoveHook);
    lemma_settled_run(HookStage::Removed, flags.drop_first(), HookStep::ClearConDebugFlag);
}

/// The state of the Linux print hook.
pub struct PrintHook {
    stage: HookStage,
}

impl PrintHook {
    /// The installed stage.
    pub closed spec fn stage_view(&self) -> HookStage {
        self.stage
    }

    /// The hook as installed at load time.
    pub fn new() -> (h: PrintHook)
        ensures
            h.stage_view() == HookStage::Primary,
    {
        PrintHook { stage: HookStage::Primary }
    }

    /// The installed stage.
    pub fn stage(&self) -> (s: HookStage)
        ensures
            s == self.stage_view(),
    {
        self.stage
    }

    /// The steps of one call of the hook, in order, given the value of the console's
    /// debug-log flag when the call starts; the hook moves to its next stage.
    pub fn on_print(&mut self, con_debug_on: bool) -> (steps: Vec<HookStep>)
        ensures
            (final(self).stage_view(), steps@) == print_hook_spec(
                old(self).stage_view(),
                con_debug_on,
            ),
    {
        let mut steps: Vec<HookStep> = Vec::new();
        match self.stage {
            HookStage::Primary => {
                if con_debug_on {
                    steps.push(HookStep::ClearConDebugFlag);
                    steps.push(HookStep::InstallSecondary);
                    steps.push(HookStep::Forward);
                    steps.push(HookStep::ClearConDebugFlag);
                    steps.push(HookStep::CallOriginal);
                    self.stage = HookStage::Secondary;
                } else {
                    steps.push(HookStep::RemoveHook);
                    steps.push(HookStep::CallOriginal);
                    self.stage = HookStage::Removed;
                }
            },
            HookStage::Secondary => {
                steps.push(HookStep::Forward);
                steps.push(HookStep::CallOriginal);
            },
            HookStage::Removed => {
                steps.push(HookStep::CallOriginal);
            },
        }
        assert(steps@ =~= print_hook_spec(old(self).stage_view(), con_debug_on).1);
        steps
    }
}

} // verus!
