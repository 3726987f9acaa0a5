use vstd::prelude::*;
use vstd::string::*;

use crate::text::{lower_of, lowercase, trim, trimmed};

verus! {

/// The question asked before the cache is removed; the answer is yes unless
/// it is `n`.
pub const REMOVAL_QUESTION: &'static str = "clear Cache folder for aura? (Y/n): ";

/// The program that reports the size of the cache.
pub const USAGE_PROGRAM: &'static str = "du";

/// The arguments of the size report: one human-readable total.
pub const USAGE_FLAGS: &'static str = "-sh";

/// The program that removes the cache.
pub const REMOVE_PROGRAM: &'static str = "rm";

/// The arguments of the removal: recursive and forced.
pub const REMOVE_FLAGS: &'static str = "-rf";

/// The answer that declines, once trimmed and in lower case.
pub open spec fn is_declined(folded: Seq<char>) -> bool {
    folded == seq!['n']
}

/// The reply `line` to the removal question agrees to the removal.
pub open spec fn agrees(line: Seq<char>) -> bool {
    !is_declined(lower_of(trimmed(line)))
}

/// Whether the trimmed, lower-case answer `folded` declines the removal.
pub fn is_decline(folded: &str) -> (r: bool)
    ensures
        r == is_declined(folded@),
{
    if folded.unicode_len() == 1 && folded.get_char(0) == 'n' {
        assert(folded@ =~= seq!['n']);
        true
    } else {
        false
    }
}

/// The reply `line` to the removal question, trimmed and in lower case.
pub fn folded_reply(line: &str) -> (r: String)
    ensures
        r@ == lower_of(trimmed(line@)),
{
    let t = trim(line);
    lowercase(t.as_str())
}

/// Whether the reply `line` to the removal question agrees to the removal:
/// every reply does but `n`, in either case, with white space around it.
pub fn confirms_removal(line: &str) -> (r: bool)
    ensures
        r == agrees(line@),
{
    let folded = folded_reply(line);
    !is_decline(folded.as_str())
}

/// A step of the cleanup flow. Each step but the last two is an action that
/// the caller performs and then reports on.
#[derive(Debug, Clone, Copy, PartialEq, Eq)]
pub enum CleanStep {
    /// Look for the cache root; reports whether it exists.
    CheckRoot,
    /// Say that there is no cache to clean; reports nothing of use.
    NothingToClean,
    /// Run the disk-usage report on the cache root; reports whether it could
    /// be started and waited on.
    ShowUsage,
    /// Ask the removal question and read one line; the line goes to
    /// `Cleanup::answer`, a failure to read it to `Cleanup::advance(false)`.
    Ask,
    /// Remove the cache root recursively; reports whether the removal could be
    /// started and waited on.
    Remove,
    /// Say that the cache root was removed; reports nothing of use.
    ReportRemoved,
    /// The flow is over and succeeded.
    Finish,
    /// The flow is over and failed.
    Fail,
}

/// The step that follows `step` when the caller reports `ok`; at `Ask`, `ok`
/// says that the removal was agreed to.
pub open spec fn clean_next(step: CleanStep, ok: bool) -> CleanStep {
    match step {
        CleanStep::CheckRoot => if ok {
            CleanStep::ShowUsage
        } else {
            CleanStep::NothingToClean
        },
        CleanStep::NothingToClean => CleanStep::Finish,
        CleanStep::ShowUsage => if ok {
            CleanStep::Ask
        } else {
            CleanStep::Fail
        },
        CleanStep::Ask => if ok {
            CleanStep::Remove
        } else {
            CleanStep::Finish
        },
        CleanStep::Remove => if ok {
            CleanStep::ReportRemoved
        } else {
            CleanStep::Fail
        },
        CleanStep::ReportRemoved => CleanStep::Finish,
        CleanStep::Finish => CleanStep::Finish,
        CleanStep::Fail => CleanStep::Fail,
    }
}

/// The steps that follow `step`, one for each report in `reports`.
pub open spec fn clean_trace(step: CleanStep, reports: Seq<bool>) -> Seq<CleanStep>
    decreases reports.len(),
{
    if reports.len() == 0 {
        Seq::empty()
    } else {
        let s = clean_next(step, reports[0]);
        seq![s] + clean_trace(s, reports.drop_first())
    }
}

/// The step that follows `step` when the caller reports `ok`.
pub fn next_clean_step(step: CleanStep, ok: bool) -> (r: CleanStep)
    ensures
        r == clean_next(step, ok),
{
    match step {
        CleanStep::CheckRoot => if ok {
            CleanStep::ShowUsage
        } else {
            CleanStep::NothingToClean
        },
        CleanStep::NothingToClean => CleanStep::Finish,
        CleanStep::ShowUsage => if ok {
            CleanStep::Ask
        } else {
            CleanStep::Fail
        },
        CleanStep::Ask => if ok {
            CleanStep::Remove
        } else {
            CleanStep::Finish
        },
        CleanStep::Remove => if ok {
            CleanStep::ReportRemoved
        } else {
            CleanStep::Fail
        },
        CleanStep::ReportRemoved => CleanStep::Finish,
        CleanStep::Finish => CleanStep::Finish,
        CleanStep::Fail => CleanStep::Fail,
    }
}

/// The cleanup flow of the cache root.
pub struct Cleanup {
    /// The cache root.
    pub root: String,
    /// Where the flow stands.
    pub step: CleanStep,
}

impl Cleanup {
    /// The flow for the cache root `root`, at its first step.
    pub fn new(root: &str) -> (r: Cleanup)
        ensures
            r.root@ == root@,
            r.step == CleanStep::CheckRoot,
    {
        Cleanup { root: String::from_str(root), step: CleanStep::CheckRoot }
    }

    /// Takes the report `ok` on the current step and moves to the next one.
    /// At `Ask` the report is whether the reply could be read: a failure ends
    /// the flow, and a reply that was read goes to `answer`.
    pub fn advance(&mut self, ok: bool)
        ensures
            final(self).root == old(self).root,
            final(self).step == (if old(self).step == CleanStep::Ask {
                if ok {
                    CleanStep::Ask
                } else {
                    CleanStep::Fail
                }
            } else {
                clean_next(old(self).step, ok)
            }),
    {
        if let CleanStep::Ask = self.step {
            if ok {
                return ;
            }
            self.step = CleanStep::Fail;
        } else {
            self.step = next_clean_step(self.step, ok);
        }
    }

    /// Takes the reply `line` to the removal question.
    pub fn answer(&mut self, line: &str)
        requires
            old(self).step == CleanStep::Ask,
        ensures
            final(self).root == old(self).root,
            final(self).step == clean_next(CleanStep::Ask, agrees(line@)),
    {
        let yes = confirms_removal(line);
        self.step = next_clean_step(self.step, yes);
    }

    /// Whether the flow is over.
    pub fn is_over(&self) -> (r: bool)
        ensures
            r == (self.step == CleanStep::Finish || self.step == CleanStep::Fail),
    {
        match self.step {
            CleanStep::Finish | CleanStep::Fail => true,
            _ => false,
        }
    }
}

/// Once over, the flow stays over with the same outcome.
pub proof fn lemma_clean_end_is_final(step: CleanStep, reports: Seq<bool>)
    requires
        step == CleanStep::Finish || step == CleanStep::Fail,
    ensures
        clean_trace(step, reports).len() == reports.len(),
        forall|i: int| 0 <= i < reports.len() ==> #[trigger] clean_trace(step, reports)[i] == step,
    decreases reports.len(),
{
    if reports.len() > 0 {
        lemma_clean_end_is_final(step, reports.drop_first());
        let rest = clean_trace(step, reports.drop_first());
        let t = clean_trace(step, reports);
        assert(t == seq![step] + rest);
        assert forall|i: int| 0 <= i < reports.len() implies #[trigger] t[i] == step by {
            if i > 0 {
                assert(t[i] == rest[i - 1]);
            }
        }
    }
}

/// Without a cache root the flow says so and ends in success, and it never
/// asks the removal question nor removes anything.
pub proof fn lemma_missing_root_never_asks(reports: Seq<bool>)
    ensures
        clean_next(CleanStep::CheckRoot, false) == CleanStep::NothingToClean,
        forall|i: int|
            0 <= i < reports.len() ==> {
                let s = #[trigger] clean_trace(CleanStep::NothingToClean, reports)[i];
                s == CleanStep::Finish
            },
{
    if reports.len() > 0 {
        lemma_clean_end_is_final(CleanStep::Finish, reports.drop_first());
        let rest = clean_trace(CleanStep::Finish, reports.drop_first());
        let t = clean_trace(CleanStep::NothingToClean, reports);
        assert(t == seq![CleanStep::Finish] + rest);
        assert forall|i: int| 0 <= i < reports.len() implies #[trigger] t[i]
            == CleanStep::Finish by {
            if i > 0 {
                assert(t[i] == rest[i - 1]);
            }
        }
    }
}

/// The reply to the removal question leads to the removal unless, trimmed and
/// in lower case, it is `n`; a declined removal ends the flow in success and
/// nothing is removed after it.
pub proof fn lemma_reply_decides_removal(line: Seq<char>, reports: Seq<bool>)
    ensures
        (clean_next(CleanStep::Ask, agrees(line)) == CleanStep::Remove) <==> lower_of(
            trimmed(line),
        ) != seq!['n'],
        lower_of(trimmed(line)) == seq!['n'] ==> clean_next(CleanStep::Ask, agrees(line))
            == CleanStep::Finish,
        forall|i: int|
            0 <= i < reports.len() ==> #[trigger] clean_trace(CleanStep::Finish, reports)[i]
                != CleanStep::Remove,
{
    lemma_clean_end_is_final(CleanStep::Finish, reports);
}

} // verus!
