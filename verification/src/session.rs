//! A whole lifecycle in one piece: setup, one update per frame, shutdown —
//! with the laws that hold of every such run.

use crate::logging::{LogLine, LogLineView};
use crate::plugin::{setup_log_view, shutdown_log_view, tick_failure, tick_log_view, Plugin};
use crate::script::{module_plan_wf, ScriptModulePlan};
use vstd::prelude::*;

verus! {

/// The lines one tick contributes to the session's log stream: none on
/// success, exactly one error line on failure.
pub open spec fn one_tick_logs(tag: Seq<char>, failure: Option<Seq<char>>) -> Seq<LogLineView> {
    match tick_log_view(tag, failure) {
        None => Seq::empty(),
        Some(l) => seq![l],
    }
}

/// The error lines a sequence of ticks contributes, in tick order.
pub open spec fn tick_error_logs(tag: Seq<char>, ticks: Seq<Option<Seq<char>>>) -> Seq<
    LogLineView,
>
    decreases ticks.len(),
{
    if ticks.len() == 0 {
        Seq::empty()
    } else {
        one_tick_logs(tag, ticks[0]) + tick_error_logs(tag, ticks.drop_first())
    }
}

/// Every line of a full session, in order: the setup line, one error line per
/// failing tick, then the shutdown line.
pub open spec fn session_logs(tag: Seq<char>, ticks: Seq<Option<Seq<char>>>) -> Seq<LogLineView> {
    seq![setup_log_view(tag)] + tick_error_logs(tag, ticks) + seq![shutdown_log_view(tag)]
}

/// Abstract image of a recorded run: each tick's callback outcome.
pub open spec fn ticks_view(ticks: Seq<Result<(), String>>) -> Seq<Option<Seq<char>>> {
    ticks.map_values(|t: Result<(), String>| tick_failure(t))
}

/// What a full run leaves behind: the registration plan installed during
/// setup and every log line, in order.
pub struct SessionTrace {
    pub plan: ScriptModulePlan,
    pub logs: Vec<LogLine>,
}

/// Appending one tick appends exactly that tick's lines.
proof fn lemma_tick_error_logs_snoc(
    tag: Seq<char>,
    ticks: Seq<Option<Seq<char>>>,
    last: Option<Seq<char>>,
)
    ensures
        tick_error_logs(tag, ticks.push(last)) == tick_error_logs(tag, ticks) + one_tick_logs(
            tag,
            last,
        ),
    decreases ticks.len(),
{
    let snoc = ticks.push(last);
    assert(snoc[0] == if ticks.len() == 0 {
        last
    } else {
        ticks[0]
    });
    if ticks.len() == 0 {
        assert(snoc.drop_first() =~= Seq::<Option<Seq<char>>>::empty());
        assert(tick_error_logs(tag, snoc) == one_tick_logs(tag, last) + tick_error_logs(
            tag,
            Seq::<Option<Seq<char>>>::empty(),
        ));
        assert(tick_error_logs(tag, snoc) =~= tick_error_logs(tag, ticks) + one_tick_logs(
            tag,
            last,
        ));
    } else {
        assert(snoc.drop_first() =~= ticks.drop_first().push(last));
        lemma_tick_error_logs_snoc(tag, ticks.drop_first(), last);
        assert(tick_error_logs(tag, snoc) == one_tick_logs(tag, ticks[0]) + (tick_error_logs(
            tag,
            ticks.drop_first(),
        ) + one_tick_logs(tag, last)));
        assert(tick_error_logs(tag, snoc) =~= tick_error_logs(tag, ticks) + one_tick_logs(
            tag,
            last,
        ));
    }
}

impl Plugin {
    /// Runs one whole lifecycle: setup, one `update_game` per recorded
    /// callback outcome, shutdown. It has no precondition and returns
    /// normally on every input: a run never fails, whatever the presence
    /// client did on each frame.
    pub fn run_session(&self, ticks: &Vec<Result<(), String>>) -> (t: SessionTrace)
        ensures
            module_plan_wf(t.plan),
            t.logs.deep_view() == session_logs(self.tag@, ticks_view(ticks@)),
    {
        let setup = self.setup_game();
        let mut logs: Vec<LogLine> = Vec::new();
        logs.push(setup.log);
        proof {
            assert(logs.deep_view() =~= seq![setup_log_view(self.tag@)] + tick_error_logs(
                self.tag@,
                ticks_view(ticks@.take(0)),
            ));
        }
        let mut i: usize = 0;
        while i < ticks.len()
            invariant
                i <= ticks@.len(),
                logs.deep_view() == seq![setup_log_view(self.tag@)] + tick_error_logs(
                    self.tag@,
                    ticks_view(ticks@.take(i as int)),
                ),
            decreases ticks@.len() - i,
        {
            let ghost logs_before = logs.deep_view();
            let line = self.update_game(&ticks[i]);
            match line {
                Some(l) => {
                    logs.push(l);
                    proof {
                        assert(logs.deep_view() =~= logs_before + one_tick_logs(
                            self.tag@,
                            tick_failure(ticks@[i as int]),
                        ));
                    }
                },
                None => {
                    proof {
                        assert(logs.deep_view() =~= logs_before + one_tick_logs(
                            self.tag@,
                            tick_failure(ticks@[i as int]),
                        ));
                    }
                },
            }
            proof {
                assert(ticks_view(ticks@.take(i + 1)) =~= ticks_view(ticks@.take(i as int)).push(
                    tick_failure(ticks@[i as int]),
                ));
                lemma_tick_error_logs_snoc(
                    self.tag@,
                    ticks_view(ticks@.take(i as int)),
                    tick_failure(ticks@[i as int]),
                );
                assert(logs.deep_view() =~= seq![setup_log_view(self.tag@)] + tick_error_logs(
                    self.tag@,
                    ticks_view(ticks@.take(i + 1)),
                ));
            }
            i += 1;
        }
        let shutdown = self.shutdown_game();
        logs.push(shutdown);
        proof {
            assert(ticks@.take(ticks@.len() as int) =~= ticks@);
            assert(logs.deep_view() =~= session_logs(self.tag@, ticks_view(ticks@)));
        }
        SessionTrace { plan: setup.plan, logs }
    }
}

/// Law: a session's log stream is never cut short — it begins with the setup
/// line and ends with the shutdown line, whatever each tick's outcome was.
pub proof fn lemma_session_complete(tag: Seq<char>, ticks: Seq<Option<Seq<char>>>)
    ensures
        session_logs(tag, ticks).len() >= 2,
        session_logs(tag, ticks).first() == setup_log_view(tag),
        session_logs(tag, ticks).last() == shutdown_log_view(tag),
{
}

/// Law: what shutting down observes is one info line that depends on the
/// plugin's tag alone — the same after any two histories of ticks.
pub proof fn lemma_shutdown_history_independent(
    tag: Seq<char>,
    ticks1: Seq<Option<Seq<char>>>,
    ticks2: Seq<Option<Seq<char>>>,
)
    ensures
        session_logs(tag, ticks1).last() == session_logs(tag, ticks2).last(),
        session_logs(tag, ticks1).last() == shutdown_log_view(tag),
        session_logs(tag, ticks1).last().level is Info,
{
    lemma_session_complete(tag, ticks1);
    lemma_session_complete(tag, ticks2);
}

/// How many ticks failed.
pub open spec fn count_failures(ticks: Seq<Option<Seq<char>>>) -> nat
    decreases ticks.len(),
{
    if ticks.len() == 0 {
        0
    } else {
        (if ticks[0] is Some {
            1nat
        } else {
            0nat
        }) + count_failures(ticks.drop_first())
    }
}

/// How many lines carry error severity.
pub open spec fn count_error_lines(logs: Seq<LogLineView>) -> nat
    decreases logs.len(),
{
    if logs.len() == 0 {
        0
    } else {
        (if logs[0].level is Error {
            1nat
        } else {
            0nat
        }) + count_error_lines(logs.drop_first())
    }
}

proof fn lemma_count_error_lines_single(l: LogLineView)
    ensures
        count_error_lines(seq![l]) == (if l.level is Error {
            1nat
        } else {
            0nat
        }),
{
    assert(seq![l][0] == l);
    assert(seq![l].drop_first() =~= Seq::<LogLineView>::empty());
    assert(count_error_lines(Seq::<LogLineView>::empty()) == 0);
    assert(count_error_lines(seq![l]) == (if l.level is Error {
        1nat
    } else {
        0nat
    }) + count_error_lines(seq![l].drop_first()));
}

proof fn lemma_count_error_lines_concat(a: Seq<LogLineView>, b: Seq<LogLineView>)
    ensures
        count_error_lines(a + b) == count_error_lines(a) + count_error_lines(b),
    decreases a.len(),
{
    if a.len() == 0 {
        assert(a + b =~= b);
    } else {
        assert((a + b).drop_first() =~= a.drop_first() + b);
        lemma_count_error_lines_concat(a.drop_first(), b);
    }
}

proof fn lemma_tick_error_logs_count(tag: Seq<char>, ticks: Seq<Option<Seq<char>>>)
    ensures
        count_error_lines(tick_error_logs(tag, ticks)) == count_failures(ticks),
    decreases ticks.len(),
{
    if ticks.len() == 0 {
    } else {
        lemma_count_error_lines_concat(
            one_tick_logs(tag, ticks[0]),
            tick_error_logs(tag, ticks.drop_first()),
        );
        lemma_tick_error_logs_count(tag, ticks.drop_first());
        match ticks[0] {
            None => {
                assert(one_tick_logs(tag, ticks[0]) =~= Seq::<LogLineView>::empty());
                assert(count_error_lines(one_tick_logs(tag, ticks[0])) == 0);
            },
            Some(d) => {
                let line = crate::plugin::update_failure_log_view(tag, d);
                assert(one_tick_logs(tag, ticks[0]) =~= seq![line]);
                lemma_count_error_lines_single(line);
                assert(line.level is Error);
                assert(count_error_lines(one_tick_logs(tag, ticks[0])) == 1);
            },
        }
    }
}

/// Law: a session emits exactly one error-severity line per failing tick and
/// none otherwise — the setup and shutdown lines carry info severity.
pub proof fn lemma_one_error_line_per_failing_tick(tag: Seq<char>, ticks: Seq<Option<Seq<char>>>)
    ensures
        count_error_lines(session_logs(tag, ticks)) == count_failures(ticks),
{
    let head = seq![setup_log_view(tag)];
    let mid = tick_error_logs(tag, ticks);
    let tail = seq![shutdown_log_view(tag)];
    lemma_count_error_lines_concat(head + mid, tail);
    lemma_count_error_lines_concat(head, mid);
    lemma_tick_error_logs_count(tag, ticks);
    lemma_count_error_lines_single(setup_log_view(tag));
    lemma_count_error_lines_single(shutdown_log_view(tag));
    assert(count_error_lines(head) == 0);
    assert(count_error_lines(tail) == 0);
}

} // verus!
