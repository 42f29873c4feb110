//! Statistics of the JIT runtime: how many executions ran compiled code or
//! the interpreter, for how long, and when each function first ran compiled.
use vstd::prelude::*;
use crate::formal_verification::core_types::same_text;
use crate::time::{Duration, Instant, MAX_NANOS};

verus! {

/// When `name` first ran compiled code, according to `entries`.
pub open spec fn first_compiled(entries: Seq<(String, Instant)>, name: Seq<char>) -> Option<Instant>
    decreases entries.len(),
{
    if entries.len() == 0 {
        None
    } else if entries[0].0@ == name {
        Some(entries[0].1)
    } else {
        first_compiled(entries.drop_first(), name)
    }
}

proof fn lemma_first_compiled_push(entries: Seq<(String, Instant)>, e: (String, Instant), n: Seq<char>)
    requires
        first_compiled(entries, e.0@) is None,
    ensures
        first_compiled(entries.push(e), n) == if n == e.0@ {
            Some(e.1)
        } else {
            first_compiled(entries, n)
        },
    decreases entries.len(),
{
    let p = entries.push(e);
    if entries.len() == 0 {
        assert(p.drop_first() =~= Seq::<(String, Instant)>::empty());
        assert(p[0] == e);
        assert(first_compiled(p.drop_first(), n) is None);
    } else {
        assert(entries[0].0@ != e.0@);
        lemma_first_compiled_push(entries.drop_first(), e, n);
        assert(p.drop_first() =~= entries.drop_first().push(e));
        assert(p[0] == entries[0]);
        if entries[0].0@ == n {
            assert(first_compiled(p, n) == Some(entries[0].1));
        } else {
            assert(first_compiled(p, n) == first_compiled(entries.drop_first().push(e), n));
        }
    }
}

proof fn lemma_first_compiled_absent(entries: Seq<(String, Instant)>, n: Seq<char>, i: int)
    requires
        0 <= i <= entries.len(),
        forall|j: int| 0 <= j < i ==> entries[j].0@ != n,
        first_compiled(entries.subrange(i, entries.len() as int), n) is None,
    ensures
        first_compiled(entries, n) is None,
    decreases i,
{
    if i > 0 {
        let s = entries.subrange(i - 1, entries.len() as int);
        assert(s.drop_first() =~= entries.subrange(i, entries.len() as int));
        assert(s[0] == entries[i - 1]);
        lemma_first_compiled_absent(entries, n, i - 1);
    } else {
        assert(entries.subrange(0, entries.len() as int) =~= entries);
    }
}

/// Runtime statistics for the JIT system.
#[derive(Debug, Clone)]
pub struct JitRuntimeStats {
    /// Total executions
    pub total_executions: u64,
    /// Executions using compiled code
    pub compiled_executions: u64,
    /// Executions using interpreter
    pub interpreted_executions: u64,
    /// Total execution time
    pub total_execution_time: Duration,
    /// Execution time using compiled code
    pub compiled_execution_time: Duration,
    /// Execution time using interpreter
    pub interpreted_execution_time: Duration,
    /// Functions with compiled code, with the time each first ran compiled
    pub compiled_functions: Vec<(String, Instant)>,
}

impl JitRuntimeStats {
    /// Every execution is counted once, as compiled or as interpreted, and
    /// likewise its time.
    pub open spec fn consistent(&self) -> bool {
        &&& self.total_executions == self.compiled_executions + self.interpreted_executions
        &&& self.total_execution_time@ == self.compiled_execution_time@ + self.interpreted_execution_time@
    }

    /// Statistics with nothing recorded.
    pub fn new() -> (s: Self)
        ensures
            s.consistent(),
            s.total_executions == 0,
            s.compiled_executions == 0,
            s.interpreted_executions == 0,
            s.total_execution_time@ == 0,
            s.compiled_execution_time@ == 0,
            s.interpreted_execution_time@ == 0,
            s.compiled_functions@.len() == 0,
    {
        JitRuntimeStats {
            total_executions: 0,
            compiled_executions: 0,
            interpreted_executions: 0,
            total_execution_time: Duration::zero(),
            compiled_execution_time: Duration::zero(),
            interpreted_execution_time: Duration::zero(),
            compiled_functions: Vec::new(),
        }
    }

    /// Records one execution of `identifier` taking `execution_time`, made at
    /// `now`: the totals grow, as do the compiled or the interpreted counts,
    /// and a function running compiled code for the first time is noted with
    /// `now`.
    pub fn record_execution_at(&mut self, identifier: &str, execution_time: Duration, used_compiled_code: bool, now: Instant)
        requires
            old(self).total_executions < u64::MAX,
            old(self).total_execution_time@ + execution_time@ <= MAX_NANOS,
            used_compiled_code ==> old(self).compiled_executions < u64::MAX
                && old(self).compiled_execution_time@ + execution_time@ <= MAX_NANOS,
            !used_compiled_code ==> old(self).interpreted_executions < u64::MAX
                && old(self).interpreted_execution_time@ + execution_time@ <= MAX_NANOS,
        ensures
            final(self).total_executions == old(self).total_executions + 1,
            final(self).total_execution_time@ == old(self).total_execution_time@ + execution_time@,
            used_compiled_code ==> final(self).compiled_executions == old(self).compiled_executions + 1
                && final(self).compiled_execution_time@ == old(self).compiled_execution_time@ + execution_time@
                && final(self).interpreted_executions == old(self).interpreted_executions
                && final(self).interpreted_execution_time == old(self).interpreted_execution_time,
            !used_compiled_code ==> final(self).interpreted_executions == old(self).interpreted_executions + 1
                && final(self).interpreted_execution_time@ == old(self).interpreted_execution_time@ + execution_time@
                && final(self).compiled_executions == old(self).compiled_executions
                && final(self).compiled_execution_time == old(self).compiled_execution_time
                && final(self).compiled_functions@ == old(self).compiled_functions@,
            forall|n: Seq<char>| #[trigger] first_compiled(final(self).compiled_functions@, n) == if used_compiled_code && n
                == identifier@ && first_compiled(old(self).compiled_functions@, n) is None {
                Some(now)
            } else {
                first_compiled(old(self).compiled_functions@, n)
            },
            old(self).consistent() ==> final(self).consistent(),
    {
        self.total_executions = self.total_executions + 1;
        self.total_execution_time = self.total_execution_time.add(execution_time);
        if used_compiled_code {
            self.compiled_executions = self.compiled_executions + 1;
            self.compiled_execution_time = self.compiled_execution_time.add(execution_time);
            let ghost entries = self.compiled_functions@;
            let mut i: usize = 0;
            let mut found = false;
            while i < self.compiled_functions.len()
                invariant
                    i <= self.compiled_functions@.len(),
                    self.compiled_functions@ == entries,
                    forall|j: int| 0 <= j < i ==> entries[j].0@ != identifier@,
                    found ==> i < entries.len() && entries[i as int].0@ == identifier@,
                ensures
                    i <= entries.len(),
                    forall|j: int| 0 <= j < i ==> entries[j].0@ != identifier@,
                    found ==> i < entries.len() && entries[i as int].0@ == identifier@,
                    !found ==> i == entries.len(),
                decreases self.compiled_functions@.len() - i,
            {
                if same_text(&self.compiled_functions[i].0, identifier) {
                    found = true;
                    break;
                }
                i = i + 1;
            }
            if !found {
                proof {
                    assert(entries.subrange(entries.len() as int, entries.len() as int) =~= Seq::<(String, Instant)>::empty());
                    lemma_first_compiled_absent(entries, identifier@, entries.len() as int);
                }
                let name = String::from_str(identifier);
                let ghost e = (name, now);
                proof {
                    assert forall|n: Seq<char>| #[trigger] first_compiled(entries.push(e), n) == if n == identifier@ {
                        Some(now)
                    } else {
                        first_compiled(entries, n)
                    } by {
                        lemma_first_compiled_push(entries, e, n);
                    }
                }
                self.compiled_functions.push((name, now));
            } else {
                proof {
                    lemma_first_compiled_prefix(entries, identifier@, i as int);
                }
            }
        } else {
            self.interpreted_executions = self.interpreted_executions + 1;
            self.interpreted_execution_time = self.interpreted_execution_time.add(execution_time);
        }
    }

    /// Records one execution at the current clock reading; see
    /// `record_execution_at`.
    pub fn record_execution(&mut self, identifier: &str, execution_time: Duration, used_compiled_code: bool)
        requires
            old(self).total_executions < u64::MAX,
            old(self).total_execution_time@ + execution_time@ <= MAX_NANOS,
            used_compiled_code ==> old(self).compiled_executions < u64::MAX
                && old(self).compiled_execution_time@ + execution_time@ <= MAX_NANOS,
            !used_compiled_code ==> old(self).interpreted_executions < u64::MAX
                && old(self).interpreted_execution_time@ + execution_time@ <= MAX_NANOS,
        ensures
            final(self).total_executions == old(self).total_executions + 1,
            final(self).total_execution_time@ == old(self).total_execution_time@ + execution_time@,
            used_compiled_code ==> final(self).compiled_executions == old(self).compiled_executions + 1
                && final(self).interpreted_executions == old(self).interpreted_executions
                && first_compiled(final(self).compiled_functions@, identifier@) is Some,
            !used_compiled_code ==> final(self).interpreted_executions == old(self).interpreted_executions + 1
                && final(self).compiled_executions == old(self).compiled_executions
                && final(self).compiled_functions@ == old(self).compiled_functions@,
            forall|n: Seq<char>|
                first_compiled(old(self).compiled_functions@, n) is Some ==> #[trigger] first_compiled(
                    final(self).compiled_functions@,
                    n,
                ) == first_compiled(old(self).compiled_functions@, n),
            old(self).consistent() ==> final(self).consistent(),
    {
        let now = Instant::now();
        self.record_execution_at(identifier, execution_time, used_compiled_code, now);
    }
}

proof fn lemma_first_compiled_prefix(entries: Seq<(String, Instant)>, n: Seq<char>, i: int)
    requires
        0 <= i < entries.len(),
        entries[i].0@ == n,
        forall|j: int| 0 <= j < i ==> entries[j].0@ != n,
    ensures
        first_compiled(entries, n) == Some(entries[i].1),
    decreases i,
{
    if i > 0 {
        assert forall|j: int| 0 <= j < i - 1 implies entries.drop_first()[j].0@ != n by {
            assert(entries.drop_first()[j] == entries[j + 1]);
        }
        assert(entries.drop_first()[i - 1] == entries[i]);
        lemma_first_compiled_prefix(entries.drop_first(), n, i - 1);
    }
}

} // verus!
