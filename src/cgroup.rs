//! Resource confinement through a cgroup v2 directory: its path, the files
//! written to set it up, the members killed on teardown, and how teardown ends.
use vstd::prelude::*;
use crate::text::{
    all_digits, child_path, decimal, digit_value, digits_value, is_digit, join_path, push_decimal,
};

verus! {

/// The directory under which each run makes its cgroup.
pub open spec fn cgroup_root() -> Seq<char> {
    "/sys/fs/cgroup/kappa-"@
}

/// The cgroup directory of the run started at `timestamp` (seconds since the epoch).
pub fn cgroup_path(timestamp: u64) -> (r: String)
    ensures
        r@ == cgroup_root() + decimal(timestamp as nat),
{
    let mut s = String::from_str("/sys/fs/cgroup/kappa-");
    push_decimal(&mut s, timestamp);
    s
}

/// The limits written into a run's cgroup.
pub struct CgroupLimits {
    /// Content of `memory.max`.
    pub memory_max: String,
    /// Content of `pids.max`.
    pub pids_max: String,
}

impl CgroupLimits {
    /// A memory ceiling of `20M` and at most `20` processes.
    pub fn default_limits() -> (r: CgroupLimits)
        ensures
            r.memory_max@ == "20M"@,
            r.pids_max@ == "20"@,
    {
        CgroupLimits { memory_max: String::from_str("20M"), pids_max: String::from_str("20") }
    }
}

/// One file write of the cgroup setup.
pub struct CgroupWrite {
    pub file: String,
    pub contents: String,
}

/// The writes that set up the cgroup at `dir` and enroll process `pid`, in order:
/// `memory.max`, then `pids.max`, then the process id into `cgroup.procs`.
pub fn cgroup_setup_writes(dir: &str, limits: &CgroupLimits, pid: u32) -> (r: Vec<CgroupWrite>)
    ensures
        r@.len() == 3,
        r@[0].file@ == child_path(dir@, "memory.max"@),
        r@[0].contents@ == limits.memory_max@,
        r@[1].file@ == child_path(dir@, "pids.max"@),
        r@[1].contents@ == limits.pids_max@,
        r@[2].file@ == child_path(dir@, "cgroup.procs"@),
        r@[2].contents@ == decimal(pid as nat),
{
    let mut v: Vec<CgroupWrite> = Vec::new();
    v.push(CgroupWrite { file: join_path(dir, "memory.max"), contents: limits.memory_max.clone() });
    v.push(CgroupWrite { file: join_path(dir, "pids.max"), contents: limits.pids_max.clone() });
    let mut id = String::new();
    push_decimal(&mut id, pid as u64);
    assert(id@ == decimal(pid as nat));
    v.push(CgroupWrite { file: join_path(dir, "cgroup.procs"), contents: id });
    v
}

/// Characters that separate the entries of `cgroup.procs`.
pub open spec fn is_space(c: char) -> bool {
    c == ' ' || c == '\t' || c == '\n' || c == '\r' || c == '\x0B' || c == '\x0C'
}

/// The process id that an entry names: a non-empty run of decimal digits
/// whose value lies in `1..=i32::MAX`.
pub open spec fn pid_value(t: Seq<char>) -> Option<i32> {
    if t.len() > 0 && all_digits(t) && 1 <= digits_value(t) <= i32::MAX {
        Some(digits_value(t) as i32)
    } else {
        None
    }
}

/// The process id of the entry `cur`, as a sequence of zero or one items.
pub open spec fn emit(cur: Seq<char>) -> Seq<i32> {
    match pid_value(cur) {
        Some(p) => seq![p],
        None => seq![],
    }
}

/// The process ids listed in `s`, continuing an entry `cur` already begun.
pub open spec fn scan_pids(s: Seq<char>, cur: Seq<char>) -> Seq<i32>
    decreases s.len(),
{
    if s.len() == 0 {
        emit(cur)
    } else if is_space(s[0]) {
        emit(cur) + scan_pids(s.drop_first(), seq![])
    } else {
        scan_pids(s.drop_first(), cur.push(s[0]))
    }
}

/// The process ids listed in the text of `cgroup.procs`, in order: the
/// whitespace-separated entries that are valid process ids; others are skipped.
pub open spec fn pids_of(s: Seq<char>) -> Seq<i32> {
    scan_pids(s, seq![])
}

proof fn lemma_digits_push(t: Seq<char>, c: char)
    ensures
        digits_value(t.push(c)) == digits_value(t) * 10 + digit_value(c),
{
    assert(t.push(c).drop_last() == t);
}

proof fn lemma_digits_nonneg(t: Seq<char>)
    requires
        all_digits(t),
    ensures
        digits_value(t) >= 0,
    decreases t.len(),
{
    if t.len() > 0 {
        assert(is_digit(t[t.len() - 1]));
        lemma_digits_nonneg(t.drop_last());
    }
}

/// Parses the text of `cgroup.procs` into the process ids that it lists.
pub fn parse_pids(content: &str) -> (r: Vec<i32>)
    ensures
        r@ == pids_of(content@),
{
    let n = content.unicode_len();
    let mut out: Vec<i32> = Vec::new();
    let mut start: usize = 0;
    let mut acc: u64 = 0;
    let mut bad = false;
    let mut i: usize = 0;
    assert(content@.skip(0) == content@);
    assert(content@.subrange(0, 0) == Seq::<char>::empty());
    assert(out@ + pids_of(content@) == pids_of(content@));
    while i < n
        invariant
            n == content@.len(),
            start <= i <= n,
            out@ + scan_pids(content@.skip(i as int), content@.subrange(start as int, i as int))
                == pids_of(content@),
            !bad ==> all_digits(content@.subrange(start as int, i as int)) && acc == digits_value(
                content@.subrange(start as int, i as int),
            ) && acc <= i32::MAX,
            bad ==> !all_digits(content@.subrange(start as int, i as int)) || digits_value(
                content@.subrange(start as int, i as int),
            ) > i32::MAX,
        decreases n - i,
    {
        let ghost s = content@;
        let ghost cur = s.subrange(start as int, i as int);
        let ghost rest = s.skip(i as int);
        assert(rest[0] == s[i as int]);
        assert(rest.drop_first() == s.skip(i + 1));
        let c = content.get_char(i);
        if c == ' ' || c == '\t' || c == '\n' || c == '\r' || c == '\x0B' || c == '\x0C' {
            proof {
                if !bad {
                    if cur.len() > 0 && acc >= 1 {
                        assert(pid_value(cur) == Some(acc as i32));
                    } else {
                        assert(pid_value(cur).is_none());
                    }
                } else {
                    assert(pid_value(cur).is_none());
                }
            }
            if !bad && i > start && acc >= 1 {
                out.push(acc as i32);
            }
            assert(out@ + scan_pids(s.skip(i + 1), seq![]) == pids_of(s));
            start = i + 1;
            acc = 0;
            bad = false;
            assert(s.subrange(start as int, start as int) == Seq::<char>::empty());
        } else {
            let ghost next = cur.push(c);
            assert(s.subrange(start as int, i + 1) == next);
            proof {
                lemma_digits_push(cur, c);
            }
            if !bad {
                if '0' <= c && c <= '9' {
                    let d = (c as u32 - '0' as u32) as u64;
                    assert(all_digits(next)) by {
                        assert forall|j: int| 0 <= j < next.len() implies is_digit(#[trigger] next[j]) by {
                            if j < cur.len() {
                                assert(next[j] == cur[j]);
                            }
                        }
                    }
                    let v = acc * 10 + d;
                    if v > i32::MAX as u64 {
                        bad = true;
                    } else {
                        acc = v;
                    }
                } else {
                    bad = true;
                    assert(!is_digit(next[next.len() - 1]));
                }
            } else {
                proof {
                    if all_digits(next) {
                        assert forall|j: int| 0 <= j < cur.len() implies is_digit(#[trigger] cur[j]) by {
                            assert(cur[j] == next[j]);
                        }
                        lemma_digits_nonneg(cur);
                        assert(is_digit(next[next.len() - 1]));
                    }
                }
            }
        }
        i = i + 1;
    }
    let ghost cur = content@.subrange(start as int, n as int);
    assert(content@.skip(n as int).len() == 0);
    proof {
        if !bad && cur.len() > 0 && acc >= 1 {
            assert(pid_value(cur) == Some(acc as i32));
        } else {
            assert(pid_value(cur).is_none());
        }
    }
    if !bad && n > start && acc >= 1 {
        out.push(acc as i32);
    }
    proof {
        assert(out@ == pids_of(content@));
    }
    out
}

/// The process ids to kill on teardown, given the text of `cgroup.procs`
/// (`None` when it could not be read, as when the cgroup is already gone).
pub fn kill_targets(procs: Option<&str>) -> (r: Vec<i32>)
    ensures
        r@ == match procs {
            Some(c) => pids_of(c@),
            None => Seq::<i32>::empty(),
        },
{
    match procs {
        Some(c) => parse_pids(c),
        None => Vec::new(),
    }
}

/// How removing the cgroup directory ended.
#[derive(Debug, Clone, Copy, PartialEq, Eq, Structural)]
pub enum RemoveOutcome {
    Removed,
    /// The directory did not exist.
    AlreadyAbsent,
    /// Removal failed for another reason.
    Failed,
}

/// A cgroup failure.
#[derive(Debug, Clone, Copy, PartialEq, Eq, Structural)]
pub enum CgroupError {
    /// The cgroup directory exists and could not be removed.
    RemoveFailed,
}

/// What teardown reports for a removal outcome: success unless the directory
/// was there and could not be removed.
pub open spec fn cleanup_result_spec(o: RemoveOutcome) -> Result<(), CgroupError> {
    match o {
        RemoveOutcome::Failed => Err(CgroupError::RemoveFailed),
        _ => Ok(()),
    }
}

/// Decides the result of teardown from how the removal of the directory ended.
pub fn cleanup_result(o: RemoveOutcome) -> (r: Result<(), CgroupError>)
    ensures
        r == cleanup_result_spec(o),
{
    match o {
        RemoveOutcome::Failed => Err(CgroupError::RemoveFailed),
        _ => Ok(()),
    }
}

/// The outcomes that removing the directory can have, by whether it exists.
pub open spec fn removal_can_give(present: bool, o: RemoveOutcome) -> bool {
    if present {
        o != RemoveOutcome::AlreadyAbsent
    } else {
        o == RemoveOutcome::AlreadyAbsent
    }
}

/// Whether the directory exists after a removal with outcome `o`.
pub open spec fn present_after(present: bool, o: RemoveOutcome) -> bool {
    present && o == RemoveOutcome::Failed
}

/// Teardown is idempotent: on a cgroup that was never created it kills
/// nothing and succeeds; and once a teardown has succeeded the directory is
/// gone, so a second teardown of the same path succeeds too.
pub proof fn lemma_cleanup_idempotent(present: bool, first: RemoveOutcome, second: RemoveOutcome)
    requires
        removal_can_give(present, first),
        removal_can_give(present_after(present, first), second),
    ensures
        !present ==> cleanup_result_spec(first) is Ok,
        cleanup_result_spec(first) is Ok ==> !present_after(present, first) && cleanup_result_spec(
            second,
        ) is Ok,
{
}

} // verus!
