use vstd::prelude::*;
use std::collections::HashMap;

verus! {

broadcast use vstd::std_specs::hash::group_hash_axioms;

/// One thread of the hypervisor process: its id and, where it could be
/// read, its command name.
#[derive(Debug, Clone)]
pub struct TaskName {
    pub tid: i32,
    pub comm: Option<String>,
}

/// Map from virtual-CPU index to the id of the thread that runs it.
#[derive(Debug)]
pub struct VcpuThreads {
    pub vcpus: HashMap<i64, i64>,
}

/// The name prefix of a virtual-CPU thread.
pub open spec fn vcpu_prefix() -> Seq<char> {
    seq!['v', 'c', 'p', 'u']
}

pub open spec fn is_digit(c: char) -> bool {
    '0' <= c && c <= '9'
}

/// Value of a run of decimal digits.
pub open spec fn digits_value(s: Seq<char>) -> int
    decreases s.len(),
{
    if s.len() == 0 {
        0
    } else {
        digits_value(s.drop_last()) * 10 + (s.last() as int - '0' as int)
    }
}

/// A signed decimal integer: an optional `+` or `-`, then at least one
/// digit, and nothing else; `None` when the text is not one or the value
/// does not fit in an `i64`.
pub open spec fn parse_i64_spec(s: Seq<char>) -> Option<i64> {
    let neg = s.len() > 0 && s[0] == '-';
    let body = if s.len() > 0 && (s[0] == '-' || s[0] == '+') { s.drop_first() } else { s };
    let v = if neg { -digits_value(body) } else { digits_value(body) };
    if body.len() > 0 && (forall|i: int| 0 <= i < body.len() ==> is_digit(#[trigger] body[i]))
        && i64::MIN <= v <= i64::MAX {
        Some(v as i64)
    } else {
        None
    }
}

/// Relies on `str::parse::<i64>`: an optional sign and decimal digits,
/// rejected when anything else is present or the value overflows.
#[verifier::external_body]
fn parse_i64(s: &str) -> (r: Option<i64>)
    ensures
        r == parse_i64_spec(s@),
{
    s.parse::<i64>().ok()
}

/// The vcpu index a thread name stands for: the number after the prefix.
pub open spec fn vcpu_index(comm: Seq<char>) -> Option<i64> {
    if comm.len() >= 4 && comm.take(4) == vcpu_prefix() {
        parse_i64_spec(comm.skip(4))
    } else {
        None
    }
}

/// The vcpu map of a list of threads; a later thread with the same index
/// replaces an earlier one.
pub open spec fn vcpu_map(ts: Seq<TaskName>) -> Map<i64, i64>
    decreases ts.len(),
{
    if ts.len() == 0 {
        Map::empty()
    } else {
        let m = vcpu_map(ts.drop_last());
        let t = ts.last();
        match t.comm {
            Some(c) => match vcpu_index(c@) {
                Some(k) => m.insert(k, t.tid as i64),
                None => m,
            },
            None => m,
        }
    }
}

/// The index in a thread name, if it names a virtual CPU.
pub fn parse_vcpu_index(comm: &str) -> (r: Option<i64>)
    ensures
        r == vcpu_index(comm@),
{
    let len = comm.unicode_len();
    if len >= 4 && comm.get_char(0) == 'v' && comm.get_char(1) == 'c' && comm.get_char(2) == 'p'
        && comm.get_char(3) == 'u' {
        assert(comm@.take(4) =~= vcpu_prefix());
        let rest = comm.substring_char(4, len);
        assert(rest@ =~= comm@.skip(4));
        parse_i64(rest)
    } else {
        proof {
            if comm@.len() >= 4 && comm@.take(4) == vcpu_prefix() {
                assert(comm@[0] == comm@.take(4)[0]);
                assert(comm@[1] == comm@.take(4)[1]);
                assert(comm@[2] == comm@.take(4)[2]);
                assert(comm@[3] == comm@.take(4)[3]);
            }
        }
        None
    }
}

/// Collects the virtual-CPU threads among `tasks`: each thread whose name
/// is the vcpu prefix followed by an index maps that index to its id.
pub fn vcpu_threads(tasks: &Vec<TaskName>) -> (r: VcpuThreads)
    ensures
        r.vcpus@ == vcpu_map(tasks@),
{
    let mut m: HashMap<i64, i64> = HashMap::new();
    let mut i: usize = 0;
    while i < tasks.len()
        invariant
            i <= tasks@.len(),
            m@ == vcpu_map(tasks@.take(i as int)),
        decreases tasks@.len() - i,
    {
        let t = &tasks[i];
        proof {
            assert(tasks@.take(i + 1).drop_last() =~= tasks@.take(i as int));
            assert(tasks@.take(i + 1).last() == tasks@[i as int]);
        }
        match &t.comm {
            Some(c) => {
                match parse_vcpu_index(c.as_str()) {
                    Some(k) => {
                        m.insert(k, t.tid as i64);
                    },
                    None => {},
                }
            },
            None => {},
        }
        i += 1;
    }
    assert(tasks@.take(i as int) =~= tasks@);
    VcpuThreads { vcpus: m }
}

} // verus!
