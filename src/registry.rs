use vstd::prelude::*;

verus! {

/// One entry of the core directory, as read from disk.
#[derive(Debug, Clone)]
pub struct CoreEntry {
    pub file_name: String,
    pub is_file: bool,
}

/// Index of the last `.` in `s`, or -1 where there is none.
pub open spec fn last_dot(s: Seq<char>) -> int
    decreases s.len(),
{
    if s.len() == 0 {
        -1
    } else if s.last() == '.' {
        s.len() - 1
    } else {
        last_dot(s.drop_last())
    }
}

/// The stem of a file name: what stands before its last `.`, unless that
/// `.` opens the name (a hidden file keeps its whole name).
pub open spec fn stem_of(name: Seq<char>) -> Seq<char> {
    if last_dot(name) > 0 {
        name.subrange(0, last_dot(name))
    } else {
        name
    }
}

/// The installed cores named by `entries`: the stems of the regular files, in
/// directory order.
pub open spec fn core_list(entries: Seq<CoreEntry>) -> Seq<Seq<char>>
    decreases entries.len(),
{
    if entries.len() == 0 {
        seq![]
    } else {
        let rest = core_list(entries.drop_last());
        let e = entries.last();
        if e.is_file {
            rest.push(stem_of(e.file_name@))
        } else {
            rest
        }
    }
}

proof fn lemma_last_dot_bounds(s: Seq<char>)
    ensures
        -1 <= last_dot(s) < s.len(),
        last_dot(s) >= 0 ==> s[last_dot(s)] == '.',
    decreases s.len(),
{
    if s.len() > 0 && s.last() != '.' {
        lemma_last_dot_bounds(s.drop_last());
    }
}

/// The stem of a file name, as `Path::file_stem` gives it for a bare name.
pub fn file_stem(name: &str) -> (r: String)
    ensures
        r@ == stem_of(name@),
{
    let n = name.unicode_len();
    let mut i: usize = n;
    proof {
        assert(name@.subrange(0, n as int) =~= name@);
        lemma_last_dot_bounds(name@);
    }
    while i > 0
        invariant
            i <= n == name@.len(),
            last_dot(name@) == last_dot(name@.subrange(0, i as int)),
            last_dot(name@) < i,
        decreases i,
    {
        assert(name@.subrange(0, i as int).drop_last() =~= name@.subrange(0, i - 1));
        if name.get_char(i - 1) == '.' {
            proof {
                lemma_last_dot_bounds(name@);
            }
            if i - 1 > 0 {
                return String::from_str(name.substring_char(0, i - 1));
            } else {
                return String::from_str(name);
            }
        }
        proof {
            lemma_last_dot_bounds(name@.subrange(0, i - 1));
        }
        i = i - 1;
    }
    String::from_str(name)
}

/// The names of the installed cores found among `entries`.
pub fn core_names(entries: &Vec<CoreEntry>) -> (r: Vec<String>)
    ensures
        r@.map_values(|s: String| s@) == core_list(entries@),
{
    let mut out: Vec<String> = Vec::new();
    let mut i: usize = 0;
    while i < entries.len()
        invariant
            i <= entries@.len(),
            out@.map_values(|s: String| s@) == core_list(entries@.subrange(0, i as int)),
        decreases entries@.len() - i,
    {
        assert(entries@.subrange(0, i + 1).drop_last() =~= entries@.subrange(0, i as int));
        let e = &entries[i];
        if e.is_file {
            let stem = file_stem(e.file_name.as_str());
            out.push(stem);
        }
        assert(out@.map_values(|s: String| s@) =~= core_list(entries@.subrange(0, i + 1)));
        i = i + 1;
    }
    assert(entries@.subrange(0, entries@.len() as int) =~= entries@);
    out
}

} // verus!
