//! Process-priority decisions: which priority class a setting names, and
//! which running processes (this one and every WebView2 child) receive it.

use vstd::prelude::*;
use crate::text::str_eq;

verus! {

/// Windows process priority classes offered by the menu.
#[derive(Clone, Copy, Debug, PartialEq, Eq, Structural)]
pub enum PriorityClass {
    Idle,
    BelowNormal,
    Normal,
    AboveNormal,
    High,
}

/// The class a priority setting names; Normal for any other text.
pub open spec fn priority_class_of(level: Seq<char>) -> PriorityClass {
    if level == "High"@ {
        PriorityClass::High
    } else if level == "Above Normal"@ {
        PriorityClass::AboveNormal
    } else if level == "Below Normal"@ {
        PriorityClass::BelowNormal
    } else if level == "Idle"@ {
        PriorityClass::Idle
    } else {
        PriorityClass::Normal
    }
}

/// Map a priority setting to its class.
pub fn priority_class(level: &str) -> (c: PriorityClass)
    ensures
        c == priority_class_of(level@),
{
    if str_eq(level, "High") {
        PriorityClass::High
    } else if str_eq(level, "Above Normal") {
        PriorityClass::AboveNormal
    } else if str_eq(level, "Below Normal") {
        PriorityClass::BelowNormal
    } else if str_eq(level, "Idle") {
        PriorityClass::Idle
    } else {
        PriorityClass::Normal
    }
}

/// What `str::to_lowercase` returns for a string (Unicode case mapping).
pub uninterp spec fn lowercase_of(s: Seq<char>) -> Seq<char>;

/// `str::to_lowercase`. Its result, the Unicode lowercase mapping of every
/// character, is named and not stated.
#[verifier::external_body]
fn to_lowercase(s: &str) -> (r: String)
    ensures
        r@ == lowercase_of(s@),
{
    s.to_lowercase()
}

/// `needle` occurs as a contiguous run of characters in `hay`.
pub open spec fn contains_chars(hay: Seq<char>, needle: Seq<char>) -> bool {
    exists|i: int|
        0 <= i && i + needle.len() <= hay.len() && #[trigger] hay.subrange(i, i + needle.len())
            == needle
}

/// The characters of a string slice.
fn chars_of(s: &str) -> (v: Vec<char>)
    ensures
        v@ == s@,
{
    let n = s.unicode_len();
    let mut v: Vec<char> = Vec::new();
    for i in 0..n
        invariant
            n == s@.len(),
            v@ == s@.subrange(0, i as int),
    {
        v.push(s.get_char(i));
        assert(v@ =~= s@.subrange(0, i + 1));
    }
    assert(v@ =~= s@);
    v
}

/// Whether `needle` occurs in `hay`, character by character.
pub fn str_contains(hay: &str, needle: &str) -> (r: bool)
    ensures
        r == contains_chars(hay@, needle@),
{
    let h = chars_of(hay);
    let nd = chars_of(needle);
    let hn = h.len();
    let nn = nd.len();
    if nn > hn {
        assert forall|i: int| 0 <= i && i + nn <= hn implies #[trigger] hay@.subrange(i, i + nn) != needle@ by {}
        return false;
    }
    if nn == 0 {
        assert(hay@.subrange(0int, 0int + needle@.len()) =~= needle@);
        return true;
    }
    let last = hn - nn;
    for i in 0..last + 1
        invariant
            h@ == hay@,
            nd@ == needle@,
            hn == h@.len(),
            nn == nd@.len(),
            nn <= hn,
            last == hn - nn,
            forall|i0: int| 0 <= i0 < i ==> #[trigger] hay@.subrange(i0, i0 + nn) != needle@,
    {
        let mut j: usize = 0;
        let mut same = true;
        while j < nn
            invariant
                h@ == hay@,
                nd@ == needle@,
                hn == h@.len(),
                nn == nd@.len(),
                i + nn <= hn,
                j <= nn,
                same ==> forall|k: int| 0 <= k < j ==> h@[i + k] == nd@[k],
                !same ==> hay@.subrange(i as int, i + nn) != needle@,
            decreases nn - j,
        {
            if same && h[i + j] != nd[j] {
                same = false;
                assert(hay@.subrange(i as int, i + nn)[j as int] != needle@[j as int]);
            }
            j = j + 1;
        }
        if same {
            assert(hay@.subrange(i as int, i + nn) =~= needle@);
            return true;
        }
    }
    false
}

/// A process is a WebView2 process when its lower-cased executable name
/// contains "webview2".
pub open spec fn is_webview2_name(exe_name: Seq<char>) -> bool {
    contains_chars(lowercase_of(exe_name), "webview2"@)
}

/// Whether an already lower-cased executable name names a WebView2 process.
pub fn has_webview2(lower: &str) -> (r: bool)
    ensures
        r == contains_chars(lower@, "webview2"@),
{
    str_contains(lower, "webview2")
}

/// Whether an executable name belongs to a WebView2 process.
pub fn is_webview2_process(exe_name: &str) -> (r: bool)
    ensures
        r == is_webview2_name(exe_name@),
{
    let lower = to_lowercase(exe_name);
    has_webview2(lower.as_str())
}

/// A running process as the system's process list reports it.
#[derive(Clone, Debug)]
pub struct ProcessEntry {
    pub pid: u32,
    /// The id of the process that created it.
    pub parent_pid: u32,
    pub exe_name: String,
}

/// The priority change to make: the class, applied to this process and to
/// each listed WebView2 process.
#[derive(Clone, Debug)]
pub struct PriorityUpdate {
    pub class: PriorityClass,
    pub webview_pids: Vec<u32>,
}

/// `chain` lists entries of `ps` (by index), each created by the one before
/// it, the first created by the process `root`.
pub open spec fn is_parent_chain(ps: Seq<ProcessEntry>, root: u32, chain: Seq<int>) -> bool {
    &&& chain.len() > 0
    &&& forall|k: int| 0 <= k < chain.len() ==> 0 <= #[trigger] chain[k] < ps.len()
    &&& ps[chain[0]].parent_pid == root
    &&& forall|k: int|
        1 <= k < chain.len() ==> ps[#[trigger] chain[k]].parent_pid == ps[chain[k - 1]].pid
}

/// Entry `i` of `ps` descends from the process `root`: a chain of parent
/// links leads from `root` to it.
pub open spec fn descends_from(ps: Seq<ProcessEntry>, root: u32, i: int) -> bool {
    exists|chain: Seq<int>| #[trigger] is_parent_chain(ps, root, chain) && chain.last() == i
}

/// The ids, in list order, of the first `n` entries of `ps` that descend
/// from `root` and are WebView2 processes.
pub open spec fn webview2_descendant_pids(ps: Seq<ProcessEntry>, root: u32, n: int) -> Seq<u32>
    decreases n,
{
    if n <= 0 {
        Seq::empty()
    } else {
        let rest = webview2_descendant_pids(ps, root, n - 1);
        if descends_from(ps, root, n - 1) && is_webview2_name(ps[n - 1].exe_name@) {
            rest.push(ps[n - 1].pid)
        } else {
            rest
        }
    }
}

/// Entry `i` has a parent that is `root` or a marked entry.
pub open spec fn parent_reached(ps: Seq<ProcessEntry>, root: u32, marked: Seq<bool>, i: int) -> bool {
    ps[i].parent_pid == root || exists|j: int|
        0 <= j < ps.len() && #[trigger] marked[j] && ps[j].pid == ps[i].parent_pid
}

/// The number of `true` entries.
pub open spec fn count_true(s: Seq<bool>) -> nat
    decreases s.len(),
{
    if s.len() == 0 {
        0
    } else {
        count_true(s.drop_last()) + if s.last() {
            1nat
        } else {
            0nat
        }
    }
}

proof fn lemma_count_true_bound(s: Seq<bool>)
    ensures
        count_true(s) <= s.len(),
    decreases s.len(),
{
    if s.len() > 0 {
        lemma_count_true_bound(s.drop_last());
    }
}

proof fn lemma_count_true_set(s: Seq<bool>, i: int)
    requires
        0 <= i < s.len(),
        !s[i],
    ensures
        count_true(s.update(i, true)) == count_true(s) + 1,
    decreases s.len(),
{
    let t = s.update(i, true);
    if i < s.len() - 1 {
        assert(t.drop_last() =~= s.drop_last().update(i, true));
        lemma_count_true_set(s.drop_last(), i);
    } else {
        assert(t.drop_last() =~= s.drop_last());
    }
}

/// When every unmarked entry's parent is neither `root` nor marked, every
/// descendant of `root` is marked.
proof fn lemma_closed_marks_all(ps: Seq<ProcessEntry>, root: u32, marked: Seq<bool>, chain: Seq<int>)
    requires
        marked.len() == ps.len(),
        forall|i: int| 0 <= i < ps.len() ==> marked[i] || !parent_reached(ps, root, marked, i),
        is_parent_chain(ps, root, chain),
    ensures
        marked[chain.last()],
    decreases chain.len(),
{
    if chain.len() == 1 {
        assert(0 <= chain[0] < ps.len());
    } else {
        let prefix = chain.drop_last();
        assert(is_parent_chain(ps, root, prefix)) by {
            assert forall|k: int| 0 <= k < prefix.len() implies 0 <= #[trigger] prefix[k] < ps.len() by {
                assert(prefix[k] == chain[k]);
            }
            assert forall|k: int| 1 <= k < prefix.len() implies ps[#[trigger] prefix[k]].parent_pid
                == ps[prefix[k - 1]].pid by {
                assert(prefix[k] == chain[k]);
            }
        }
        lemma_closed_marks_all(ps, root, marked, prefix);
        let j = prefix.last();
        let i = chain.last();
        assert(chain[chain.len() - 1] == i);
        assert(0 <= i < ps.len());
        assert(ps[i].parent_pid == ps[j].pid);
        assert(marked[j]);
        assert(parent_reached(ps, root, marked, i));
    }
}

/// Whether entry `i`'s parent is `root` or a marked entry.
fn parent_is_reached(ps: &Vec<ProcessEntry>, root: u32, marked: &Vec<bool>, i: usize) -> (r: bool)
    requires
        marked@.len() == ps@.len(),
        i < ps@.len(),
    ensures
        r == parent_reached(ps@, root, marked@, i as int),
{
    let parent = ps[i].parent_pid;
    if parent == root {
        return true;
    }
    let n = ps.len();
    for j in 0..n
        invariant
            n == ps@.len(),
            marked@.len() == n,
            parent == ps@[i as int].parent_pid,
            forall|j0: int| 0 <= j0 < j ==> !(#[trigger] marked@[j0] && ps@[j0].pid == parent),
    {
        if marked[j] && ps[j].pid == parent {
            return true;
        }
    }
    false
}

/// Marks, for each entry of `ps`, whether it descends from `root`.
fn descendants(ps: &Vec<ProcessEntry>, root: u32) -> (marked: Vec<bool>)
    ensures
        marked@.len() == ps@.len(),
        forall|i: int| 0 <= i < ps@.len() ==> marked@[i] == descends_from(ps@, root, i),
{
    let n = ps.len();
    let mut marked: Vec<bool> = Vec::new();
    for i in 0..n
        invariant
            marked@.len() == i,
            forall|k: int| 0 <= k < i ==> !marked@[k],
    {
        marked.push(false);
    }
    proof {
        lemma_count_true_bound(marked@);
    }
    loop
        invariant
            n == ps@.len(),
            marked@.len() == n,
            forall|k: int| 0 <= k < n && #[trigger] marked@[k] ==> descends_from(ps@, root, k),
        decreases n - count_true(marked@),
    {
        proof {
            lemma_count_true_bound(marked@);
        }
        let ghost start = marked@;
        let mut changed = false;
        for i in 0..n
            invariant
                n == ps@.len(),
                marked@.len() == n,
                forall|k: int| 0 <= k < n && #[trigger] marked@[k] ==> descends_from(ps@, root, k),
                count_true(start) <= n,
                changed ==> count_true(marked@) > count_true(start),
                !changed ==> marked@ == start,
                !changed ==> forall|k: int|
                    0 <= k < i ==> marked@[k] || !parent_reached(ps@, root, marked@, k),
        {
            if !marked[i] && parent_is_reached(ps, root, &marked, i) {
                let ghost before = marked@;
                proof {
                    let ii = i as int;
                    // Extend the parent's chain (or start one at `root`) by `i`.
                    if ps@[ii].parent_pid == root {
                        let chain = seq![ii];
                        assert(is_parent_chain(ps@, root, chain));
                    } else {
                        let j = choose|j: int|
                            0 <= j < ps@.len() && #[trigger] before[j] && ps@[j].pid == ps@[ii].parent_pid;
                        let cj = choose|c: Seq<int>| #[trigger] is_parent_chain(ps@, root, c) && c.last() == j;
                        let chain = cj.push(ii);
                        assert(chain[chain.len() - 2] == j);
                        assert forall|k: int| 0 <= k < chain.len() implies 0 <= #[trigger] chain[k] < ps@.len() by {
                            if k < cj.len() {
                                assert(chain[k] == cj[k]);
                            }
                        }
                        assert forall|k: int| 1 <= k < chain.len() implies ps@[#[trigger] chain[k]].parent_pid
                            == ps@[chain[k - 1]].pid by {
                            if k < cj.len() {
                                assert(chain[k] == cj[k]);
                                assert(chain[k - 1] == cj[k - 1]);
                            }
                        }
                        assert(is_parent_chain(ps@, root, chain));
                        assert(chain.last() == ii);
                    }
                    lemma_count_true_set(before, ii);
                }
                marked.set(i, true);
                assert(marked@ == before.update(i as int, true));
                changed = true;
            }
        }
        proof {
            lemma_count_true_bound(marked@);
        }
        if !changed {
            proof {
                assert forall|k: int| 0 <= k < n implies marked@[k] == descends_from(ps@, root, k) by {
                    if descends_from(ps@, root, k) {
                        let c = choose|c: Seq<int>| #[trigger] is_parent_chain(ps@, root, c) && c.last() == k;
                        lemma_closed_marks_all(ps@, root, marked@, c);
                    }
                }
            }
            return marked;
        }
    }
}

/// Set the priority class of this process and every WebView2 child process:
/// decides the class that `level` names, and which processes of the current
/// process list receive it besides this process (`self_pid`): those that
/// descend from it and are WebView2 processes.
pub fn set_priority(level: &str, self_pid: u32, processes: &Vec<ProcessEntry>) -> (u: PriorityUpdate)
    ensures
        u.class == priority_class_of(level@),
        u.webview_pids@ == webview2_descendant_pids(processes@, self_pid, processes@.len() as int),
{
    let class = priority_class(level);
    let marked = descendants(processes, self_pid);
    let mut pids: Vec<u32> = Vec::new();
    let n = processes.len();
    for i in 0..n
        invariant
            n == processes@.len(),
            marked@.len() == n,
            forall|k: int| 0 <= k < n ==> marked@[k] == descends_from(processes@, self_pid, k),
            pids@ == webview2_descendant_pids(processes@, self_pid, i as int),
    {
        if marked[i] && is_webview2_process(processes[i].exe_name.as_str()) {
            pids.push(processes[i].pid);
        }
    }
    PriorityUpdate { class, webview_pids: pids }
}

/// A process id is in the priority update exactly when some listed process
/// with that id descends from this process and is a WebView2 process.
pub proof fn lemma_webview2_pids_exact(ps: Seq<ProcessEntry>, root: u32, n: int, pid: u32)
    requires
        0 <= n <= ps.len(),
    ensures
        webview2_descendant_pids(ps, root, n).contains(pid) <==> exists|i: int|
            0 <= i < n && ps[i].pid == pid && #[trigger] descends_from(ps, root, i)
                && is_webview2_name(ps[i].exe_name@),
    decreases n,
{
    if n > 0 {
        lemma_webview2_pids_exact(ps, root, n - 1, pid);
        let rest = webview2_descendant_pids(ps, root, n - 1);
        let all = webview2_descendant_pids(ps, root, n);
        if exists|i: int|
            0 <= i < n && ps[i].pid == pid && #[trigger] descends_from(ps, root, i)
                && is_webview2_name(ps[i].exe_name@) {
            let i = choose|i: int|
                0 <= i < n && ps[i].pid == pid && #[trigger] descends_from(ps, root, i)
                    && is_webview2_name(ps[i].exe_name@);
            if i < n - 1 {
                let j = choose|j: int| 0 <= j < rest.len() && rest[j] == pid;
                assert(all[j] == pid);
            } else {
                assert(all.last() == pid);
            }
        }
        if all.contains(pid) {
            let j = choose|j: int| 0 <= j < all.len() && all[j] == pid;
            if j < rest.len() {
                assert(rest[j] == pid);
            }
        }
    }
}


/// Each of the menu's five priority names selects its own class, and any
/// other text selects Normal.
pub proof fn lemma_priority_names(level: Seq<char>)
    ensures
        (priority_class_of(level) == PriorityClass::High) <==> level == "High"@,
        (priority_class_of(level) == PriorityClass::AboveNormal) <==> level == "Above Normal"@,
        (priority_class_of(level) == PriorityClass::BelowNormal) <==> level == "Below Normal"@,
        (priority_class_of(level) == PriorityClass::Idle) <==> level == "Idle"@,
        (priority_class_of(level) == PriorityClass::Normal) <==> (level != "High"@ && level
            != "Above Normal"@ && level != "Below Normal"@ && level != "Idle"@),
{
    broadcast use vstd::string::group_string_axioms;

    reveal_strlit("High");
    reveal_strlit("Above Normal");
    reveal_strlit("Below Normal");
    reveal_strlit("Idle");
    assert("High"@.len() == 4 && "Idle"@.len() == 4 && "Above Normal"@.len() == 12);
    assert("Below Normal"@.len() == 12 && "High"@[0] != "Idle"@[0]);
    assert("Above Normal"@[0] != "Below Normal"@[0]);
}

} // verus!
