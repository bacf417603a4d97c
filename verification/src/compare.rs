//! The output comparator: normalizes two text bodies according to a
//! configuration, then either takes a bounded-cost fast path (byte
//! equality) or computes a full line-oriented structural diff.
use vstd::prelude::*;
use vstd::string::StrSliceExecFns;
use crate::text::push_char;

verus! {

/// How two text bodies are compared: how many trailing newlines to
/// ignore (negative means all of them), whether a space directly before
/// a newline is ignored, whether the fast path is forced, and the byte
/// length above which the fast path is always taken.
pub struct CompareConfig {
    pub ignore_end_of_text_enters: Option<i32>,
    pub ignore_end_of_line_space: bool,
    pub fast_compare: bool,
    pub force_fast_compare: usize,
}

impl Default for CompareConfig {
    /// Ignore one trailing newline and spaces before newlines; diff in
    /// full below thirty thousand bytes.
    fn default() -> (r: Self)
        ensures
            r.ignore_end_of_text_enters == Some(1i32),
            r.ignore_end_of_line_space == true,
            r.fast_compare == false,
            r.force_fast_compare == 30000usize,
    {
        Self {
            ignore_end_of_text_enters: Some(1),
            ignore_end_of_line_space: true,
            fast_compare: false,
            force_fast_compare: 30000,
        }
    }
}

/// One grouped run of a line diff: text both bodies share, text only the
/// second body has, or text only the first body has.
#[derive(Debug)]
pub enum Diff {
    Same(String),
    Add(String),
    Rem(String),
}

/// The view of a `Diff`: the same three shapes over character sequences.
pub enum DiffSeg {
    Same(Seq<char>),
    Add(Seq<char>),
    Rem(Seq<char>),
}

impl View for Diff {
    type V = DiffSeg;

    open spec fn view(&self) -> DiffSeg {
        match self {
            Diff::Same(s) => DiffSeg::Same(s@),
            Diff::Add(s) => DiffSeg::Add(s@),
            Diff::Rem(s) => DiffSeg::Rem(s@),
        }
    }
}

/// The outcome of comparing two text bodies: ordered diff segments (empty
/// when the fast path was taken), the split the diff used, and a distance
/// that is zero exactly when the normalized bodies were equal.
pub struct Changeset {
    pub diffs: Vec<Diff>,
    pub split: String,
    pub distance: i32,
}

/// The view of a `Changeset`.
pub struct ChangesetView {
    pub diffs: Seq<DiffSeg>,
    pub split: Seq<char>,
    pub distance: int,
}

impl View for Changeset {
    type V = ChangesetView;

    open spec fn view(&self) -> ChangesetView {
        ChangesetView {
            diffs: self.diffs@.map_values(|d: Diff| d@),
            split: self.split@,
            distance: self.distance as int,
        }
    }
}

/// The grouped segments that a line-oriented structural diff of `a`
/// against `b` yields; a function of the two bodies alone.
pub uninterp spec fn line_diff_segments(a: Seq<char>, b: Seq<char>) -> Seq<DiffSeg>;

/// The edit distance over newline-separated segments of `a` and `b`;
/// a function of the two bodies alone.
pub uninterp spec fn line_diff_distance(a: Seq<char>, b: Seq<char>) -> int;

/// Relies on difference::Changeset::new with the newline split: the
/// distance is the segment edit distance, which is zero exactly when the
/// two bodies are equal, and distance and grouped segments depend on the
/// two bodies alone.
#[verifier::external_body]
fn line_diff(a: &String, b: &String) -> (r: Changeset)
    requires
        a@.len() <= 0x2000_0000,
        b@.len() <= 0x2000_0000,
    ensures
        r.diffs@.map_values(|d: Diff| d@) == line_diff_segments(a@, b@),
        r.distance == line_diff_distance(a@, b@),
        r.split@ == "\n"@,
        r.distance >= 0,
        (r.distance == 0) <==> (a@ == b@),
{
    let c = difference::Changeset::new(a.as_str(), b.as_str(), "\n");
    let mut diffs: Vec<Diff> = Vec::new();
    for d in c.diffs {
        diffs.push(match d {
            difference::Difference::Same(s) => Diff::Same(s),
            difference::Difference::Add(s) => Diff::Add(s),
            difference::Difference::Rem(s) => Diff::Rem(s),
        });
    }
    Changeset { diffs, split: c.split, distance: c.distance }
}

/// Number of newline characters at the end of `s`.
pub open spec fn trailing_newlines(s: Seq<char>) -> int
    decreases s.len(),
{
    if s.len() == 0 || s.last() != '\n' {
        0
    } else {
        1 + trailing_newlines(s.drop_last())
    }
}

/// How many trailing newlines trimming removes: all of them when `limit`
/// is negative, at most `limit` otherwise.
pub open spec fn trim_count(s: Seq<char>, limit: int) -> int {
    let t = trailing_newlines(s);
    if limit < 0 || limit > t {
        t
    } else {
        limit
    }
}

/// `s` with up to `limit` trailing newlines removed.
pub open spec fn trimmed(s: Seq<char>, limit: int) -> Seq<char> {
    s.take(s.len() - trim_count(s, limit))
}

proof fn lemma_trailing_newlines_bounds(s: Seq<char>)
    ensures
        0 <= trailing_newlines(s) <= s.len(),
    decreases s.len(),
{
    if s.len() > 0 && s.last() == '\n' {
        lemma_trailing_newlines_bounds(s.drop_last());
    }
}

proof fn lemma_trailing_newlines_exact(s: Seq<char>, k: int)
    requires
        0 <= k <= s.len(),
        forall|j: int| s.len() - k <= j < s.len() ==> s[j] == '\n',
        k < s.len() ==> s[s.len() - k - 1] != '\n',
    ensures
        trailing_newlines(s) == k,
    decreases k,
{
    if k == 0 {
        if s.len() > 0 {
            assert(s.last() != '\n');
        }
    } else {
        assert(s.last() == '\n');
        let t = s.drop_last();
        assert forall|j: int| t.len() - (k - 1) <= j < t.len() implies t[j] == '\n' by {
            assert(t[j] == s[j]);
        }
        if k - 1 < t.len() {
            assert(t[t.len() - (k - 1) - 1] == s[s.len() - k - 1]);
        }
        lemma_trailing_newlines_exact(t, k - 1);
    }
}

proof fn lemma_trailing_newlines_at_least(s: Seq<char>, k: int)
    requires
        0 <= k <= s.len(),
        forall|j: int| s.len() - k <= j < s.len() ==> s[j] == '\n',
    ensures
        trailing_newlines(s) >= k,
    decreases k,
{
    lemma_trailing_newlines_bounds(s);
    if k > 0 {
        assert(s[s.len() - 1] == '\n');
        assert(s.last() == '\n');
        let t = s.drop_last();
        assert forall|j: int| t.len() - (k - 1) <= j < t.len() implies t[j] == '\n' by {
            assert(t[j] == s[j]);
        }
        lemma_trailing_newlines_at_least(t, k - 1);
        assert(trailing_newlines(s) == 1 + trailing_newlines(t));
    }
}

/// Strip up to `limit` trailing newline characters from `target`
/// (all of them when `limit` is negative) and say how many went.
pub fn remove_end_of_text_enters(target: &mut String, limit: i32) -> (bound: usize)
    ensures
        bound == trim_count(old(target)@, limit as int),
        final(target)@ == trimmed(old(target)@, limit as int),
{
    let n: usize = target.as_str().unicode_len();
    let mut bound: usize = 0;
    proof {
        lemma_trailing_newlines_bounds(target@);
    }
    while bound < n
        invariant
            n == target@.len(),
            0 <= bound <= n,
            forall|j: int| n - bound <= j < n ==> target@[j] == '\n',
            limit >= 0 ==> bound <= limit,
        ensures
            n == target@.len(),
            0 <= bound <= n,
            forall|j: int| n - bound <= j < n ==> target@[j] == '\n',
            limit >= 0 ==> bound <= limit,
            bound == n || (limit >= 0 && bound == limit) || (bound < n && target@[n - bound
                - 1] != '\n'),
        decreases n - bound,
    {
        if limit >= 0 && bound >= limit as usize {
            break;
        }
        let c = target.as_str().get_char(n - 1 - bound);
        if c != '\n' {
            break;
        }
        bound = bound + 1;
    }
    proof {
        lemma_trailing_newlines_bounds(target@);
        if bound < n && target@[n as int - bound - 1] != '\n' {
            lemma_trailing_newlines_exact(target@, bound as int);
        } else {
            lemma_trailing_newlines_at_least(target@, bound as int);
        }
        assert(bound == trim_count(target@, limit as int));
    }
    let keep = target.as_str().substring_char(0, n - bound).to_owned();
    proof {
        assert(keep@ =~= trimmed(target@, limit as int));
    }
    *target = keep;
    bound
}

/// `s` with every space that stands directly before a newline removed,
/// scanning left to right without rescanning, as a one-pass replacement
/// of " \n" by "\n" does.
pub open spec fn without_eol_spaces(s: Seq<char>) -> Seq<char>
    decreases s.len(),
{
    if s.len() == 0 {
        Seq::empty()
    } else if s.len() >= 2 && s[0] == ' ' && s[1] == '\n' {
        seq!['\n'] + without_eol_spaces(s.skip(2))
    } else {
        seq![s[0]] + without_eol_spaces(s.drop_first())
    }
}

proof fn lemma_without_eol_spaces_len(s: Seq<char>)
    ensures
        without_eol_spaces(s).len() <= s.len(),
    decreases s.len(),
{
    if s.len() == 0 {
    } else if s.len() >= 2 && s[0] == ' ' && s[1] == '\n' {
        lemma_without_eol_spaces_len(s.skip(2));
    } else {
        lemma_without_eol_spaces_len(s.drop_first());
    }
}

/// A copy of `s` without spaces that stand directly before a newline.
pub fn strip_eol_spaces(s: &String) -> (r: String)
    ensures
        r@ == without_eol_spaces(s@),
{
    let n: usize = s.as_str().unicode_len();
    let mut out = String::new();
    let mut i: usize = 0;
    proof {
        assert(s@.skip(0) =~= s@);
        assert(out@ + without_eol_spaces(s@.skip(0)) =~= without_eol_spaces(s@));
    }
    while i < n
        invariant
            n == s@.len(),
            0 <= i <= n,
            out@ + without_eol_spaces(s@.skip(i as int)) =~= without_eol_spaces(s@),
        decreases n - i,
    {
        let c = s.as_str().get_char(i);
        let ghost rest = s@.skip(i as int);
        if i + 1 < n && c == ' ' && s.as_str().get_char(i + 1) == '\n' {
            proof {
                assert(rest[0] == ' ' && rest[1] == '\n');
                assert(rest.skip(2) =~= s@.skip(i as int + 2));
            }
            push_char(&mut out, '\n');
            i = i + 2;
        } else {
            proof {
                assert(rest[0] == s@[i as int]);
                if i + 1 < n {
                    assert(rest[1] == s@[i as int + 1]);
                }
                assert(rest.drop_first() =~= s@.skip(i as int + 1));
            }
            push_char(&mut out, c);
            i = i + 1;
        }
    }
    proof {
        assert(without_eol_spaces(s@.skip(n as int)) =~= Seq::<char>::empty());
        assert(out@ =~= without_eol_spaces(s@));
    }
    out
}

/// The body `s` after the normalization the configuration asks for.
pub open spec fn normalized(s: Seq<char>, c: CompareConfig) -> Seq<char> {
    let t = match c.ignore_end_of_text_enters {
        Some(k) => trimmed(s, k as int),
        None => s,
    };
    if c.ignore_end_of_line_space {
        without_eol_spaces(t)
    } else {
        t
    }
}

/// Byte length of a body under UTF-8, which is what `str::len` measures.
pub open spec fn byte_len(s: Seq<char>) -> usize {
    vstd::utf8::encode_utf8(s).len() as usize
}

/// Whether comparing `a` against `b` under `c` skips the structural diff.
pub open spec fn takes_fast_path(a: Seq<char>, b: Seq<char>, c: CompareConfig) -> bool {
    c.fast_compare || byte_len(a) > c.force_fast_compare || byte_len(b) > c.force_fast_compare
}

/// Compare two text bodies after normalization. The distance of the
/// outcome is zero exactly when the normalized bodies are equal, in the
/// fast path and in the full diff alike; the fast path leaves the
/// segment list empty, the full diff reports the grouped line segments.
pub fn compare_string(ans: String, output: String, config: &CompareConfig) -> (r: Changeset)
    requires
        ans@.len() <= 0x2000_0000,
        output@.len() <= 0x2000_0000,
    ensures
        (r.distance == 0) <==> (normalized(ans@, *config) == normalized(output@, *config)),
        r.distance >= 0,
        takes_fast_path(normalized(ans@, *config), normalized(output@, *config), *config)
            ==> r.diffs@.len() == 0 && r.split@ == Seq::<char>::empty() && r.distance <= 1,
        !takes_fast_path(normalized(ans@, *config), normalized(output@, *config), *config) ==> {
            &&& r.diffs@.map_values(|d: Diff| d@) == line_diff_segments(
                normalized(ans@, *config),
                normalized(output@, *config),
            )
            &&& r.distance == line_diff_distance(
                normalized(ans@, *config),
                normalized(output@, *config),
            )
            &&& r.split@ == "\n"@
        },
{
    let ghost a0 = ans@;
    let ghost b0 = output@;
    let mut ans = ans;
    let mut output = output;
    if let Some(num) = config.ignore_end_of_text_enters {
        proof {
            lemma_trailing_newlines_bounds(ans@);
            lemma_trailing_newlines_bounds(output@);
        }
        remove_end_of_text_enters(&mut ans, num);
        remove_end_of_text_enters(&mut output, num);
    }
    if config.ignore_end_of_line_space {
        proof {
            lemma_without_eol_spaces_len(ans@);
            lemma_without_eol_spaces_len(output@);
        }
        let t = strip_eol_spaces(&ans);
        ans = t;
        let t2 = strip_eol_spaces(&output);
        output = t2;
    }
    proof {
        assert(ans@ == normalized(a0, *config));
        assert(output@ == normalized(b0, *config));
        assert(ans@.len() <= 0x2000_0000);
        assert(output@.len() <= 0x2000_0000);
    }
    if config.fast_compare || ans.as_str().len() > config.force_fast_compare || output.as_str().len()
        > config.force_fast_compare {
        let result = ans == output;
        Changeset {
            diffs: Vec::new(),
            split: String::new(),
            distance: if result { 0 } else { 1 },
        }
    } else {
        line_diff(&ans, &output)
    }
}

} // verus!
