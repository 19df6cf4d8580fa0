use vstd::prelude::*;

verus! {

/// Width of the run of spaces that replaces each tab on load.
pub const TAB_SIZE: usize = 4;

/// A run of `n` spaces.
pub open spec fn spaces(n: nat) -> Seq<char> {
    Seq::new(n, |i: int| ' ')
}

/// The text of one line after tab normalization: every tab character is
/// replaced by a run of `TAB_SIZE` spaces, all other characters kept.
pub open spec fn tab_expand(s: Seq<char>) -> Seq<char>
    decreases s.len(),
{
    if s.len() == 0 {
        Seq::<char>::empty()
    } else if s[0] == '\t' {
        spaces(TAB_SIZE as nat) + tab_expand(s.skip(1))
    } else {
        seq![s[0]] + tab_expand(s.skip(1))
    }
}

/// True when the line holds no tab character.
pub open spec fn has_no_tabs(s: Seq<char>) -> bool {
    forall|i: int| 0 <= i < s.len() ==> s[i] != '\t'
}

pub proof fn lemma_tab_expand_concat(a: Seq<char>, b: Seq<char>)
    ensures
        tab_expand(a + b) == tab_expand(a) + tab_expand(b),
    decreases a.len(),
{
    if a.len() == 0 {
        assert(a + b =~= b);
        assert(tab_expand(a) + tab_expand(b) =~= tab_expand(b));
    } else {
        assert((a + b).skip(1) =~= a.skip(1) + b);
        assert((a + b)[0] == a[0]);
        lemma_tab_expand_concat(a.skip(1), b);
        assert(tab_expand(a + b) =~= tab_expand(a) + tab_expand(b));
    }
}

pub proof fn lemma_tab_expand_no_tabs(s: Seq<char>)
    ensures
        has_no_tabs(tab_expand(s)),
    decreases s.len(),
{
    if s.len() > 0 {
        lemma_tab_expand_no_tabs(s.skip(1));
    }
}

pub proof fn lemma_tab_expand_fixed(s: Seq<char>)
    requires
        has_no_tabs(s),
    ensures
        tab_expand(s) == s,
    decreases s.len(),
{
    if s.len() > 0 {
        assert(has_no_tabs(s.skip(1)));
        lemma_tab_expand_fixed(s.skip(1));
        assert(tab_expand(s) =~= s);
    }
}

/// Tab expansion is idempotent: a line that has already been normalized
/// is left exactly as it is by a second pass.
pub proof fn lemma_tab_expand_idempotent(s: Seq<char>)
    ensures
        tab_expand(tab_expand(s)) == tab_expand(s),
{
    lemma_tab_expand_no_tabs(s);
    lemma_tab_expand_fixed(tab_expand(s));
}

/// Replace every tab in `line` with a run of `TAB_SIZE` spaces.
pub fn expand_tabs(line: &Vec<char>) -> (r: Vec<char>)
    ensures
        r@ == tab_expand(line@),
{
    let mut out: Vec<char> = Vec::new();
    let mut i: usize = 0;
    proof {
        assert(line@.take(0) =~= Seq::<char>::empty());
        assert(tab_expand(Seq::<char>::empty()) =~= Seq::<char>::empty());
    }
    while i < line.len()
        invariant
            i <= line.len(),
            out@ == tab_expand(line@.take(i as int)),
        decreases line.len() - i,
    {
        let c = line[i];
        proof {
            assert(line@.take(i + 1) =~= line@.take(i as int) + seq![line@[i as int]]);
            lemma_tab_expand_concat(line@.take(i as int), seq![line@[i as int]]);
            assert(seq![c].skip(1) =~= Seq::<char>::empty());
            assert(tab_expand(Seq::<char>::empty()) =~= Seq::<char>::empty());
            if c == '\t' {
                assert(tab_expand(seq![c]) =~= spaces(TAB_SIZE as nat));
            } else {
                assert(tab_expand(seq![c]) =~= seq![c]);
            }
        }
        if c == '\t' {
            out.push(' ');
            out.push(' ');
            out.push(' ');
            out.push(' ');
            assert(out@ =~= tab_expand(line@.take(i + 1)));
        } else {
            out.push(c);
            assert(out@ =~= tab_expand(line@.take(i + 1)));
        }
        i = i + 1;
    }
    proof {
        assert(line@.take(line@.len() as int) =~= line@);
    }
    out
}

/// The lines of `s` once split on the line terminator, the terminator
/// itself kept out of every line; `cur` is the part of the current line
/// already seen. Splitting always yields at least one line.
pub open spec fn split_lines_from(s: Seq<char>, cur: Seq<char>) -> Seq<Seq<char>>
    decreases s.len(),
{
    if s.len() == 0 {
        seq![cur]
    } else if s[0] == '\n' {
        seq![cur] + split_lines_from(s.skip(1), Seq::<char>::empty())
    } else {
        split_lines_from(s.skip(1), cur.push(s[0]))
    }
}

/// The lines of `s`, split on the line terminator.
pub open spec fn split_lines(s: Seq<char>) -> Seq<Seq<char>> {
    split_lines_from(s, Seq::<char>::empty())
}

/// What a load of `text` produces: the lines of the text, each with its
/// tabs expanded.
pub open spec fn load_lines(text: Seq<char>) -> Seq<Seq<char>> {
    split_lines(text).map_values(|l: Seq<char>| tab_expand(l))
}

pub proof fn lemma_split_lines_from_len(s: Seq<char>, cur: Seq<char>)
    ensures
        split_lines_from(s, cur).len() >= 1,
    decreases s.len(),
{
    if s.len() > 0 && s[0] == '\n' {
        lemma_split_lines_from_len(s.skip(1), Seq::<char>::empty());
    } else if s.len() > 0 {
        lemma_split_lines_from_len(s.skip(1), cur.push(s[0]));
    }
}

/// True when the buffer holds no text at all: a single empty line, the
/// state in which the welcome banner is shown.
pub open spec fn buf_is_empty(b: Seq<Seq<char>>) -> bool {
    b.len() == 1 && b[0].len() == 0
}

/// The length of line `row`, or 0 when `row` is outside the buffer.
pub open spec fn spec_row_len(b: Seq<Seq<char>>, row: int) -> int {
    if 0 <= row < b.len() {
        b[row].len() as int
    } else {
        0
    }
}

/// The display text of line `row` between columns `from` and `to`, both
/// clamped to the line's length; empty when `row` is outside the buffer.
pub open spec fn spec_line_slice(b: Seq<Seq<char>>, row: int, from: int, to: int) -> Seq<char> {
    let l = if 0 <= row < b.len() {
        b[row]
    } else {
        Seq::<char>::empty()
    };
    let f = if from < l.len() {
        from
    } else {
        l.len() as int
    };
    let t = if to < l.len() {
        to
    } else {
        l.len() as int
    };
    l.subrange(f, t)
}

/// The loaded text as an ordered sequence of lines. Every stored line has
/// had its tabs expanded at load time and carries no line terminator.
pub struct LineBuffer {
    pub lines: Vec<Vec<char>>,
}

impl View for LineBuffer {
    type V = Seq<Seq<char>>;

    open spec fn view(&self) -> Seq<Seq<char>> {
        self.lines.deep_view()
    }
}

impl LineBuffer {
    /// A buffer always holds at least one line.
    pub open spec fn wf(self) -> bool {
        self@.len() >= 1
    }

    /// An empty buffer: one empty line, no text.
    pub fn new() -> (b: LineBuffer)
        ensures
            b@ == seq![Seq::<char>::empty()],
            b.wf(),
    {
        let mut lines: Vec<Vec<char>> = Vec::new();
        lines.push(Vec::new());
        let b = LineBuffer { lines };
        proof {
            assert(b@ =~~= seq![Seq::<char>::empty()]);
        }
        b
    }

    /// Build the buffer for `text`: split it into lines and expand the
    /// tabs of every line.
    pub fn load(text: &Vec<char>) -> (b: LineBuffer)
        ensures
            b@ == load_lines(text@),
            b.wf(),
    {
        let mut raw: Vec<Vec<char>> = Vec::new();
        let mut cur: Vec<char> = Vec::new();
        let mut i: usize = 0;
        proof {
            assert(text@.skip(0) =~= text@);
            assert(raw.deep_view() =~= Seq::<Seq<char>>::empty());
            assert(raw.deep_view() + split_lines_from(text@.skip(0), cur@) =~= split_lines(text@));
        }
        while i < text.len()
            invariant
                i <= text.len(),
                raw.deep_view() + split_lines_from(text@.skip(i as int), cur@) == split_lines(
                    text@,
                ),
            decreases text.len() - i,
        {
            let c = text[i];
            proof {
                assert(text@.skip(i as int).skip(1) =~= text@.skip(i + 1));
                assert(text@.skip(i as int)[0] == text@[i as int]);
            }
            if c == '\n' {
                let ghost old_raw = raw.deep_view();
                let ghost old_cur = cur@;
                raw.push(cur);
                cur = Vec::new();
                proof {
                    assert(raw.deep_view() =~~= old_raw.push(old_cur));
                    assert(old_raw.push(old_cur) =~= old_raw + seq![old_cur]);
                    assert((old_raw + seq![old_cur]) + split_lines_from(text@.skip(i + 1), cur@)
                        =~= old_raw + (seq![old_cur] + split_lines_from(text@.skip(i + 1), cur@)));
                }
            } else {
                cur.push(c);
            }
            i = i + 1;
        }
        let ghost old_raw = raw.deep_view();
        let ghost old_cur = cur@;
        raw.push(cur);
        proof {
            assert(text@.skip(text@.len() as int) =~= Seq::<char>::empty());
            assert(raw.deep_view() =~~= old_raw.push(old_cur));
            assert(old_raw.push(old_cur) =~= old_raw + seq![old_cur]);
            assert(raw.deep_view() =~= split_lines(text@));
        }
        let mut lines: Vec<Vec<char>> = Vec::new();
        let mut j: usize = 0;
        while j < raw.len()
            invariant
                j <= raw.len(),
                raw.deep_view() == split_lines(text@),
                lines.deep_view().len() == j,
                forall|k: int|
                    0 <= k < j ==> lines.deep_view()[k] == tab_expand(raw.deep_view()[k]),
            decreases raw.len() - j,
        {
            let ghost old_lines = lines.deep_view();
            let e = expand_tabs(&raw[j]);
            lines.push(e);
            proof {
                assert(raw@[j as int].deep_view() =~= raw@[j as int]@);
                assert(lines.deep_view() =~~= old_lines.push(tab_expand(raw.deep_view()[j as int])));
            }
            j = j + 1;
        }
        let b = LineBuffer { lines };
        proof {
            assert(b@ =~~= load_lines(text@)) by {
                assert(load_lines(text@).len() == split_lines(text@).len());
                assert(forall|k: int|
                    0 <= k < b@.len() ==> b@[k] == load_lines(text@)[k]);
            }
            lemma_split_lines_from_len(text@, Seq::<char>::empty());
        }
        b
    }

    /// How many lines the buffer holds.
    pub fn line_count(&self) -> (n: usize)
        ensures
            n == self@.len(),
    {
        self.lines.len()
    }

    /// True when the buffer holds no text: the welcome-banner state.
    pub fn is_empty(&self) -> (e: bool)
        ensures
            e == buf_is_empty(self@),
    {
        if self.lines.len() == 1 {
            proof {
                assert(self@[0] =~= self.lines@[0]@);
            }
            self.lines[0].len() == 0
        } else {
            false
        }
    }

    /// The length of line `row`; 0 when `row` is out of range.
    pub fn row_len(&self, row: usize) -> (n: usize)
        ensures
            n == spec_row_len(self@, row as int),
    {
        if row < self.lines.len() {
            proof {
                assert(self@[row as int] =~= self.lines@[row as int]@);
            }
            self.lines[row].len()
        } else {
            0
        }
    }

    /// The display text of line `row` between columns `from` and `to`,
    /// clamped to the line's length.
    pub fn line_slice(&self, row: usize, from: usize, to: usize) -> (r: Vec<char>)
        requires
            from <= to,
        ensures
            r@ == spec_line_slice(self@, row as int, from as int, to as int),
    {
        let mut out: Vec<char> = Vec::new();
        if row >= self.lines.len() {
            proof {
                assert(out@ =~= spec_line_slice(self@, row as int, from as int, to as int));
            }
            return out;
        }
        proof {
            assert(self@[row as int] =~= self.lines@[row as int]@);
        }
        let len = self.lines[row].len();
        let f = if from < len {
            from
        } else {
            len
        };
        let t = if to < len {
            to
        } else {
            len
        };
        let mut k = f;
        while k < t
            invariant
                f <= k <= t <= len,
                row < self.lines@.len(),
                len == self.lines@[row as int]@.len(),
                out@ =~= self.lines@[row as int]@.subrange(f as int, k as int),
            decreases t - k,
        {
            let c = self.lines[row][k];
            out.push(c);
            proof {
                assert(out@ =~= self.lines@[row as int]@.subrange(f as int, k + 1));
            }
            k = k + 1;
        }
        proof {
            assert(out@ =~= spec_line_slice(self@, row as int, from as int, to as int));
        }
        out
    }
}

} // verus!
