use vstd::prelude::*;

verus! {

/// How many lines of a sample the comma test looks at.
pub const SAMPLE_LINES: usize = 5;

/// The byte of `,`.
pub const COMMA: u8 = 0x2C;

/// The byte of `\n`.
pub const NEWLINE: u8 = 0x0A;

/// The number of commas in `line`.
pub open spec fn comma_count(line: Seq<u8>) -> nat
    decreases line.len(),
{
    if line.len() == 0 {
        0
    } else {
        comma_count(line.drop_last()) + if line.last() == COMMA {
            1nat
        } else {
            0nat
        }
    }
}

/// `s` cut at each `\n`: the lines that a newline has closed, and what follows the
/// last newline.
pub open spec fn split_newlines(s: Seq<u8>) -> (Seq<Seq<u8>>, Seq<u8>)
    decreases s.len(),
{
    if s.len() == 0 {
        (seq![], seq![])
    } else {
        let prev = split_newlines(s.drop_last());
        if s.last() == NEWLINE {
            (prev.0.push(prev.1), seq![])
        } else {
            (prev.0, prev.1.push(s.last()))
        }
    }
}

/// The lines of `s` in the manner of `str::lines`: cut at each `\n`, the last one
/// kept only when it is not empty. A `\r` before a `\n` stays on its line; it is
/// no comma, so no count below depends on it.
pub open spec fn text_lines(s: Seq<u8>) -> Seq<Seq<u8>> {
    let parts = split_newlines(s);
    if parts.1.len() > 0 {
        parts.0.push(parts.1)
    } else {
        parts.0
    }
}

/// The first `SAMPLE_LINES` lines of `s`, or all of them when there are fewer.
pub open spec fn sampled_lines(s: Seq<u8>) -> Seq<Seq<u8>> {
    let ls = text_lines(s);
    if ls.len() > SAMPLE_LINES {
        ls.take(SAMPLE_LINES as int)
    } else {
        ls
    }
}

/// There is a line, the first holds a comma, and every line holds as many commas
/// as the first.
pub open spec fn uniform_commas(lines: Seq<Seq<u8>>) -> bool {
    &&& lines.len() > 0
    &&& comma_count(lines[0]) > 0
    &&& forall|i: int| 0 <= i < lines.len() ==> comma_count(#[trigger] lines[i]) == comma_count(lines[0])
}

/// Whether the sampled lines of `s[..n]` hold one and the same positive number of
/// commas each.
pub fn lines_have_uniform_commas(s: &[u8], n: usize) -> (r: bool)
    requires
        n <= s@.len(),
    ensures
        r == uniform_commas(sampled_lines(s@.take(n as int))),
{
    let mut i: usize = 0;
    let mut lines: usize = 0;
    let mut first: usize = 0;
    let mut cur: usize = 0;
    let mut line_start: bool = true;
    let mut uniform: bool = true;
    while i < n
        invariant
            n <= s@.len(),
            i <= n,
            lines <= i,
            cur <= i,
            !line_start ==> lines < i,
            split_newlines(s@.take(i as int)).0.len() == lines,
            cur == comma_count(split_newlines(s@.take(i as int)).1),
            line_start == (split_newlines(s@.take(i as int)).1.len() == 0),
            lines > 0 ==> first == comma_count(split_newlines(s@.take(i as int)).0[0]),
            uniform == (forall|j: int|
                0 <= j < lines && j < SAMPLE_LINES ==> comma_count(
                    #[trigger] split_newlines(s@.take(i as int)).0[j],
                ) == first),
        decreases n - i,
    {
        let ghost prev = split_newlines(s@.take(i as int));
        let ghost old_lines = lines;
        let ghost old_uniform = uniform;
        assert(old_uniform == (forall|j: int|
            0 <= j < old_lines && j < SAMPLE_LINES ==> comma_count(#[trigger] prev.0[j]) == first));
        let c = s[i];
        if c == NEWLINE {
            if lines == 0 {
                first = cur;
            } else if lines < SAMPLE_LINES && cur != first {
                uniform = false;
            }
            lines = lines + 1;
            cur = 0;
            line_start = true;
        } else {
            if c == COMMA {
                cur = cur + 1;
            }
            line_start = false;
        }
        proof {
            let next = s@.take(i + 1);
            assert(next.drop_last() =~= s@.take(i as int));
            assert(next.last() == c);
            let parts = split_newlines(next);
            if c == NEWLINE {
                assert(parts.0 == prev.0.push(prev.1));
                assert(forall|j: int| 0 <= j < prev.0.len() ==> parts.0[j] == prev.0[j]);
                assert(parts.0[old_lines as int] == prev.1);
                if uniform {
                    assert forall|j: int| 0 <= j < lines && j < SAMPLE_LINES implies comma_count(
                        #[trigger] parts.0[j],
                    ) == first by {
                        if j < old_lines {
                            assert(parts.0[j] == prev.0[j]);
                        }
                    }
                } else if old_uniform {
                    assert(comma_count(parts.0[old_lines as int]) != first);
                } else {
                    let j = choose|j: int|
                        !(0 <= j < old_lines && j < SAMPLE_LINES ==> comma_count(
                            #[trigger] prev.0[j],
                        ) == first);
                    assert(parts.0[j] == prev.0[j]);
                }
            } else {
                assert(parts.0 == prev.0);
                assert(parts.1 == prev.1.push(c));
                assert(parts.1.drop_last() =~= prev.1);
            }
        }
        i = i + 1;
    }
    let ghost parts = split_newlines(s@.take(n as int));
    let ghost ls = text_lines(s@.take(n as int));
    let ghost old_lines = lines;
    let ghost old_uniform = uniform;
    if !line_start {
        if lines == 0 {
            first = cur;
        } else if lines < SAMPLE_LINES && cur != first {
            uniform = false;
        }
        lines = lines + 1;
    }
    proof {
        assert(ls.len() == lines);
        assert(forall|j: int| 0 <= j < parts.0.len() ==> ls[j] == parts.0[j]);
        assert(lines > 0 ==> first == comma_count(ls[0]));
        if !line_start {
            assert(ls[old_lines as int] == parts.1);
        }
        if uniform {
            assert forall|j: int| 0 <= j < lines && j < SAMPLE_LINES implies comma_count(
                #[trigger] ls[j],
            ) == first by {
                if j < old_lines {
                    assert(ls[j] == parts.0[j]);
                }
            }
        } else if !old_uniform {
            let j = choose|j: int|
                !(0 <= j < old_lines && j < SAMPLE_LINES ==> comma_count(#[trigger] parts.0[j])
                    == first);
            assert(ls[j] == parts.0[j]);
        }
        assert(uniform == (forall|j: int| 0 <= j < lines && j < SAMPLE_LINES ==> comma_count(#[trigger] ls[j]) == first));
        let sl = sampled_lines(s@.take(n as int));
        assert(forall|j: int| 0 <= j < sl.len() ==> sl[j] == ls[j]);
        assert(sl.len() == if lines > SAMPLE_LINES { SAMPLE_LINES as int } else { lines as int });
    }
    lines > 0 && first > 0 && uniform
}

} // verus!
