use vstd::prelude::*;

verus! {

/// Whether a `//` comment starts at `k` in `s`.
pub open spec fn comment_at(s: Seq<char>, k: int) -> bool {
    0 <= k && k + 1 < s.len() && s[k] == '/' && s[k + 1] == '/'
}

/// `line` up to its first `//`, or all of it when it has none.
pub fn remove_comments(line: &str) -> (r: &str)
    ensures
        (forall|k: int| !comment_at(line@, k)) ==> r@ == line@,
        forall|k: int|
            comment_at(line@, k) && (forall|j: int| 0 <= j < k ==> !comment_at(line@, j))
                ==> r@ == line@.subrange(0, k),
{
    let n = line.unicode_len();
    let mut k: usize = 0;
    while k < n
        invariant
            n == line@.len(),
            k <= n,
            forall|j: int| 0 <= j < k ==> !comment_at(line@, j),
        decreases n - k,
    {
        if k + 1 < n && line.get_char(k) == '/' && line.get_char(k + 1) == '/' {
            proof {
                assert(comment_at(line@, k as int));
                assert forall|c: int|
                    comment_at(line@, c) && (forall|j: int| 0 <= j < c ==> !comment_at(line@, j))
                        implies c == k by {
                    if c > k {
                        assert(!comment_at(line@, k as int));
                    }
                }
            }
            return line.substring_char(0, k);
        }
        k = k + 1;
    }
    proof {
        assert forall|j: int| !comment_at(line@, j) by {
            if j >= k && comment_at(line@, j) {
                assert(j + 1 < n);
            }
        }
    }
    line
}

/// The index of the first `\n` at or after `i` in `s`, or `s.len()`.
pub open spec fn line_end(s: Seq<char>, i: int) -> int
    decreases s.len() - i,
{
    if i >= s.len() || i < 0 || s[i] == '\n' {
        i
    } else {
        line_end(s, i + 1)
    }
}

/// A line end lies between its starting index and the end of the text.
pub proof fn lemma_line_end_bounds(s: Seq<char>, i: int)
    requires
        0 <= i,
    ensures
        i <= line_end(s, i),
        i < s.len() ==> line_end(s, i) <= s.len(),
    decreases s.len() - i,
{
    if i < s.len() && s[i] != '\n' {
        lemma_line_end_bounds(s, i + 1);
    }
}

/// The characters of `s` from `a` up to `e`, with every `@ ` marker taken
/// out, scanning left to right.
pub open spec fn unmarked_range(s: Seq<char>, a: int, e: int) -> Seq<char>
    decreases e - a,
{
    if a >= e {
        Seq::empty()
    } else if a + 1 < e && s[a] == '@' && s[a + 1] == ' ' {
        unmarked_range(s, a + 2, e)
    } else {
        seq![s[a]] + unmarked_range(s, a + 1, e)
    }
}

/// The lines of `s` from index `i` on, each without its line ending (`\n`
/// or `\r\n`) and its markers, and each followed by a `\n`.
pub open spec fn relined_from(s: Seq<char>, i: int) -> Seq<char>
    decreases s.len() - i,
{
    if i >= s.len() || i < 0 {
        Seq::empty()
    } else {
        let k = line_end(s, i);
        proof {
            lemma_line_end_bounds(s, i);
        }
        let e = if k < s.len() && k > i && s[k - 1] == '\r' {
            k - 1
        } else {
            k
        };
        let rest = if k < s.len() {
            relined_from(s, k + 1)
        } else {
            Seq::empty()
        };
        unmarked_range(s, i, e) + seq!['\n'] + rest
    }
}

/// A usage message with the placeholder program name taken out: every
/// line loses its `@ ` markers and ends in a single `\n`.
pub fn remove_dummy_char_from_usage_string(message: String) -> (r: String)
    ensures
        r@ == relined_from(message@, 0),
{
    let s = message.as_str();
    let n = s.unicode_len();
    let mut out = String::new();
    let mut start: usize = 0;
    while start < n
        invariant
            n == s@.len(),
            s@ == message@,
            start <= n,
            out@ + relined_from(s@, start as int) == relined_from(s@, 0),
        decreases n - start,
    {
        let mut k: usize = start;
        while k < n && s.get_char(k) != '\n'
            invariant
                n == s@.len(),
                start <= k <= n,
                line_end(s@, start as int) == line_end(s@, k as int),
            decreases n - k,
        {
            k = k + 1;
        }
        let e: usize = if k < n && k > start && s.get_char(k - 1) == '\r' {
            k - 1
        } else {
            k
        };
        let ghost before = out@;
        let mut seg: usize = start;
        let mut a: usize = start;
        while a < e
            invariant
                n == s@.len(),
                start <= seg <= a <= e <= n,
                out@ + s@.subrange(seg as int, a as int) + unmarked_range(s@, a as int, e as int)
                    == before + unmarked_range(s@, start as int, e as int),
            decreases e - a,
        {
            if a + 1 < e && s.get_char(a) == '@' && s.get_char(a + 1) == ' ' {
                let ghost prev = out@;
                out.append(s.substring_char(seg, a));
                proof {
                    assert(s@.subrange(a + 2, a + 2) =~= Seq::<char>::empty());
                    assert(out@ + s@.subrange(a + 2, a + 2) + unmarked_range(s@, a + 2, e as int)
                        =~= prev + s@.subrange(seg as int, a as int) + unmarked_range(
                        s@,
                        a as int,
                        e as int,
                    ));
                }
                a = a + 2;
                seg = a;
            } else {
                proof {
                    assert(s@.subrange(seg as int, a + 1) =~= s@.subrange(seg as int, a as int)
                        + seq![s@[a as int]]);
                    assert(out@ + s@.subrange(seg as int, a + 1) + unmarked_range(
                        s@,
                        a + 1,
                        e as int,
                    ) =~= out@ + s@.subrange(seg as int, a as int) + unmarked_range(
                        s@,
                        a as int,
                        e as int,
                    ));
                }
                a = a + 1;
            }
        }
        out.append(s.substring_char(seg, e));
        let ghost line_done = out@;
        out.append("\n");
        proof {
            reveal_strlit("\n");
            assert(unmarked_range(s@, e as int, e as int) =~= Seq::<char>::empty());
            assert(line_done =~= before + unmarked_range(s@, start as int, e as int));
            assert(k as int == line_end(s@, start as int));
            let next: int = if k < n { k + 1 } else { n as int };
            assert(relined_from(s@, n as int) =~= Seq::<char>::empty());
            assert(relined_from(s@, start as int) =~= unmarked_range(s@, start as int, e as int)
                + seq!['\n'] + relined_from(s@, next));
            assert(out@ + relined_from(s@, next) =~= before + relined_from(s@, start as int));
        }
        start = if k < n {
            k + 1
        } else {
            n
        };
    }
    proof {
        assert(relined_from(s@, start as int) =~= Seq::<char>::empty());
        assert(out@ =~= out@ + relined_from(s@, start as int));
    }
    out
}

} // verus!
