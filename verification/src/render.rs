//! The runtime model of the emitted debug rendering.
//!
//! The emitted `Debug` impl prints the value's display message, a blank
//! line, and then one `Caused by:` line per cause, walking the causal
//! chain from the immediate cause outward. [`render_debug`] computes that
//! rendering from the display message and the chain, and the lemmas below
//! pin down how often the `Caused by:` marker occurs in it.

use vstd::prelude::*;
use vstd::string::StringExecFns;

verus! {

/// The marker text that opens each cause line.
pub open spec fn caused_by_marker() -> Seq<char> {
    "Caused by:"@
}

/// One cause line of the rendering: the marker, a tab-indented cause
/// message, and a line break.
pub open spec fn cause_line(cause: Seq<char>) -> Seq<char> {
    "Caused by:\n\t"@ + cause + "\n"@
}

/// The rendering of a causal chain: one cause line per cause, the
/// immediate cause first.
pub open spec fn cause_block(causes: Seq<Seq<char>>) -> Seq<char>
    decreases causes.len(),
{
    if causes.len() == 0 {
        Seq::empty()
    } else {
        cause_line(causes[0]) + cause_block(causes.skip(1))
    }
}

/// The whole debug rendering: the display message, a blank line, then the
/// causal chain.
pub open spec fn debug_rendering(display: Seq<char>, causes: Seq<Seq<char>>) -> Seq<char> {
    display + "\n\n"@ + cause_block(causes)
}

/// A value with no cause renders as its display message followed by one
/// blank line and nothing else.
pub proof fn lemma_rendering_no_cause(display: Seq<char>)
    ensures
        debug_rendering(display, Seq::empty()) == display + "\n\n"@,
{
    assert(debug_rendering(display, Seq::empty()) =~= display + "\n\n"@);
}

/// How often `pat` occurs in `s`, counting every start position.
pub open spec fn count_occurrences(s: Seq<char>, pat: Seq<char>) -> nat
    decreases s.len(),
{
    if pat.len() == 0 || s.len() < pat.len() {
        0
    } else {
        (if s.take(pat.len() as int) == pat {
            1nat
        } else {
            0nat
        }) + count_occurrences(s.skip(1), pat)
    }
}

/// No occurrence of `pat` in `a + b` crosses the border between `a` and
/// `b`.
pub open spec fn no_crossing(a: Seq<char>, b: Seq<char>, pat: Seq<char>) -> bool {
    forall|i: int|
        0 <= i && a.len() - pat.len() < i < a.len() && i + pat.len() <= a.len() + b.len()
            ==> #[trigger] (a + b).subrange(i, i + pat.len()) != pat
}

/// If `a` ends in a character that `pat` never holds, no occurrence can
/// cross the border: it would have to contain that character.
proof fn lemma_no_crossing_left(a: Seq<char>, b: Seq<char>, pat: Seq<char>)
    requires
        a.len() == 0 || !pat.contains(a.last()),
    ensures
        no_crossing(a, b, pat),
{
    assert forall|i: int|
        0 <= i && a.len() - pat.len() < i < a.len() && i + pat.len() <= a.len() + b.len() implies #[trigger] (
    a + b).subrange(i, i + pat.len()) != pat by {
        let w = (a + b).subrange(i, i + pat.len());
        if w == pat {
            let k = a.len() - 1 - i;
            assert(w[k] == (a + b)[a.len() - 1]);
            assert(pat[k] == a.last());
            assert(pat.contains(a.last()));
        }
    }
}

/// If `b` begins with a character that `pat` never holds, no occurrence
/// can cross the border either.
proof fn lemma_no_crossing_right(a: Seq<char>, b: Seq<char>, pat: Seq<char>)
    requires
        b.len() == 0 || !pat.contains(b[0]),
    ensures
        no_crossing(a, b, pat),
{
    assert forall|i: int|
        0 <= i && a.len() - pat.len() < i < a.len() && i + pat.len() <= a.len() + b.len() implies #[trigger] (
    a + b).subrange(i, i + pat.len()) != pat by {
        let w = (a + b).subrange(i, i + pat.len());
        if w == pat {
            let k = a.len() - i;
            assert(w[k] == (a + b)[a.len() as int]);
            assert(pat[k] == b[0]);
            assert(pat.contains(b[0]));
        }
    }
}

/// Occurrences of `pat` in `a + b` split over the border when none
/// crosses it.
proof fn lemma_count_concat(a: Seq<char>, b: Seq<char>, pat: Seq<char>)
    requires
        pat.len() > 0,
        no_crossing(a, b, pat),
    ensures
        count_occurrences(a + b, pat) == count_occurrences(a, pat) + count_occurrences(b, pat),
    decreases a.len(),
{
    let s = a + b;
    if a.len() == 0 {
        assert(s =~= b);
        assert(count_occurrences(a, pat) == 0);
    } else {
        assert(s.skip(1) =~= a.skip(1) + b);
        assert forall|i: int|
            0 <= i && a.skip(1).len() - pat.len() < i < a.skip(1).len() && i + pat.len() <= a.skip(
                1,
            ).len() + b.len() implies #[trigger] (a.skip(1) + b).subrange(i, i + pat.len()) != pat by {
            assert((a.skip(1) + b).subrange(i, i + pat.len()) =~= s.subrange(
                i + 1,
                i + 1 + pat.len(),
            ));
        }
        lemma_count_concat(a.skip(1), b, pat);
        if s.len() < pat.len() {
            assert(count_occurrences(s, pat) == 0);
            assert(count_occurrences(a, pat) == 0);
            assert(count_occurrences(b, pat) == 0);
        } else if pat.len() <= a.len() {
            assert(s.take(pat.len() as int) =~= a.take(pat.len() as int));
        } else {
            let z: int = 0;
            assert(s.subrange(z, z + pat.len()) != pat);
            assert(s.take(pat.len() as int) =~= s.subrange(z, z + pat.len()));
            assert(count_occurrences(a, pat) == 0);
            assert(count_occurrences(a.skip(1), pat) == 0);
        }
    }
}

/// Facts about the marker literal that the counting lemmas lean on: its
/// length, and that it holds neither a line break nor a tab.
proof fn lemma_marker_shape()
    ensures
        caused_by_marker().len() == 10,
        !caused_by_marker().contains('\n'),
        !caused_by_marker().contains('\t'),
        "Caused by:\n\t"@ == caused_by_marker() + "\n\t"@,
        count_occurrences(caused_by_marker(), caused_by_marker()) == 1,
        count_occurrences("\n\t"@, caused_by_marker()) == 0,
        count_occurrences("\n"@, caused_by_marker()) == 0,
        count_occurrences("\n\n"@, caused_by_marker()) == 0,
        "\n\t"@.len() == 2 && "\n\t"@[0] == '\n' && "\n\t"@[1] == '\t',
        "\n"@.len() == 1 && "\n"@[0] == '\n',
        "\n\n"@.len() == 2 && "\n\n"@[0] == '\n' && "\n\n"@[1] == '\n',
{
    reveal_strlit("Caused by:");
    reveal_strlit("Caused by:\n\t");
    reveal_strlit("\n\t");
    reveal_strlit("\n");
    reveal_strlit("\n\n");
    let pat = caused_by_marker();
    assert forall|j: int| 0 <= j < pat.len() implies pat[j] != '\n' && pat[j] != '\t' by {
        assert(pat.len() == 10);
    }
    assert("Caused by:\n\t"@ =~= pat + "\n\t"@);
    assert(pat.take(pat.len() as int) =~= pat);
    assert(count_occurrences(pat.skip(1), pat) == 0);
}

/// One cause line holds the marker exactly once more often than the cause
/// text itself does.
proof fn lemma_cause_line_count(cause: Seq<char>)
    ensures
        count_occurrences(cause_line(cause), caused_by_marker()) == 1 + count_occurrences(
            cause,
            caused_by_marker(),
        ),
{
    let pat = caused_by_marker();
    lemma_marker_shape();
    let tail = "\n\t"@ + cause + "\n"@;
    assert(cause_line(cause) =~= pat + tail);
    assert(tail[0] == '\n');
    lemma_no_crossing_right(pat, tail, pat);
    lemma_count_concat(pat, tail, pat);
    assert(tail =~= "\n\t"@ + (cause + "\n"@));
    assert("\n\t"@.last() == '\t');
    lemma_no_crossing_left("\n\t"@, cause + "\n"@, pat);
    lemma_count_concat("\n\t"@, cause + "\n"@, pat);
    assert(("\n"@)[0] == '\n');
    lemma_no_crossing_right(cause, "\n"@, pat);
    lemma_count_concat(cause, "\n"@, pat);
}

/// The causal-chain block holds the marker once per cause, provided no
/// cause text holds the marker itself.
proof fn lemma_cause_block_count(causes: Seq<Seq<char>>)
    requires
        forall|i: int|
            0 <= i < causes.len() ==> count_occurrences(
                #[trigger] causes[i],
                caused_by_marker(),
            ) == 0,
    ensures
        count_occurrences(cause_block(causes), caused_by_marker()) == causes.len(),
    decreases causes.len(),
{
    let pat = caused_by_marker();
    lemma_marker_shape();
    if causes.len() == 0 {
        assert(count_occurrences(cause_block(causes), pat) == 0);
    } else {
        let line = cause_line(causes[0]);
        let rest = cause_block(causes.skip(1));
        assert(line.last() == '\n') by {
            assert(line =~= ("Caused by:\n\t"@ + causes[0]) + "\n"@);
            assert(line[line.len() - 1] == ("\n"@)[0]);
        }
        lemma_no_crossing_left(line, rest, pat);
        lemma_count_concat(line, rest, pat);
        lemma_cause_line_count(causes[0]);
        lemma_cause_block_count(causes.skip(1));
    }
}

/// The debug rendering of a chain of `N` causes holds the `Caused by:`
/// marker exactly `N` times, provided neither the display message nor any
/// cause text holds the marker itself: one marker per cause, the
/// immediate cause first.
pub proof fn lemma_caused_by_count(display: Seq<char>, causes: Seq<Seq<char>>)
    requires
        count_occurrences(display, caused_by_marker()) == 0,
        forall|i: int|
            0 <= i < causes.len() ==> count_occurrences(
                #[trigger] causes[i],
                caused_by_marker(),
            ) == 0,
    ensures
        count_occurrences(debug_rendering(display, causes), caused_by_marker()) == causes.len(),
{
    let pat = caused_by_marker();
    lemma_marker_shape();
    let head = display + "\n\n"@;
    assert(debug_rendering(display, causes) == head + cause_block(causes));
    assert(head.last() == '\n') by {
        assert(head[head.len() - 1] == ("\n\n"@)[1]);
    }
    lemma_no_crossing_left(head, cause_block(causes), pat);
    lemma_count_concat(head, cause_block(causes), pat);
    assert(("\n\n"@)[0] == '\n');
    lemma_no_crossing_right(display, "\n\n"@, pat);
    lemma_count_concat(display, "\n\n"@, pat);
    lemma_cause_block_count(causes);
}

/// Compute the debug rendering of a value from its display message and
/// its causal chain, the immediate cause first.
pub fn render_debug(display: &str, causes: &Vec<String>) -> (r: String)
    ensures
        r@ == debug_rendering(display@, causes@.map_values(|c: String| c@)),
{
    let ghost views = causes@.map_values(|c: String| c@);
    let mut out = display.to_owned();
    out.append("\n\n");
    let mut k: usize = 0;
    while k < causes.len()
        invariant
            k <= causes@.len(),
            views == causes@.map_values(|c: String| c@),
            out@ == display@ + "\n\n"@ + cause_block(views.take(k as int)),
        decreases causes@.len() - k,
    {
        out.append("Caused by:\n\t");
        out.append(causes[k].as_str());
        out.append("\n");
        k = k + 1;
        proof {
            lemma_cause_block_snoc(views.take(k - 1), views[k - 1]);
            assert(views.take(k as int) =~= views.take(k - 1).push(views[k - 1]));
            assert(out@ =~= display@ + "\n\n"@ + cause_block(views.take(k as int)));
        }
    }
    proof {
        assert(views.take(views.len() as int) =~= views);
        assert(out@ =~= debug_rendering(display@, views));
    }
    out
}

/// Appending one cause to the chain appends one cause line to the block.
proof fn lemma_cause_block_snoc(causes: Seq<Seq<char>>, cause: Seq<char>)
    ensures
        cause_block(causes.push(cause)) == cause_block(causes) + cause_line(cause),
    decreases causes.len(),
{
    if causes.len() == 0 {
        assert(causes.push(cause).skip(1) =~= Seq::<Seq<char>>::empty());
        assert(causes.push(cause)[0] == cause);
        assert(cause_block(causes.push(cause)) == cause_line(cause) + cause_block(
            Seq::<Seq<char>>::empty(),
        ));
        assert(cause_block(causes.push(cause)) =~= cause_block(causes) + cause_line(cause));
    } else {
        lemma_cause_block_snoc(causes.skip(1), cause);
        assert(causes.push(cause).skip(1) =~= causes.skip(1).push(cause));
        assert(causes.push(cause)[0] == causes[0]);
        assert(cause_block(causes.push(cause)) == cause_line(causes[0]) + cause_block(
            causes.skip(1).push(cause),
        ));
        assert(cause_block(causes.push(cause)) =~= cause_block(causes) + cause_line(cause));
    }
}

} // verus!
