use vstd::prelude::*;
use vstd::utf8::{decode_utf8, valid_utf8};

verus! {

/// The index of the first occurrence of `b` in `s`, or `-1` when absent.
pub open spec fn find_byte(s: Seq<u8>, b: u8) -> int
    decreases s.len(),
{
    if s.len() == 0 {
        -1
    } else if s[0] == b {
        0
    } else {
        let r = find_byte(s.drop_first(), b);
        if r < 0 {
            -1
        } else {
            r + 1
        }
    }
}

/// `s` split at every occurrence of `b`: the separators themselves are
/// dropped, empty chunks are kept, and an input without separators is the
/// single chunk `s` — so the result always has one more chunk than `s` has
/// separators.
pub open spec fn split_on(s: Seq<u8>, b: u8) -> Seq<Seq<u8>>
    decreases s.len(),
{
    let i = find_byte(s, b);
    if 0 <= i < s.len() {
        seq![s.take(i)] + split_on(s.skip(i + 1), b)
    } else {
        seq![s]
    }
}

proof fn lemma_find_byte(s: Seq<u8>, b: u8)
    ensures
        -1 <= find_byte(s, b) < s.len(),
        find_byte(s, b) >= 0 ==> s[find_byte(s, b)] == b,
        find_byte(s, b) == -1 ==> forall|j: int| 0 <= j < s.len() ==> s[j] != b,
    decreases s.len(),
{
    if s.len() == 0 {
    } else if s[0] == b {
    } else {
        let t = s.drop_first();
        lemma_find_byte(t, b);
        if find_byte(s, b) == -1 {
            assert forall|j: int| 0 <= j < s.len() implies s[j] != b by {
                if j > 0 {
                    assert(t[j - 1] != b);
                }
            }
        }
    }
}

proof fn lemma_split_on_len(s: Seq<u8>, b: u8)
    ensures
        split_on(s, b).len() >= 1,
    decreases s.len(),
{
    lemma_find_byte(s, b);
}

/// Splitting an input whose head is the separator yields an empty first
/// chunk followed by the splitting of the tail.
proof fn lemma_split_on_sep_head(s: Seq<u8>, b: u8)
    requires
        s.len() > 0,
        s[0] == b,
    ensures
        split_on(s, b) == seq![Seq::<u8>::empty()] + split_on(s.drop_first(), b),
{
    assert(find_byte(s, b) == 0);
    assert(s.take(0) =~= Seq::<u8>::empty());
    assert(s.skip(1) =~= s.drop_first());
}

/// Splitting an input whose head is not the separator prepends that head
/// byte to the first chunk of the tail's splitting.
proof fn lemma_split_on_other_head(s: Seq<u8>, b: u8)
    requires
        s.len() > 0,
        s[0] != b,
    ensures
        split_on(s, b) == seq![seq![s[0]] + split_on(s.drop_first(), b)[0]] + split_on(
            s.drop_first(),
            b,
        ).drop_first(),
{
    let t = s.drop_first();
    lemma_find_byte(t, b);
    lemma_find_byte(s, b);
    let r = find_byte(t, b);
    if r < 0 {
        assert(find_byte(s, b) == -1);
        assert(split_on(s, b) == seq![s]);
        assert(split_on(t, b) == seq![t]);
        assert(seq![t].drop_first() =~= Seq::<Seq<u8>>::empty());
        assert(s =~= seq![s[0]] + t);
        assert(seq![seq![s[0]] + t] + Seq::<Seq<u8>>::empty() =~= seq![s]);
    } else {
        assert(find_byte(s, b) == r + 1);
        assert(split_on(s, b) == seq![s.take(r + 1)] + split_on(s.skip(r + 2), b));
        assert(split_on(t, b) == seq![t.take(r)] + split_on(t.skip(r + 1), b));
        assert((seq![t.take(r)] + split_on(t.skip(r + 1), b)).drop_first() =~= split_on(
            t.skip(r + 1),
            b,
        ));
        assert(split_on(t, b)[0] == t.take(r));
        assert(s.take(r + 1) =~= seq![s[0]] + t.take(r));
        assert(s.skip(r + 2) =~= t.skip(r + 1));
        assert(seq![seq![s[0]] + t.take(r)] + split_on(t.skip(r + 1), b) =~= seq![s.take(r + 1)]
            + split_on(s.skip(r + 2), b));
    }
}

/// The splitting of `rest`, with `h` prepended to its first chunk.
spec fn split_from(h: Seq<u8>, rest: Seq<u8>, b: u8) -> Seq<Seq<u8>> {
    let p = split_on(rest, b);
    seq![h + p[0]] + p.drop_first()
}

/// Splits `bytes` at every occurrence of `sep`, separators dropped, empty
/// chunks kept.
pub fn split_bytes(bytes: &Vec<u8>, sep: u8) -> (r: Vec<Vec<u8>>)
    ensures
        r.deep_view() == split_on(bytes@, sep),
{
    let mut out: Vec<Vec<u8>> = Vec::new();
    let mut cur: Vec<u8> = Vec::new();
    let mut i: usize = 0;
    proof {
        assert(bytes@.skip(0) =~= bytes@);
        lemma_split_on_len(bytes@, sep);
        let p = split_on(bytes@, sep);
        assert(Seq::<u8>::empty() + p[0] =~= p[0]);
        assert(seq![p[0]] + p.drop_first() =~= p);
        assert(out.deep_view() =~= Seq::<Seq<u8>>::empty());
        assert(out.deep_view() + split_from(cur@, bytes@.skip(0), sep) =~= p);
    }
    while i < bytes.len()
        invariant
            i <= bytes.len(),
            out.deep_view() + split_from(cur@, bytes@.skip(i as int), sep) == split_on(
                bytes@,
                sep,
            ),
        decreases bytes.len() - i,
    {
        let ghost rest = bytes@.skip(i as int);
        let ghost rest1 = bytes@.skip(i as int + 1);
        proof {
            assert(rest.len() > 0);
            assert(rest[0] == bytes@[i as int]);
            assert(rest.drop_first() =~= rest1);
            lemma_split_on_len(rest1, sep);
        }
        if bytes[i] == sep {
            let ghost out0 = out.deep_view();
            let ghost cur0 = cur@;
            proof {
                lemma_split_on_sep_head(rest, sep);
                let q = split_on(rest1, sep);
                assert(split_on(rest, sep) == seq![Seq::<u8>::empty()] + q);
                assert((seq![Seq::<u8>::empty()] + q)[0] == Seq::<u8>::empty());
                assert((seq![Seq::<u8>::empty()] + q).drop_first() =~= q);
                assert(cur0 + Seq::<u8>::empty() =~= cur0);
                assert(Seq::<u8>::empty() + q[0] =~= q[0]);
                assert(seq![q[0]] + q.drop_first() =~= q);
                assert(split_from(cur0, rest, sep) =~= seq![cur0] + split_from(
                    Seq::<u8>::empty(),
                    rest1,
                    sep,
                ));
            }
            out.push(cur);
            cur = Vec::new();
            proof {
                assert(out.deep_view() =~~= out0.push(cur0));
                assert(out0.push(cur0) =~= out0 + seq![cur0]);
                assert((out0 + seq![cur0]) + split_from(cur@, rest1, sep) =~= out0 + (seq![cur0]
                    + split_from(cur@, rest1, sep)));
                assert(out.deep_view() + split_from(cur@, rest1, sep) =~= split_on(bytes@, sep));
            }
        } else {
            proof {
                lemma_split_on_other_head(rest, sep);
                let q = split_on(rest1, sep);
                assert(split_on(rest, sep) == seq![seq![rest[0]] + q[0]] + q.drop_first());
                assert((seq![seq![rest[0]] + q[0]] + q.drop_first())[0] == seq![rest[0]] + q[0]);
                assert((seq![seq![rest[0]] + q[0]] + q.drop_first()).drop_first() =~= q.drop_first());
                assert(cur@ + (seq![rest[0]] + q[0]) =~= cur@.push(rest[0]) + q[0]);
                assert(split_from(cur@, rest, sep) =~= split_from(cur@.push(rest[0]), rest1, sep));
            }
            let c: u8 = bytes[i];
            cur.push(c);
        }
        i += 1;
    }
    let ghost out0 = out.deep_view();
    let ghost cur0 = cur@;
    proof {
        assert(bytes@.skip(bytes@.len() as int) =~= Seq::<u8>::empty());
        assert(find_byte(Seq::<u8>::empty(), sep) == -1);
        assert(split_on(Seq::<u8>::empty(), sep) == seq![Seq::<u8>::empty()]);
        assert(seq![Seq::<u8>::empty()].drop_first() =~= Seq::<Seq<u8>>::empty());
        assert(cur0 + Seq::<u8>::empty() =~= cur0);
        assert(split_from(cur0, Seq::<u8>::empty(), sep) =~= seq![cur0]);
        assert(out0 + seq![cur0] =~= split_on(bytes@, sep));
    }
    out.push(cur);
    proof {
        assert(out.deep_view() =~~= out0.push(cur0));
        assert(out0.push(cur0) =~= out0 + seq![cur0]);
        assert(out.deep_view() =~= split_on(bytes@, sep));
    }
    out
}

/// True when every line is valid UTF-8.
pub open spec fn all_valid_utf8(lines: Seq<Seq<u8>>) -> bool {
    forall|i: int| 0 <= i < lines.len() ==> valid_utf8(lines[i])
}

/// Each line decoded as text.
pub open spec fn decoded_lines(lines: Seq<Seq<u8>>) -> Seq<Seq<char>> {
    lines.map_values(|l: Seq<u8>| decode_utf8(l))
}

/// Relies on `String::from_utf8`: it succeeds exactly on valid UTF-8 input
/// and returns the text those bytes encode.
#[verifier::external_body]
pub fn bytes_to_string(bytes: Vec<u8>) -> (r: Option<String>)
    ensures
        r is Some <==> valid_utf8(bytes@),
        r matches Some(s) ==> s@ == decode_utf8(bytes@),
{
    String::from_utf8(bytes).ok()
}

/// Decodes each line as text; `None` as soon as any line is not valid
/// UTF-8.
fn decode_lines(lines: Vec<Vec<u8>>) -> (r: Option<Vec<String>>)
    ensures
        r is Some <==> all_valid_utf8(lines.deep_view()),
        r matches Some(v) ==> v.deep_view() == decoded_lines(lines.deep_view()),
{
    let mut out: Vec<String> = Vec::new();
    let mut i: usize = 0;
    while i < lines.len()
        invariant
            i <= lines.len(),
            out@.len() == i as int,
            forall|j: int| 0 <= j < i as int ==> valid_utf8(lines.deep_view()[j]),
            forall|j: int| 0 <= j < i as int ==> out@[j]@ == decode_utf8(lines.deep_view()[j]),
        decreases lines.len() - i,
    {
        let line = lines[i].clone();
        proof {
            assert(line@ == lines.deep_view()[i as int]);
        }
        match bytes_to_string(line) {
            Some(s) => out.push(s),
            None => {
                return None;
            },
        }
        i += 1;
    }
    proof {
        assert forall|j: int|
            0 <= j < lines.deep_view().len() implies out.deep_view()[j] == decoded_lines(
            lines.deep_view(),
        )[j] by {
            assert(out@[j]@ == decode_utf8(lines.deep_view()[j]));
        }
        assert(out.deep_view() =~= decoded_lines(lines.deep_view()));
    }
    Some(out)
}

/// The newline-separated lines of a listing output, with a single trailing
/// empty line (from a terminating newline) trimmed, not collected.
pub open spec fn spec_file_lines(s: Seq<u8>) -> Seq<Seq<u8>> {
    let p = split_on(s, 10);
    if p.len() > 0 && p.last() == Seq::<u8>::empty() {
        p.drop_last()
    } else {
        p
    }
}

/// The decoded file list of a listing output: its lines as text, or `None`
/// where some line is not valid UTF-8.
pub open spec fn spec_file_list(s: Seq<u8>) -> Option<Seq<Seq<char>>> {
    if all_valid_utf8(spec_file_lines(s)) {
        Some(decoded_lines(spec_file_lines(s)))
    } else {
        None
    }
}

/// Decodes a newline-delimited listing into the ordered list of entries: a
/// single trailing empty entry is trimmed, and `None` is returned where the
/// output is not valid text.
pub fn decode_file_list(stdout: &Vec<u8>) -> (r: Option<Vec<String>>)
    ensures
        r is Some <==> spec_file_list(stdout@) is Some,
        r matches Some(v) ==> Some(v.deep_view()) == spec_file_list(stdout@),
{
    let mut lines = split_bytes(stdout, 10);
    proof {
        lemma_split_on_len(stdout@, 10);
    }
    if lines.len() > 0 && lines[lines.len() - 1].len() == 0 {
        proof {
            assert(lines.deep_view().last() =~= Seq::<u8>::empty());
            assert(lines.deep_view().drop_last() =~= spec_file_lines(stdout@));
        }
        lines.pop();
        proof {
            assert(lines.deep_view() =~= spec_file_lines(stdout@));
        }
    } else {
        proof {
            assert(lines.deep_view() == spec_file_lines(stdout@));
        }
    }
    decode_lines(lines)
}

} // verus!
