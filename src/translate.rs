//! Line-ending translation policies.
use vstd::prelude::*;

verus! {

/// Carriage return.
pub const CR: u8 = 13;

/// Line feed.
pub const LF: u8 = 10;

/// How line endings are rewritten when bytes enter a relay buffer.
#[derive(Debug, Clone, Copy, PartialEq, Eq, Structural)]
#[allow(non_camel_case_types)]
pub enum LineEndingTranslation {
    /// Bytes pass unchanged.
    Identity,
    /// Every carriage return becomes a line feed (keyboard to shell or network).
    CRtoLF,
    /// Every carriage return is followed by an added line feed (local echo).
    CRtoCRLF,
    /// Every line feed is preceded by an added carriage return (shell to terminal).
    LFtoCRLF,
}

/// What one input byte becomes under a policy.
pub open spec fn translate_byte(b: u8, t: LineEndingTranslation) -> Seq<u8> {
    match t {
        LineEndingTranslation::Identity => seq![b],
        LineEndingTranslation::CRtoLF => if b == CR { seq![LF] } else { seq![b] },
        LineEndingTranslation::CRtoCRLF => if b == CR { seq![CR, LF] } else { seq![b] },
        LineEndingTranslation::LFtoCRLF => if b == LF { seq![CR, LF] } else { seq![b] },
    }
}

/// The translation of a byte sequence: each byte translated on its own, in order.
pub open spec fn translated(s: Seq<u8>, t: LineEndingTranslation) -> Seq<u8>
    decreases s.len(),
{
    if s.len() == 0 {
        Seq::empty()
    } else {
        translated(s.drop_last(), t) + translate_byte(s.last(), t)
    }
}

/// Applies a translation policy to a buffer.
pub fn do_translate(buf: Vec<u8>, trans: LineEndingTranslation) -> (r: Vec<u8>)
    ensures
        r@ == translated(buf@, trans),
{
    let mut out: Vec<u8> = Vec::new();
    let mut i: usize = 0;
    while i < buf.len()
        invariant
            i <= buf.len(),
            out@ == translated(buf@.subrange(0, i as int), trans),
        decreases buf.len() - i,
    {
        let b = buf[i];
        proof {
            assert(buf@.subrange(0, i + 1).drop_last() == buf@.subrange(0, i as int));
        }
        match trans {
            LineEndingTranslation::Identity => out.push(b),
            LineEndingTranslation::CRtoLF => {
                if b == CR {
                    out.push(LF);
                } else {
                    out.push(b);
                }
            },
            LineEndingTranslation::CRtoCRLF => {
                out.push(b);
                if b == CR {
                    out.push(LF);
                }
            },
            LineEndingTranslation::LFtoCRLF => {
                if b == LF {
                    out.push(CR);
                }
                out.push(b);
            },
        }
        proof {
            assert(out@ == translated(buf@.subrange(0, i + 1), trans));
        }
        i = i + 1;
    }
    proof {
        assert(buf@.subrange(0, buf@.len() as int) == buf@);
    }
    out
}

/// Puts a carriage return before every line feed of a slice.
pub fn translate_buffer(inbuf: &[u8]) -> (r: Vec<u8>)
    ensures
        r@ == translated(inbuf@, LineEndingTranslation::LFtoCRLF),
{
    do_translate(vstd::slice::slice_to_vec(inbuf), LineEndingTranslation::LFtoCRLF)
}

/// How many times `x` occurs in `s`.
pub open spec fn count_of(s: Seq<u8>, x: u8) -> nat
    decreases s.len(),
{
    if s.len() == 0 {
        0
    } else {
        count_of(s.drop_last(), x) + if s.last() == x { 1nat } else { 0nat }
    }
}

/// `s` with every carriage return removed.
pub open spec fn without_cr(s: Seq<u8>) -> Seq<u8>
    decreases s.len(),
{
    if s.len() == 0 {
        Seq::empty()
    } else {
        without_cr(s.drop_last()) + if s.last() == CR { Seq::empty() } else { seq![s.last()] }
    }
}

proof fn lemma_split_last<T>(a: Seq<T>, b: Seq<T>)
    requires
        b.len() > 0,
    ensures
        (a + b).drop_last() == a + b.drop_last(),
        (a + b).last() == b.last(),
{
    assert((a + b).drop_last() =~= a + b.drop_last());
}

/// Translation works byte by byte, so it distributes over concatenation.
pub proof fn lemma_translated_concat(a: Seq<u8>, b: Seq<u8>, t: LineEndingTranslation)
    ensures
        translated(a + b, t) == translated(a, t) + translated(b, t),
    decreases b.len(),
{
    if b.len() == 0 {
        assert(a + b =~= a);
        assert(translated(a, t) + translated(b, t) =~= translated(a, t));
    } else {
        lemma_split_last(a, b);
        lemma_translated_concat(a, b.drop_last(), t);
        assert(translated(a, t) + translated(b.drop_last(), t) + translate_byte(b.last(), t)
            =~= translated(a, t) + (translated(b.drop_last(), t) + translate_byte(b.last(), t)));
    }
}

/// The count of a byte distributes over concatenation.
pub proof fn lemma_count_concat(a: Seq<u8>, b: Seq<u8>, x: u8)
    ensures
        count_of(a + b, x) == count_of(a, x) + count_of(b, x),
    decreases b.len(),
{
    if b.len() == 0 {
        assert(a + b =~= a);
    } else {
        lemma_split_last(a, b);
        lemma_count_concat(a, b.drop_last(), x);
    }
}

/// A byte occurs in a sequence exactly when its count is positive.
pub proof fn lemma_count_contains(s: Seq<u8>, x: u8)
    ensures
        (count_of(s, x) > 0) == s.contains(x),
    decreases s.len(),
{
    if s.len() > 0 {
        lemma_count_contains(s.drop_last(), x);
        if s.drop_last().contains(x) {
            let j = choose|j: int| 0 <= j < s.drop_last().len() && s.drop_last()[j] == x;
            assert(s[j] == x);
        }
        if s.contains(x) && s.last() != x {
            let j = choose|j: int| 0 <= j < s.len() && s[j] == x;
            assert(s.drop_last()[j] == x);
        }
        if s.last() == x {
            assert(s[s.len() - 1] == x);
        }
    }
}

/// Under a policy that inserts a byte after or before every `x`, the result grows by
/// one byte for each `x`.
proof fn lemma_translated_len(s: Seq<u8>, t: LineEndingTranslation, x: u8)
    requires
        (t == LineEndingTranslation::CRtoCRLF && x == CR) || (t == LineEndingTranslation::LFtoCRLF
            && x == LF),
    ensures
        translated(s, t).len() == s.len() + count_of(s, x),
    decreases s.len(),
{
    if s.len() > 0 {
        lemma_translated_len(s.drop_last(), t, x);
    }
}

/// A sequence without `x` passes unchanged through a policy that only rewrites `x`.
proof fn lemma_translated_fixed(s: Seq<u8>, t: LineEndingTranslation, x: u8)
    requires
        (t == LineEndingTranslation::CRtoCRLF && x == CR) || (t == LineEndingTranslation::LFtoCRLF
            && x == LF),
        !s.contains(x),
    ensures
        translated(s, t) == s,
    decreases s.len(),
{
    if s.len() > 0 {
        if s.drop_last().contains(x) {
            let j = choose|j: int| 0 <= j < s.drop_last().len() && s.drop_last()[j] == x;
            assert(s[j] == x);
        }
        assert(s[s.len() - 1] == s.last());
        lemma_translated_fixed(s.drop_last(), t, x);
        assert(s.drop_last() + seq![s.last()] =~= s);
    }
}

/// The number of line feeds is kept by `LFtoCRLF`.
proof fn lemma_lf_count_kept(s: Seq<u8>)
    ensures
        count_of(translated(s, LineEndingTranslation::LFtoCRLF), LF) == count_of(s, LF),
    decreases s.len(),
{
    if s.len() > 0 {
        let t = LineEndingTranslation::LFtoCRLF;
        lemma_lf_count_kept(s.drop_last());
        lemma_count_concat(translated(s.drop_last(), t), translate_byte(s.last(), t), LF);
        let tail = translate_byte(s.last(), t);
        assert(count_of(Seq::<u8>::empty(), LF) == 0);
        if s.last() == LF {
            let c = seq![CR];
            assert(tail.last() == LF);
            assert(tail.drop_last() =~= c);
            assert(c.last() == CR);
            assert(c.drop_last() =~= Seq::<u8>::empty());
            assert(count_of(c, LF) == count_of(c.drop_last(), LF));
            assert(count_of(tail, LF) == 1);
        } else {
            assert(tail.last() == s.last());
            assert(tail.drop_last() =~= Seq::<u8>::empty());
            assert(count_of(tail, LF) == 0);
        }
    }
}

/// `LFtoCRLF` puts a carriage return before every line feed. It leaves a sequence
/// unchanged exactly when the sequence holds no line feed, and applying it twice gives
/// the same as applying it once under that same condition only: a sequence that
/// already holds a CR LF pair still gains a second carriage return.
pub proof fn lemma_lf_to_crlf_fixed_points(b: Seq<u8>)
    ensures
        translated(b, LineEndingTranslation::LFtoCRLF).len() == b.len() + count_of(b, LF),
        (translated(b, LineEndingTranslation::LFtoCRLF) == b) == !b.contains(LF),
        (translated(translated(b, LineEndingTranslation::LFtoCRLF), LineEndingTranslation::LFtoCRLF)
            == translated(b, LineEndingTranslation::LFtoCRLF)) == !b.contains(LF),
{
    let t = LineEndingTranslation::LFtoCRLF;
    let once = translated(b, t);
    lemma_translated_len(b, t, LF);
    lemma_translated_len(once, t, LF);
    lemma_lf_count_kept(b);
    lemma_count_contains(b, LF);
    if !b.contains(LF) {
        lemma_translated_fixed(b, t, LF);
    }
}

/// Removing the carriage returns from the output of `LFtoCRLF` gives back the input
/// with its own carriage returns removed; for an input without carriage returns, that
/// is the input itself.
pub proof fn lemma_lf_to_crlf_round_trip(b: Seq<u8>)
    ensures
        without_cr(translated(b, LineEndingTranslation::LFtoCRLF)) == without_cr(b),
        !b.contains(CR) ==> without_cr(translated(b, LineEndingTranslation::LFtoCRLF)) == b,
    decreases b.len(),
{
    let t = LineEndingTranslation::LFtoCRLF;
    if b.len() > 0 {
        lemma_lf_to_crlf_round_trip(b.drop_last());
        lemma_without_cr_concat(translated(b.drop_last(), t), translate_byte(b.last(), t));
        let tail = translate_byte(b.last(), t);
        if b.last() == LF {
            let c = seq![CR];
            assert(tail.last() == LF);
            assert(tail.drop_last() =~= c);
            assert(c.last() == CR);
            assert(c.drop_last() =~= Seq::<u8>::empty());
            assert(without_cr(Seq::<u8>::empty()) =~= Seq::<u8>::empty());
            assert(without_cr(c) =~= without_cr(c.drop_last()));
            assert(without_cr(tail) =~= seq![LF]);
        } else {
            assert(tail.last() == b.last());
            assert(tail.drop_last() =~= Seq::<u8>::empty());
            assert(without_cr(Seq::<u8>::empty()) =~= Seq::<u8>::empty());
            assert(without_cr(tail) =~= without_cr(tail.drop_last()) + if b.last() == CR {
                Seq::<u8>::empty()
            } else {
                seq![b.last()]
            });
        }
        assert(translated(b, t) == translated(b.drop_last(), t) + tail);
        if !b.contains(CR) {
            if b.drop_last().contains(CR) {
                let j = choose|j: int| 0 <= j < b.drop_last().len() && b.drop_last()[j] == CR;
                assert(b[j] == CR);
            }
            assert(b[b.len() - 1] == b.last());
            assert(b.drop_last() + seq![b.last()] =~= b);
        }
    }
}

proof fn lemma_without_cr_concat(a: Seq<u8>, b: Seq<u8>)
    ensures
        without_cr(a + b) == without_cr(a) + without_cr(b),
    decreases b.len(),
{
    if b.len() == 0 {
        assert(a + b =~= a);
        assert(without_cr(a) + without_cr(b) =~= without_cr(a));
    } else {
        lemma_split_last(a, b);
        lemma_without_cr_concat(a, b.drop_last());
        let last = if b.last() == CR { Seq::<u8>::empty() } else { seq![b.last()] };
        assert(without_cr(a) + without_cr(b.drop_last()) + last
            =~= without_cr(a) + (without_cr(b.drop_last()) + last));
    }
}

/// `s` with the line feed that directly follows each carriage return removed.
pub open spec fn without_lf_after_cr(s: Seq<u8>) -> Seq<u8>
    decreases s.len(),
{
    if s.len() == 0 {
        Seq::empty()
    } else if s.len() >= 2 && s.last() == LF && s[s.len() - 2] == CR {
        without_lf_after_cr(s.drop_last().drop_last()) + seq![CR]
    } else {
        without_lf_after_cr(s.drop_last()) + seq![s.last()]
    }
}

/// In the output of `CRtoCRLF` every carriage return is followed by a line feed, and
/// removing the line feed that follows each carriage return gives back the input:
/// the other bytes are kept, in order.
pub proof fn lemma_cr_to_crlf_structure(b: Seq<u8>)
    ensures
        forall|i: int|
            0 <= i < translated(b, LineEndingTranslation::CRtoCRLF).len()
                && #[trigger] translated(b, LineEndingTranslation::CRtoCRLF)[i] == CR ==> i + 1
                < translated(b, LineEndingTranslation::CRtoCRLF).len() && translated(
                b,
                LineEndingTranslation::CRtoCRLF,
            )[i + 1] == LF,
        without_lf_after_cr(translated(b, LineEndingTranslation::CRtoCRLF)) == b,
        translated(b, LineEndingTranslation::CRtoCRLF).len() > 0 ==> translated(
            b,
            LineEndingTranslation::CRtoCRLF,
        ).last() != CR,
    decreases b.len(),
{
    let t = LineEndingTranslation::CRtoCRLF;
    let r = translated(b, t);
    if b.len() > 0 {
        let pb = b.drop_last();
        lemma_cr_to_crlf_structure(pb);
        let rp = translated(pb, t);
        let tail = translate_byte(b.last(), t);
        assert(r == rp + tail);
        assert(b.drop_last() + seq![b.last()] =~= b);
        assert forall|i: int| 0 <= i < r.len() && #[trigger] r[i] == CR implies i + 1 < r.len()
            && r[i + 1] == LF by {
            if i < rp.len() {
                assert(r[i] == rp[i]);
                assert(rp[i] == CR);
                assert(r[i + 1] == rp[i + 1]);
            } else {
                assert(r[i] == tail[i - rp.len()]);
            }
        }
        if b.last() == CR {
            assert(r.drop_last().drop_last() =~= rp);
            assert(r.last() == LF);
            assert(r[r.len() - 2] == CR);
        } else {
            assert(r.drop_last() =~= rp);
            assert(r.last() == b.last());
            if r.len() >= 2 {
                assert(r[r.len() - 2] == rp.last());
            }
        }
    }
}

/// `CRtoCRLF` never shortens its input: it adds one line feed after each carriage
/// return and leaves an input without carriage returns unchanged.
pub proof fn lemma_cr_to_crlf_growth(b: Seq<u8>)
    ensures
        translated(b, LineEndingTranslation::CRtoCRLF).len() == b.len() + count_of(b, CR),
        translated(b, LineEndingTranslation::CRtoCRLF).len() >= b.len(),
        !b.contains(CR) ==> translated(b, LineEndingTranslation::CRtoCRLF) == b,
{
    lemma_translated_len(b, LineEndingTranslation::CRtoCRLF, CR);
    if !b.contains(CR) {
        lemma_translated_fixed(b, LineEndingTranslation::CRtoCRLF, CR);
    }
}

} // verus!
