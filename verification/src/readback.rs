//! What the library writes, it reads back: fields joined by commas split
//! into the same fields, number literals read back as the same literals,
//! and a written sentence passes the reader's frame and checksum checks.

use vstd::prelude::*;
use vstd::string::*;
use vstd::utf8::*;

use crate::generate::{
    lemma_hex_char_digit, lemma_sentence_frame_round_trip, lemma_written_checksum_is_computed,
    sentence_checksum, sentence_text,
};
use crate::parse::{ParseResult, SENTENCE_MAX_LEN, dispatch_result, parse_text_result};
use crate::error::Error;
use crate::sentence_type::{SentenceType, lemma_code_is_ascii};
use crate::strings::{number_text, opt_text};
use crate::text::{
    NumV, Number, Scan, digit_run, exponent_scan, float_scan, is_digit, lemma_digit_run_bounds,
    lemma_split_fields_nonempty, literal_value, mantissa_end, num_view, opt_float_field,
    opt_num_view, opt_std_float_field, sign_len, split_fields,
};

verus! {

// ---------------------------------------------------------------------------
// Fields
// ---------------------------------------------------------------------------

/// Joining two texts with a comma joins their fields.
pub proof fn lemma_split_fields_join(a: Seq<char>, b: Seq<char>)
    ensures
        split_fields(a + seq![','] + b) == split_fields(a) + split_fields(b),
    decreases b.len(),
{
    let ab = a + seq![','] + b;
    if b.len() == 0 {
        assert(ab.drop_last() =~= a);
        assert(ab =~= a + seq![',']);
        assert(split_fields(a) + seq![Seq::<char>::empty()] =~= split_fields(a).push(Seq::<char>::empty()));
    } else {
        let b0 = b.drop_last();
        lemma_split_fields_join(a, b0);
        assert(ab.drop_last() =~= a + seq![','] + b0);
        assert(ab.last() == b.last());
        lemma_split_fields_nonempty(b0);
        lemma_split_fields_nonempty(a);
        let r = split_fields(a + seq![','] + b0);
        let ra = split_fields(a);
        let rb = split_fields(b0);
        if b.last() == ',' {
            assert(split_fields(ab) =~= r.push(Seq::<char>::empty()));
            assert(split_fields(b) =~= rb.push(Seq::<char>::empty()));
            assert(ra + rb.push(Seq::<char>::empty()) =~= (ra + rb).push(Seq::<char>::empty()));
        } else {
            assert(split_fields(b) =~= rb.update(rb.len() - 1, rb.last().push(b.last())));
            assert(split_fields(ab) =~= r.update(r.len() - 1, r.last().push(b.last())));
            assert(ra + rb.update(rb.len() - 1, rb.last().push(b.last())) =~= (ra + rb).update(
                (ra + rb).len() - 1,
                (ra + rb).last().push(b.last()),
            ));
        }
    }
}

/// A text without commas is a single field.
pub proof fn lemma_split_fields_single(a: Seq<char>)
    requires
        !a.contains(','),
    ensures
        split_fields(a) == seq![a],
    decreases a.len(),
{
    if a.len() > 0 {
        let a0 = a.drop_last();
        assert(!a0.contains(',')) by {
            if a0.contains(',') {
                let i = choose|i: int| 0 <= i < a0.len() && a0[i] == ',';
                assert(a[i] == ',');
            }
        }
        lemma_split_fields_single(a0);
        assert(a.last() != ',') by {
            assert(a[a.len() - 1] == a.last());
        }
        assert(a0.push(a.last()) =~= a);
    } else {
        assert(a =~= Seq::<char>::empty());
    }
}

/// Texts joined with a comma between each two.
pub open spec fn join(s: Seq<Seq<char>>) -> Seq<char>
    decreases s.len(),
{
    if s.len() == 0 {
        Seq::empty()
    } else if s.len() == 1 {
        s[0]
    } else {
        join(s.drop_last()) + seq![','] + s.last()
    }
}

/// None of the texts holds a comma.
pub open spec fn comma_free(s: Seq<Seq<char>>) -> bool {
    forall|i: int| 0 <= i < s.len() ==> !(#[trigger] s[i]).contains(',')
}

/// Texts without commas, joined with commas, split back into themselves.
pub proof fn lemma_split_join(s: Seq<Seq<char>>)
    requires
        s.len() >= 1,
        comma_free(s),
    ensures
        split_fields(join(s)) == s,
    decreases s.len(),
{
    if s.len() == 1 {
        lemma_split_fields_single(s[0]);
        assert(seq![s[0]] =~= s);
    } else {
        let s0 = s.drop_last();
        assert(comma_free(s0)) by {
            assert forall|i: int| 0 <= i < s0.len() implies !(#[trigger] s0[i]).contains(',') by {
                assert(s0[i] == s[i]);
            }
        }
        lemma_split_join(s0);
        assert(!s[s.len() - 1].contains(','));
        lemma_split_fields_single(s.last());
        lemma_split_fields_join(join(s0), s.last());
        assert(s0 + seq![s.last()] =~= s);
    }
}

/// None of the texts holds a `*`, and all are ASCII.
pub open spec fn plain_fields(s: Seq<Seq<char>>) -> bool {
    forall|i: int| 0 <= i < s.len() ==> !(#[trigger] s[i]).contains('*') && is_ascii_chars(s[i])
}

/// One more field after a comma: the fields of `a` and then `t`.
pub proof fn lemma_split_push(a: Seq<char>, t: Seq<char>)
    requires
        !t.contains(','),
    ensures
        split_fields(a + seq![','] + t) == split_fields(a).push(t),
{
    lemma_split_fields_join(a, t);
    lemma_split_fields_single(t);
    assert(split_fields(a) + seq![t] =~= split_fields(a).push(t));
}

/// A one-character ASCII text: no comma, no `*` when the character is
/// neither.
pub proof fn lemma_char_plain(c: char)
    requires
        c != ',',
        c != '*',
        '\0' <= c <= '\u{7f}',
    ensures
        !seq![c].contains(','),
        !seq![c].contains('*'),
        is_ascii_chars(seq![c]),
{
    lemma_char_comma_free(c);
    lemma_char_star_free(c);
}

/// A flag written as one of two letters holds no comma or `*` and is ASCII.
pub proof fn lemma_flag_plain(b: bool, t: char, f: char)
    requires
        t != ',' && t != '*' && '\0' <= t <= '\u{7f}',
        f != ',' && f != '*' && '\0' <= f <= '\u{7f}',
    ensures
        !(if b { seq![t] } else { seq![f] }).contains(','),
        !(if b { seq![t] } else { seq![f] }).contains('*'),
        is_ascii_chars(if b { seq![t] } else { seq![f] }),
{
    lemma_char_plain(t);
    lemma_char_plain(f);
}

/// A text whose fields hold no `*` and are ASCII holds no `*` and is
/// ASCII itself: its other characters are commas.
pub proof fn lemma_plain_from_fields(s: Seq<char>)
    requires
        plain_fields(split_fields(s)),
    ensures
        !s.contains('*'),
        is_ascii_chars(s),
    decreases s.len(),
{
    if s.len() > 0 {
        let s0 = s.drop_last();
        let c = s.last();
        let r = split_fields(s0);
        lemma_split_fields_nonempty(s0);
        let fs = split_fields(s);
        if c == ',' {
            assert(fs == r.push(Seq::<char>::empty()));
            assert(plain_fields(r)) by {
                assert forall|i: int| 0 <= i < r.len() implies !(#[trigger] r[i]).contains('*') && is_ascii_chars(r[i]) by {
                    assert(r[i] == fs[i]);
                }
            }
        } else {
            let l = r.last().push(c);
            assert(fs == r.update(r.len() - 1, l));
            assert(!fs[r.len() - 1].contains('*') && is_ascii_chars(fs[r.len() - 1]));
            assert(l[l.len() - 1] == c);
            assert(c != '*') by {
                if c == '*' {
                    assert(l.contains('*'));
                }
            }
            assert(plain_fields(r)) by {
                assert forall|i: int| 0 <= i < r.len() implies !(#[trigger] r[i]).contains('*') && is_ascii_chars(r[i]) by {
                    if i < r.len() - 1 {
                        assert(r[i] == fs[i]);
                    } else {
                        assert forall|k: int| 0 <= k < r[i].len() implies r[i][k] != '*' && '\0' <= #[trigger] r[i][k] <= '\u{7f}' by {
                            assert(r[i][k] == l[k]);
                        }
                    }
                }
            }
        }
        lemma_plain_from_fields(s0);
        assert forall|i: int| 0 <= i < s.len() implies s[i] != '*' && '\0' <= #[trigger] s[i] <= '\u{7f}' by {
            if i < s.len() - 1 {
                assert(s[i] == s0[i]);
            } else {
                if c != ',' {
                    let l = r.last().push(c);
                    assert(fs[r.len() - 1] == l);
                    assert(l[l.len() - 1] == c);
                }
            }
        }
    }
}

/// A one-character text other than a comma holds no comma.
pub proof fn lemma_char_comma_free(c: char)
    requires
        c != ',',
    ensures
        !seq![c].contains(','),
{
    if seq![c].contains(',') {
        let i = choose|i: int| 0 <= i < 1 && seq![c][i] == ',';
        assert(seq![c][i] == c);
    }
}

/// 2 texts without commas, joined with commas, split back into them.
pub proof fn lemma_split_fields_2(t0: Seq<char>, t1: Seq<char>)
    requires
        !t0.contains(','),
        !t1.contains(','),
    ensures
        split_fields(t0 + seq![','] + t1) == seq![t0, t1],
{
    lemma_split_fields_single(t0);
    lemma_split_push(t0, t1);
    assert(split_fields(t0 + seq![','] + t1) =~= seq![t0, t1]);
}

/// 3 texts without commas, joined with commas, split back into them.
pub proof fn lemma_split_fields_3(t0: Seq<char>, t1: Seq<char>, t2: Seq<char>)
    requires
        !t0.contains(','),
        !t1.contains(','),
        !t2.contains(','),
    ensures
        split_fields(t0 + seq![','] + t1 + seq![','] + t2) == seq![t0, t1, t2],
{
    lemma_split_fields_single(t0);
    lemma_split_push(t0, t1);
    lemma_split_push((t0 + seq![','] + t1), t2);
    assert(split_fields(t0 + seq![','] + t1 + seq![','] + t2) =~= seq![t0, t1, t2]);
}

/// 4 texts without commas, joined with commas, split back into them.
pub proof fn lemma_split_fields_4(t0: Seq<char>, t1: Seq<char>, t2: Seq<char>, t3: Seq<char>)
    requires
        !t0.contains(','),
        !t1.contains(','),
        !t2.contains(','),
        !t3.contains(','),
    ensures
        split_fields(t0 + seq![','] + t1 + seq![','] + t2 + seq![','] + t3) == seq![t0, t1, t2, t3],
{
    lemma_split_fields_single(t0);
    lemma_split_push(t0, t1);
    lemma_split_push((t0 + seq![','] + t1), t2);
    lemma_split_push(((t0 + seq![','] + t1) + seq![','] + t2), t3);
    assert(split_fields(t0 + seq![','] + t1 + seq![','] + t2 + seq![','] + t3) =~= seq![t0, t1, t2, t3]);
}

/// 5 texts without commas, joined with commas, split back into them.
pub proof fn lemma_split_fields_5(t0: Seq<char>, t1: Seq<char>, t2: Seq<char>, t3: Seq<char>, t4: Seq<char>)
    requires
        !t0.contains(','),
        !t1.contains(','),
        !t2.contains(','),
        !t3.contains(','),
        !t4.contains(','),
    ensures
        split_fields(t0 + seq![','] + t1 + seq![','] + t2 + seq![','] + t3 + seq![','] + t4) == seq![t0, t1, t2, t3, t4],
{
    lemma_split_fields_single(t0);
    lemma_split_push(t0, t1);
    lemma_split_push((t0 + seq![','] + t1), t2);
    lemma_split_push(((t0 + seq![','] + t1) + seq![','] + t2), t3);
    lemma_split_push((((t0 + seq![','] + t1) + seq![','] + t2) + seq![','] + t3), t4);
    assert(split_fields(t0 + seq![','] + t1 + seq![','] + t2 + seq![','] + t3 + seq![','] + t4) =~= seq![t0, t1, t2, t3, t4]);
}

/// 6 texts without commas, joined with commas, split back into them.
pub proof fn lemma_split_fields_6(t0: Seq<char>, t1: Seq<char>, t2: Seq<char>, t3: Seq<char>, t4: Seq<char>, t5: Seq<char>)
    requires
        !t0.contains(','),
        !t1.contains(','),
        !t2.contains(','),
        !t3.contains(','),
        !t4.contains(','),
        !t5.contains(','),
    ensures
        split_fields(t0 + seq![','] + t1 + seq![','] + t2 + seq![','] + t3 + seq![','] + t4 + seq![','] + t5) == seq![t0, t1, t2, t3, t4, t5],
{
    lemma_split_fields_single(t0);
    lemma_split_push(t0, t1);
    lemma_split_push((t0 + seq![','] + t1), t2);
    lemma_split_push(((t0 + seq![','] + t1) + seq![','] + t2), t3);
    lemma_split_push((((t0 + seq![','] + t1) + seq![','] + t2) + seq![','] + t3), t4);
    lemma_split_push(((((t0 + seq![','] + t1) + seq![','] + t2) + seq![','] + t3) + seq![','] + t4), t5);
    assert(split_fields(t0 + seq![','] + t1 + seq![','] + t2 + seq![','] + t3 + seq![','] + t4 + seq![','] + t5) =~= seq![t0, t1, t2, t3, t4, t5]);
}

/// 7 texts without commas, joined with commas, split back into them.
pub proof fn lemma_split_fields_7(t0: Seq<char>, t1: Seq<char>, t2: Seq<char>, t3: Seq<char>, t4: Seq<char>, t5: Seq<char>, t6: Seq<char>)
    requires
        !t0.contains(','),
        !t1.contains(','),
        !t2.contains(','),
        !t3.contains(','),
        !t4.contains(','),
        !t5.contains(','),
        !t6.contains(','),
    ensures
        split_fields(t0 + seq![','] + t1 + seq![','] + t2 + seq![','] + t3 + seq![','] + t4 + seq![','] + t5 + seq![','] + t6) == seq![t0, t1, t2, t3, t4, t5, t6],
{
    lemma_split_fields_single(t0);
    lemma_split_push(t0, t1);
    lemma_split_push((t0 + seq![','] + t1), t2);
    lemma_split_push(((t0 + seq![','] + t1) + seq![','] + t2), t3);
    lemma_split_push((((t0 + seq![','] + t1) + seq![','] + t2) + seq![','] + t3), t4);
    lemma_split_push(((((t0 + seq![','] + t1) + seq![','] + t2) + seq![','] + t3) + seq![','] + t4), t5);
    lemma_split_push((((((t0 + seq![','] + t1) + seq![','] + t2) + seq![','] + t3) + seq![','] + t4) + seq![','] + t5), t6);
    assert(split_fields(t0 + seq![','] + t1 + seq![','] + t2 + seq![','] + t3 + seq![','] + t4 + seq![','] + t5 + seq![','] + t6) =~= seq![t0, t1, t2, t3, t4, t5, t6]);
}

/// 8 texts without commas, joined with commas, split back into them.
pub proof fn lemma_split_fields_8(t0: Seq<char>, t1: Seq<char>, t2: Seq<char>, t3: Seq<char>, t4: Seq<char>, t5: Seq<char>, t6: Seq<char>, t7: Seq<char>)
    requires
        !t0.contains(','),
        !t1.contains(','),
        !t2.contains(','),
        !t3.contains(','),
        !t4.contains(','),
        !t5.contains(','),
        !t6.contains(','),
        !t7.contains(','),
    ensures
        split_fields(t0 + seq![','] + t1 + seq![','] + t2 + seq![','] + t3 + seq![','] + t4 + seq![','] + t5 + seq![','] + t6 + seq![','] + t7) == seq![t0, t1, t2, t3, t4, t5, t6, t7],
{
    lemma_split_fields_single(t0);
    lemma_split_push(t0, t1);
    lemma_split_push((t0 + seq![','] + t1), t2);
    lemma_split_push(((t0 + seq![','] + t1) + seq![','] + t2), t3);
    lemma_split_push((((t0 + seq![','] + t1) + seq![','] + t2) + seq![','] + t3), t4);
    lemma_split_push(((((t0 + seq![','] + t1) + seq![','] + t2) + seq![','] + t3) + seq![','] + t4), t5);
    lemma_split_push((((((t0 + seq![','] + t1) + seq![','] + t2) + seq![','] + t3) + seq![','] + t4) + seq![','] + t5), t6);
    lemma_split_push(((((((t0 + seq![','] + t1) + seq![','] + t2) + seq![','] + t3) + seq![','] + t4) + seq![','] + t5) + seq![','] + t6), t7);
    assert(split_fields(t0 + seq![','] + t1 + seq![','] + t2 + seq![','] + t3 + seq![','] + t4 + seq![','] + t5 + seq![','] + t6 + seq![','] + t7) =~= seq![t0, t1, t2, t3, t4, t5, t6, t7]);
}

/// 9 texts without commas, joined with commas, split back into them.
pub proof fn lemma_split_fields_9(t0: Seq<char>, t1: Seq<char>, t2: Seq<char>, t3: Seq<char>, t4: Seq<char>, t5: Seq<char>, t6: Seq<char>, t7: Seq<char>, t8: Seq<char>)
    requires
        !t0.contains(','),
        !t1.contains(','),
        !t2.contains(','),
        !t3.contains(','),
        !t4.contains(','),
        !t5.contains(','),
        !t6.contains(','),
        !t7.contains(','),
        !t8.contains(','),
    ensures
        split_fields(t0 + seq![','] + t1 + seq![','] + t2 + seq![','] + t3 + seq![','] + t4 + seq![','] + t5 + seq![','] + t6 + seq![','] + t7 + seq![','] + t8) == seq![t0, t1, t2, t3, t4, t5, t6, t7, t8],
{
    lemma_split_fields_single(t0);
    lemma_split_push(t0, t1);
    lemma_split_push((t0 + seq![','] + t1), t2);
    lemma_split_push(((t0 + seq![','] + t1) + seq![','] + t2), t3);
    lemma_split_push((((t0 + seq![','] + t1) + seq![','] + t2) + seq![','] + t3), t4);
    lemma_split_push(((((t0 + seq![','] + t1) + seq![','] + t2) + seq![','] + t3) + seq![','] + t4), t5);
    lemma_split_push((((((t0 + seq![','] + t1) + seq![','] + t2) + seq![','] + t3) + seq![','] + t4) + seq![','] + t5), t6);
    lemma_split_push(((((((t0 + seq![','] + t1) + seq![','] + t2) + seq![','] + t3) + seq![','] + t4) + seq![','] + t5) + seq![','] + t6), t7);
    lemma_split_push((((((((t0 + seq![','] + t1) + seq![','] + t2) + seq![','] + t3) + seq![','] + t4) + seq![','] + t5) + seq![','] + t6) + seq![','] + t7), t8);
    assert(split_fields(t0 + seq![','] + t1 + seq![','] + t2 + seq![','] + t3 + seq![','] + t4 + seq![','] + t5 + seq![','] + t6 + seq![','] + t7 + seq![','] + t8) =~= seq![t0, t1, t2, t3, t4, t5, t6, t7, t8]);
}

/// 10 texts without commas, joined with commas, split back into them.
pub proof fn lemma_split_fields_10(t0: Seq<char>, t1: Seq<char>, t2: Seq<char>, t3: Seq<char>, t4: Seq<char>, t5: Seq<char>, t6: Seq<char>, t7: Seq<char>, t8: Seq<char>, t9: Seq<char>)
    requires
        !t0.contains(','),
        !t1.contains(','),
        !t2.contains(','),
        !t3.contains(','),
        !t4.contains(','),
        !t5.contains(','),
        !t6.contains(','),
        !t7.contains(','),
        !t8.contains(','),
        !t9.contains(','),
    ensures
        split_fields(t0 + seq![','] + t1 + seq![','] + t2 + seq![','] + t3 + seq![','] + t4 + seq![','] + t5 + seq![','] + t6 + seq![','] + t7 + seq![','] + t8 + seq![','] + t9) == seq![t0, t1, t2, t3, t4, t5, t6, t7, t8, t9],
{
    lemma_split_fields_single(t0);
    lemma_split_push(t0, t1);
    lemma_split_push((t0 + seq![','] + t1), t2);
    lemma_split_push(((t0 + seq![','] + t1) + seq![','] + t2), t3);
    lemma_split_push((((t0 + seq![','] + t1) + seq![','] + t2) + seq![','] + t3), t4);
    lemma_split_push(((((t0 + seq![','] + t1) + seq![','] + t2) + seq![','] + t3) + seq![','] + t4), t5);
    lemma_split_push((((((t0 + seq![','] + t1) + seq![','] + t2) + seq![','] + t3) + seq![','] + t4) + seq![','] + t5), t6);
    lemma_split_push(((((((t0 + seq![','] + t1) + seq![','] + t2) + seq![','] + t3) + seq![','] + t4) + seq![','] + t5) + seq![','] + t6), t7);
    lemma_split_push((((((((t0 + seq![','] + t1) + seq![','] + t2) + seq![','] + t3) + seq![','] + t4) + seq![','] + t5) + seq![','] + t6) + seq![','] + t7), t8);
    lemma_split_push(((((((((t0 + seq![','] + t1) + seq![','] + t2) + seq![','] + t3) + seq![','] + t4) + seq![','] + t5) + seq![','] + t6) + seq![','] + t7) + seq![','] + t8), t9);
    assert(split_fields(t0 + seq![','] + t1 + seq![','] + t2 + seq![','] + t3 + seq![','] + t4 + seq![','] + t5 + seq![','] + t6 + seq![','] + t7 + seq![','] + t8 + seq![','] + t9) =~= seq![t0, t1, t2, t3, t4, t5, t6, t7, t8, t9]);
}

/// 11 texts without commas, joined with commas, split back into them.
pub proof fn lemma_split_fields_11(t0: Seq<char>, t1: Seq<char>, t2: Seq<char>, t3: Seq<char>, t4: Seq<char>, t5: Seq<char>, t6: Seq<char>, t7: Seq<char>, t8: Seq<char>, t9: Seq<char>, t10: Seq<char>)
    requires
        !t0.contains(','),
        !t1.contains(','),
        !t2.contains(','),
        !t3.contains(','),
        !t4.contains(','),
        !t5.contains(','),
        !t6.contains(','),
        !t7.contains(','),
        !t8.contains(','),
        !t9.contains(','),
        !t10.contains(','),
    ensures
        split_fields(t0 + seq![','] + t1 + seq![','] + t2 + seq![','] + t3 + seq![','] + t4 + seq![','] + t5 + seq![','] + t6 + seq![','] + t7 + seq![','] + t8 + seq![','] + t9 + seq![','] + t10) == seq![t0, t1, t2, t3, t4, t5, t6, t7, t8, t9, t10],
{
    lemma_split_fields_single(t0);
    lemma_split_push(t0, t1);
    lemma_split_push((t0 + seq![','] + t1), t2);
    lemma_split_push(((t0 + seq![','] + t1) + seq![','] + t2), t3);
    lemma_split_push((((t0 + seq![','] + t1) + seq![','] + t2) + seq![','] + t3), t4);
    lemma_split_push(((((t0 + seq![','] + t1) + seq![','] + t2) + seq![','] + t3) + seq![','] + t4), t5);
    lemma_split_push((((((t0 + seq![','] + t1) + seq![','] + t2) + seq![','] + t3) + seq![','] + t4) + seq![','] + t5), t6);
    lemma_split_push(((((((t0 + seq![','] + t1) + seq![','] + t2) + seq![','] + t3) + seq![','] + t4) + seq![','] + t5) + seq![','] + t6), t7);
    lemma_split_push((((((((t0 + seq![','] + t1) + seq![','] + t2) + seq![','] + t3) + seq![','] + t4) + seq![','] + t5) + seq![','] + t6) + seq![','] + t7), t8);
    lemma_split_push(((((((((t0 + seq![','] + t1) + seq![','] + t2) + seq![','] + t3) + seq![','] + t4) + seq![','] + t5) + seq![','] + t6) + seq![','] + t7) + seq![','] + t8), t9);
    lemma_split_push((((((((((t0 + seq![','] + t1) + seq![','] + t2) + seq![','] + t3) + seq![','] + t4) + seq![','] + t5) + seq![','] + t6) + seq![','] + t7) + seq![','] + t8) + seq![','] + t9), t10);
    assert(split_fields(t0 + seq![','] + t1 + seq![','] + t2 + seq![','] + t3 + seq![','] + t4 + seq![','] + t5 + seq![','] + t6 + seq![','] + t7 + seq![','] + t8 + seq![','] + t9 + seq![','] + t10) =~= seq![t0, t1, t2, t3, t4, t5, t6, t7, t8, t9, t10]);
}

/// 12 texts without commas, joined with commas, split back into them.
pub proof fn lemma_split_fields_12(t0: Seq<char>, t1: Seq<char>, t2: Seq<char>, t3: Seq<char>, t4: Seq<char>, t5: Seq<char>, t6: Seq<char>, t7: Seq<char>, t8: Seq<char>, t9: Seq<char>, t10: Seq<char>, t11: Seq<char>)
    requires
        !t0.contains(','),
        !t1.contains(','),
        !t2.contains(','),
        !t3.contains(','),
        !t4.contains(','),
        !t5.contains(','),
        !t6.contains(','),
        !t7.contains(','),
        !t8.contains(','),
        !t9.contains(','),
        !t10.contains(','),
        !t11.contains(','),
    ensures
        split_fields(t0 + seq![','] + t1 + seq![','] + t2 + seq![','] + t3 + seq![','] + t4 + seq![','] + t5 + seq![','] + t6 + seq![','] + t7 + seq![','] + t8 + seq![','] + t9 + seq![','] + t10 + seq![','] + t11) == seq![t0, t1, t2, t3, t4, t5, t6, t7, t8, t9, t10, t11],
{
    lemma_split_fields_single(t0);
    lemma_split_push(t0, t1);
    lemma_split_push((t0 + seq![','] + t1), t2);
    lemma_split_push(((t0 + seq![','] + t1) + seq![','] + t2), t3);
    lemma_split_push((((t0 + seq![','] + t1) + seq![','] + t2) + seq![','] + t3), t4);
    lemma_split_push(((((t0 + seq![','] + t1) + seq![','] + t2) + seq![','] + t3) + seq![','] + t4), t5);
    lemma_split_push((((((t0 + seq![','] + t1) + seq![','] + t2) + seq![','] + t3) + seq![','] + t4) + seq![','] + t5), t6);
    lemma_split_push(((((((t0 + seq![','] + t1) + seq![','] + t2) + seq![','] + t3) + seq![','] + t4) + seq![','] + t5) + seq![','] + t6), t7);
    lemma_split_push((((((((t0 + seq![','] + t1) + seq![','] + t2) + seq![','] + t3) + seq![','] + t4) + seq![','] + t5) + seq![','] + t6) + seq![','] + t7), t8);
    lemma_split_push(((((((((t0 + seq![','] + t1) + seq![','] + t2) + seq![','] + t3) + seq![','] + t4) + seq![','] + t5) + seq![','] + t6) + seq![','] + t7) + seq![','] + t8), t9);
    lemma_split_push((((((((((t0 + seq![','] + t1) + seq![','] + t2) + seq![','] + t3) + seq![','] + t4) + seq![','] + t5) + seq![','] + t6) + seq![','] + t7) + seq![','] + t8) + seq![','] + t9), t10);
    lemma_split_push(((((((((((t0 + seq![','] + t1) + seq![','] + t2) + seq![','] + t3) + seq![','] + t4) + seq![','] + t5) + seq![','] + t6) + seq![','] + t7) + seq![','] + t8) + seq![','] + t9) + seq![','] + t10), t11);
    assert(split_fields(t0 + seq![','] + t1 + seq![','] + t2 + seq![','] + t3 + seq![','] + t4 + seq![','] + t5 + seq![','] + t6 + seq![','] + t7 + seq![','] + t8 + seq![','] + t9 + seq![','] + t10 + seq![','] + t11) =~= seq![t0, t1, t2, t3, t4, t5, t6, t7, t8, t9, t10, t11]);
}

/// 13 texts without commas, joined with commas, split back into them.
pub proof fn lemma_split_fields_13(t0: Seq<char>, t1: Seq<char>, t2: Seq<char>, t3: Seq<char>, t4: Seq<char>, t5: Seq<char>, t6: Seq<char>, t7: Seq<char>, t8: Seq<char>, t9: Seq<char>, t10: Seq<char>, t11: Seq<char>, t12: Seq<char>)
    requires
        !t0.contains(','),
        !t1.contains(','),
        !t2.contains(','),
        !t3.contains(','),
        !t4.contains(','),
        !t5.contains(','),
        !t6.contains(','),
        !t7.contains(','),
        !t8.contains(','),
        !t9.contains(','),
        !t10.contains(','),
        !t11.contains(','),
        !t12.contains(','),
    ensures
        split_fields(t0 + seq![','] + t1 + seq![','] + t2 + seq![','] + t3 + seq![','] + t4 + seq![','] + t5 + seq![','] + t6 + seq![','] + t7 + seq![','] + t8 + seq![','] + t9 + seq![','] + t10 + seq![','] + t11 + seq![','] + t12) == seq![t0, t1, t2, t3, t4, t5, t6, t7, t8, t9, t10, t11, t12],
{
    lemma_split_fields_single(t0);
    lemma_split_push(t0, t1);
    lemma_split_push((t0 + seq![','] + t1), t2);
    lemma_split_push(((t0 + seq![','] + t1) + seq![','] + t2), t3);
    lemma_split_push((((t0 + seq![','] + t1) + seq![','] + t2) + seq![','] + t3), t4);
    lemma_split_push(((((t0 + seq![','] + t1) + seq![','] + t2) + seq![','] + t3) + seq![','] + t4), t5);
    lemma_split_push((((((t0 + seq![','] + t1) + seq![','] + t2) + seq![','] + t3) + seq![','] + t4) + seq![','] + t5), t6);
    lemma_split_push(((((((t0 + seq![','] + t1) + seq![','] + t2) + seq![','] + t3) + seq![','] + t4) + seq![','] + t5) + seq![','] + t6), t7);
    lemma_split_push((((((((t0 + seq![','] + t1) + seq![','] + t2) + seq![','] + t3) + seq![','] + t4) + seq![','] + t5) + seq![','] + t6) + seq![','] + t7), t8);
    lemma_split_push(((((((((t0 + seq![','] + t1) + seq![','] + t2) + seq![','] + t3) + seq![','] + t4) + seq![','] + t5) + seq![','] + t6) + seq![','] + t7) + seq![','] + t8), t9);
    lemma_split_push((((((((((t0 + seq![','] + t1) + seq![','] + t2) + seq![','] + t3) + seq![','] + t4) + seq![','] + t5) + seq![','] + t6) + seq![','] + t7) + seq![','] + t8) + seq![','] + t9), t10);
    lemma_split_push(((((((((((t0 + seq![','] + t1) + seq![','] + t2) + seq![','] + t3) + seq![','] + t4) + seq![','] + t5) + seq![','] + t6) + seq![','] + t7) + seq![','] + t8) + seq![','] + t9) + seq![','] + t10), t11);
    lemma_split_push((((((((((((t0 + seq![','] + t1) + seq![','] + t2) + seq![','] + t3) + seq![','] + t4) + seq![','] + t5) + seq![','] + t6) + seq![','] + t7) + seq![','] + t8) + seq![','] + t9) + seq![','] + t10) + seq![','] + t11), t12);
    assert(split_fields(t0 + seq![','] + t1 + seq![','] + t2 + seq![','] + t3 + seq![','] + t4 + seq![','] + t5 + seq![','] + t6 + seq![','] + t7 + seq![','] + t8 + seq![','] + t9 + seq![','] + t10 + seq![','] + t11 + seq![','] + t12) =~= seq![t0, t1, t2, t3, t4, t5, t6, t7, t8, t9, t10, t11, t12]);
}

// ---------------------------------------------------------------------------
// Number literals
// ---------------------------------------------------------------------------

/// An unsigned decimal literal: digits with an optional point and
/// fraction, or a point and digits, then an optional exponent; nothing else.
pub open spec fn decimal_literal(m: Seq<char>) -> bool {
    &&& m.len() + 1 < usize::MAX
    &&& mantissa_end(m, 0) matches Some(j) && exponent_scan(m, j) == Scan::Token(m.len() as usize)
}

/// A number that the library writes in a form it reads back: its magnitude
/// is a decimal literal.
pub open spec fn valid_number(n: Number) -> bool {
    decimal_literal(n.magnitude@)
}

/// An optional number that reads back.
pub open spec fn valid_opt_number(o: Option<Number>) -> bool {
    match o {
        Some(n) => valid_number(n),
        None => true,
    }
}

/// Digit runs of a text are those of its tail after one more character.
proof fn lemma_digit_run_shift(p: char, m: Seq<char>, k: int)
    requires
        0 <= k <= m.len(),
    ensures
        digit_run(seq![p] + m, k + 1) == digit_run(m, k),
    decreases m.len() - k,
{
    let f = seq![p] + m;
    if k < m.len() {
        assert(f[k + 1] == m[k]);
        lemma_digit_run_shift(p, m, k + 1);
    }
}

proof fn lemma_mantissa_shift(p: char, m: Seq<char>, j: int)
    requires
        mantissa_end(m, 0) == Some(j),
    ensures
        mantissa_end(seq![p] + m, 1) == Some(j + 1),
        0 < j <= m.len(),
{
    let f = seq![p] + m;
    lemma_digit_run_shift(p, m, 0);
    lemma_digit_run_bounds(m, 0);
    let d = digit_run(m, 0);
    if d > 0 {
        if d < m.len() && m[d] == '.' {
            assert(f[d + 1] == m[d]);
            lemma_digit_run_shift(p, m, d + 1);
            lemma_digit_run_bounds(m, d + 1);
        } else {
            if d < m.len() {
                assert(f[d + 1] == m[d]);
            }
        }
    } else {
        assert(f[1] == m[0]);
        lemma_digit_run_shift(p, m, 1);
        lemma_digit_run_bounds(m, 1);
    }
}

proof fn lemma_exponent_shift(p: char, m: Seq<char>, j: int)
    requires
        0 <= j <= m.len(),
        m.len() + 1 < usize::MAX,
        exponent_scan(m, j) == Scan::Token(m.len() as usize),
    ensures
        exponent_scan(seq![p] + m, j + 1) == Scan::Token((m.len() + 1) as usize),
{
    let f = seq![p] + m;
    if j < m.len() {
        assert(f[j + 1] == m[j]);
    }
    if 0 <= j < m.len() && (m[j] == 'e' || m[j] == 'E') {
        if j + 1 < m.len() {
            assert(f[j + 2] == m[j + 1]);
        }
        let k = j + 1 + sign_len(m, j + 1);
        assert(sign_len(f, j + 2) == sign_len(m, j + 1));
        lemma_digit_run_shift(p, m, k);
        lemma_digit_run_bounds(m, k);
    }
}

/// The characters a decimal literal may hold.
pub open spec fn literal_char(c: char) -> bool {
    is_digit(c) || c == '.' || c == 'e' || c == 'E' || c == '+' || c == '-'
}

/// Every character of a decimal literal is a digit, a point, an exponent
/// marker or a sign.
pub proof fn lemma_decimal_literal_chars(m: Seq<char>)
    requires
        decimal_literal(m),
    ensures
        forall|i: int| 0 <= i < m.len() ==> literal_char(#[trigger] m[i]),
{
    let j = mantissa_end(m, 0).unwrap();
    lemma_digit_run_bounds(m, 0);
    let d = digit_run(m, 0);
    if d < m.len() {
        lemma_digit_run_bounds(m, d + 1);
    }
    if m.len() > 0 {
        lemma_digit_run_bounds(m, 1);
    }
    if 0 <= j < m.len() && (m[j] == 'e' || m[j] == 'E') {
        let k = j + 1 + sign_len(m, j + 1);
        lemma_digit_run_bounds(m, k);
    }
    assert forall|i: int| 0 <= i < m.len() implies literal_char(#[trigger] m[i]) by {
        if i < d {
        } else if i == d {
        } else if d > 0 && i < j {
        } else if d == 0 && i < j {
        } else if i == j {
        } else {
        }
    }
}

/// A written number literal is exactly one literal when read back as a
/// whole field, in either syntax the readers use.
pub proof fn lemma_number_reads_back(n: Number)
    requires
        valid_number(n),
    ensures
        opt_float_field(number_text(n)) == Some(Some(num_view(n))),
        opt_std_float_field(number_text(n)) == Some(Some(num_view(n))),
{
    let m = n.magnitude@;
    let j = mantissa_end(m, 0).unwrap();
    let t = number_text(n);
    lemma_mantissa_shift('-', m, j);
    lemma_digit_run_bounds(m, 0);
    assert(m[0] != '+' && m[0] != '-');
    if n.negative {
        assert(t =~= seq!['-'] + m);
        lemma_exponent_shift('-', m, j);
        assert(sign_len(t, 0) == 1);
        assert(t.subrange(1, t.len() as int) =~= m);
        assert(float_scan(t) == Scan::Token(t.len() as usize));
        assert(literal_value(t, t.len() as int) == num_view(n));
    } else {
        assert(t == m);
        assert(sign_len(t, 0) == 0);
        assert(t.subrange(0, t.len() as int) =~= m);
    }
}

/// The magnitude of a number, written alone, reads back as the number
/// without its sign.
pub proof fn lemma_magnitude_reads_back(n: Number)
    requires
        valid_number(n),
    ensures
        opt_float_field(n.magnitude@) == Some(Some(NumV { negative: false, magnitude: n.magnitude@ })),
        !n.magnitude@.contains(','),
        !n.magnitude@.contains('*'),
        is_ascii_chars(n.magnitude@),
{
    let p = Number { negative: false, magnitude: n.magnitude };
    assert(valid_number(p));
    lemma_number_reads_back(p);
    lemma_number_text_plain(p);
}

/// The written text of an optional number holds no comma and no `*`, and
/// is ASCII.
pub proof fn lemma_opt_number_plain(o: Option<Number>)
    requires
        valid_opt_number(o),
    ensures
        !crate::strings::opt_number_text(o).contains(','),
        !crate::strings::opt_number_text(o).contains('*'),
        is_ascii_chars(crate::strings::opt_number_text(o)),
{
    lemma_opt_number_reads_back(o);
}

/// The written text of a number holds no comma and no `*`, and is ASCII.
pub proof fn lemma_number_text_plain(n: Number)
    requires
        valid_number(n),
    ensures
        !number_text(n).contains(','),
        !number_text(n).contains('*'),
        is_ascii_chars(number_text(n)),
{
    let m = n.magnitude@;
    let t = number_text(n);
    lemma_decimal_literal_chars(m);
    assert forall|i: int| 0 <= i < t.len() implies literal_char(#[trigger] t[i]) by {
        if n.negative {
            if i > 0 {
                assert(t[i] == m[i - 1]);
            }
        }
    }
}

/// An optional number reads back from its written field.
pub proof fn lemma_opt_number_reads_back(o: Option<Number>)
    requires
        valid_opt_number(o),
    ensures
        opt_float_field(opt_text(o)) matches Some(v) && v == opt_num_view(o),
        opt_std_float_field(opt_text(o)) matches Some(v) && v == opt_num_view(o),
        !opt_text(o).contains(','),
        !opt_text(o).contains('*'),
        is_ascii_chars(opt_text(o)),
        opt_text(o) == crate::strings::opt_number_text(o),
{
    match o {
        Some(n) => {
            lemma_number_reads_back(n);
            lemma_number_text_plain(n);
        },
        None => {},
    }
}

/// The magnitude of an optional signed number, as written before its
/// direction letter; empty when absent.
pub open spec fn mag_text(o: Option<Number>) -> Seq<char> {
    match o {
        Some(n) => n.magnitude@,
        None => Seq::empty(),
    }
}

/// The direction letter of an optional signed number: `neg` when negative,
/// `pos` otherwise; empty when absent.
pub open spec fn dir_text(o: Option<Number>, neg: char, pos: char) -> Seq<char> {
    match o {
        Some(n) => seq![if n.negative { neg } else { pos }],
        None => Seq::empty(),
    }
}

/// A signed number written as its magnitude and a direction letter reads
/// back: the magnitude as the unsigned number, the letter telling the sign.
pub proof fn lemma_signed_reads_back(o: Option<Number>, neg: char, pos: char)
    requires
        valid_opt_number(o),
        neg != pos,
        neg != ',' && pos != ',' && neg != '*' && pos != '*',
        '\0' <= neg <= '\u{7f}' && '\0' <= pos <= '\u{7f}',
    ensures
        opt_float_field(mag_text(o)) matches Some(v) && crate::text::negate_if(
            v,
            dir_text(o, neg, pos) == seq![neg],
        ) == opt_num_view(o),
        !mag_text(o).contains(','),
        !dir_text(o, neg, pos).contains(','),
        !mag_text(o).contains('*'),
        !dir_text(o, neg, pos).contains('*'),
        is_ascii_chars(mag_text(o)),
        is_ascii_chars(dir_text(o, neg, pos)),
        dir_text(o, neg, pos).len() <= 1,
        o is None ==> dir_text(o, neg, pos).len() == 0,
        o matches Some(n) ==> dir_text(o, neg, pos) == seq![if n.negative { neg } else { pos }],
{
    lemma_char_comma_free(neg);
    lemma_char_comma_free(pos);
    lemma_char_star_free(neg);
    lemma_char_star_free(pos);
    match o {
        Some(n) => {
            lemma_magnitude_reads_back(n);
            assert(seq![pos] != seq![neg]) by {
                assert(seq![pos][0] == pos);
                assert(seq![neg][0] == neg);
            }
        },
        None => {},
    }
}

/// The two written parts of a signed number hold no comma and no `*`, and
/// are ASCII.
pub proof fn lemma_signed_plain(o: Option<Number>, neg: char, pos: char)
    requires
        valid_opt_number(o),
        neg != pos,
        neg != ',' && pos != ',' && neg != '*' && pos != '*',
        '\0' <= neg <= '\u{7f}' && '\0' <= pos <= '\u{7f}',
    ensures
        !mag_text(o).contains(','),
        !dir_text(o, neg, pos).contains(','),
        !mag_text(o).contains('*'),
        !dir_text(o, neg, pos).contains('*'),
        is_ascii_chars(mag_text(o)),
        is_ascii_chars(dir_text(o, neg, pos)),
{
    lemma_signed_reads_back(o, neg, pos);
}

/// A one-character text other than `*` holds no `*`.
pub proof fn lemma_char_star_free(c: char)
    requires
        c != '*',
    ensures
        !seq![c].contains('*'),
{
    if seq![c].contains('*') {
        let i = choose|i: int| 0 <= i < 1 && seq![c][i] == '*';
        assert(seq![c][i] == c);
    }
}

/// The decimal digits of a number read back as that number.
pub proof fn lemma_decimal_reads_back(n: nat)
    ensures
        crate::text::all_digits(crate::strings::decimal(n)),
        crate::strings::decimal(n).len() > 0,
        crate::text::digits_value(crate::strings::decimal(n)) == n,
        !crate::strings::decimal(n).contains(','),
        !crate::strings::decimal(n).contains('*'),
        is_ascii_chars(crate::strings::decimal(n)),
    decreases n,
{
    let d = crate::strings::decimal(n);
    let c = crate::strings::digit_char(n % 10);
    assert((c as u32) == (n % 10) + 48);
    assert(is_digit(c));
    if n >= 10 {
        lemma_decimal_reads_back(n / 10);
        let p = crate::strings::decimal(n / 10);
        assert(d == p.push(crate::strings::digit_char(n % 10)));
        assert(d.drop_last() =~= p);
        assert(d.last() == c);
        assert(crate::text::digits_value(d) == crate::text::digits_value(p) * 10 + (n % 10));
        assert forall|m: int| 0 <= m < d.len() implies is_digit(#[trigger] d[m]) by {
            if m < p.len() {
                assert(d[m] == p[m]);
            }
        }
    }
    if n < 10 {
        assert(d == seq![c]);
        assert(d.drop_last() =~= Seq::<char>::empty());
        assert(d.last() == c);
        assert(crate::text::digits_value(d.drop_last()) == 0);
    }
    assert(!d.contains(',')) by {
        if d.contains(',') {
            let i = choose|i: int| 0 <= i < d.len() && d[i] == ',';
            assert(is_digit(d[i]));
        }
    }
    assert(!d.contains('*')) by {
        if d.contains('*') {
            let i = choose|i: int| 0 <= i < d.len() && d[i] == '*';
            assert(is_digit(d[i]));
        }
    }
    assert forall|m: int| 0 <= m < d.len() implies '\0' <= #[trigger] d[m] <= '\u{7f}' by {
        assert(is_digit(d[m]));
    }
}

/// An optional small number written in decimal reads back as itself from
/// an optional unsigned field with a bound it keeps.
pub proof fn lemma_opt_decimal_reads_back(o: Option<u8>, max: nat)
    requires
        o matches Some(n) ==> n <= max,
    ensures
        crate::text::opt_unsigned_field(crate::strings::opt_decimal(o), max) is Some,
        crate::text::opt_u8_is(o, crate::text::funs(crate::strings::opt_decimal(o), max)),
        !crate::strings::opt_decimal(o).contains(','),
        !crate::strings::opt_decimal(o).contains('*'),
        is_ascii_chars(crate::strings::opt_decimal(o)),
{
    match o {
        Some(n) => lemma_decimal_reads_back(n as nat),
        None => {},
    }
}

/// No number literal starts an empty text.
pub proof fn lemma_empty_no_literal()
    ensures
        float_scan(Seq::<char>::empty()) == Scan::NoMatch,
{
    let e = Seq::<char>::empty();
    lemma_digit_run_bounds(e, 0);
    assert(!crate::text::word_at(e, 0, crate::text::word_nan()));
    assert(!crate::text::word_at(e, 0, crate::text::word_infinity()));
    assert(!crate::text::word_at(e, 0, crate::text::word_inf()));
}

/// An optional number reads back from its written field when the literal
/// is read at the start of the field and the rest ignored.
pub proof fn lemma_opt_number_prefix_reads_back(o: Option<Number>)
    requires
        valid_opt_number(o),
    ensures
        crate::text::opt_float_prefix(opt_text(o)) == Some(opt_num_view(o)),
{
    lemma_opt_number_reads_back(o);
    lemma_empty_no_literal();
}

/// An optional small number written by its field text reads back as
/// itself from an optional unsigned field with a bound it keeps.
pub proof fn lemma_opt_u8_reads_back(o: Option<u8>, max: nat)
    requires
        o matches Some(n) ==> n <= max,
    ensures
        crate::text::opt_unsigned_field(opt_text(o), max) is Some,
        crate::text::opt_u8_is(o, crate::text::funs(opt_text(o), max)),
        !opt_text(o).contains(','),
        !opt_text(o).contains('*'),
        is_ascii_chars(opt_text(o)),
{
    assert(opt_text(o) == crate::strings::opt_decimal(o));
    lemma_opt_decimal_reads_back(o, max);
}

// ---------------------------------------------------------------------------
// Padded numbers and times
// ---------------------------------------------------------------------------

/// A run of zeros is worth nothing.
proof fn lemma_zeros_value(k: nat)
    ensures
        crate::text::digits_value(Seq::new(k, |i: int| '0')) == 0,
    decreases k,
{
    if k > 0 {
        let z = Seq::new(k, |i: int| '0');
        assert(z.drop_last() =~= Seq::new((k - 1) as nat, |i: int| '0'));
        lemma_zeros_value((k - 1) as nat);
    }
}

/// Leading zeros do not change the value of digits.
proof fn lemma_zeros_prefix_value(k: nat, d: Seq<char>)
    ensures
        crate::text::digits_value(Seq::new(k, |i: int| '0') + d) == crate::text::digits_value(d),
    decreases d.len(),
{
    let z = Seq::new(k, |i: int| '0');
    if d.len() == 0 {
        assert(z + d =~= z);
        lemma_zeros_value(k);
    } else {
        assert((z + d).drop_last() =~= z + d.drop_last());
        assert((z + d).last() == d.last());
        lemma_zeros_prefix_value(k, d.drop_last());
    }
}

/// How many digits a number below ten thousand takes.
pub proof fn lemma_decimal_len(n: nat)
    ensures
        n < 10 ==> crate::strings::decimal(n).len() == 1,
        n < 100 ==> crate::strings::decimal(n).len() <= 2,
        n < 1000 ==> crate::strings::decimal(n).len() <= 3,
        n < 10000 ==> crate::strings::decimal(n).len() <= 4,
        n < 100000 ==> crate::strings::decimal(n).len() <= 5,
{
    reveal_with_fuel(crate::strings::decimal, 6);
}

/// A number padded with zeros to `w` digits reads back as itself, when its
/// decimal digits fit in `w`.
pub proof fn lemma_padded_reads_back(n: nat, w: nat, max: nat)
    requires
        crate::strings::decimal(n).len() <= w,
        n <= max,
    ensures
        crate::position::padded(n, w).len() == w,
        crate::position::uint_text(crate::position::padded(n, w), max) == Some(n),
        crate::text::all_digits(crate::position::padded(n, w)),
        !crate::position::padded(n, w).contains(','),
        !crate::position::padded(n, w).contains('*'),
        is_ascii_chars(crate::position::padded(n, w)),
{
    let d = crate::strings::decimal(n);
    lemma_decimal_reads_back(n);
    let p = crate::position::padded(n, w);
    if d.len() < w {
        let k = (w - d.len()) as nat;
        let z = Seq::new(k, |i: int| '0');
        assert(p == z + d);
        lemma_zeros_prefix_value(k, d);
        assert forall|m: int| 0 <= m < p.len() implies is_digit(#[trigger] p[m]) by {
            if m >= k {
                assert(p[m] == d[m - k]);
            }
        }
    }
    assert(crate::text::all_digits(p));
    assert(p[0] != '+') by {
        assert(is_digit(p[0]));
    }
    assert(!p.contains(',')) by {
        if p.contains(',') {
            let i = choose|i: int| 0 <= i < p.len() && p[i] == ',';
            assert(is_digit(p[i]));
        }
    }
    assert(!p.contains('*')) by {
        if p.contains('*') {
            let i = choose|i: int| 0 <= i < p.len() && p[i] == '*';
            assert(is_digit(p[i]));
        }
    }
    assert forall|m: int| 0 <= m < p.len() implies '\0' <= #[trigger] p[m] <= '\u{7f}' by {
        assert(is_digit(p[m]));
    }
}

/// A time that the library writes in a form it reads back: hours below 24,
/// minutes below 60, and seconds that are a decimal literal, not negative.
pub open spec fn valid_hms(t: crate::position::Hms) -> bool {
    &&& t.hour < 24
    &&& t.minute < 60
    &&& !t.second.negative
    &&& valid_number(t.second)
}

/// An optional time that reads back.
pub open spec fn valid_opt_hms(o: Option<crate::position::Hms>) -> bool {
    match o {
        Some(t) => valid_hms(t),
        None => true,
    }
}

/// An optional time remaining that reads back: less than a day, its parts
/// as in a time of day.
pub open spec fn valid_opt_duration(o: Option<crate::position::HmsDuration>) -> bool {
    match o {
        Some(t) => 0 <= t.hours < 24 && 0 <= t.minutes < 60 && valid_opt_hms(crate::position::duration_as_hms(o)),
        None => true,
    }
}

/// An optional time remaining reads back from its written field.
pub proof fn lemma_opt_duration_reads_back(o: Option<crate::position::HmsDuration>)
    requires
        valid_opt_duration(o),
    ensures
        crate::position::opt_duration_chars(o) == crate::position::opt_hms_chars(crate::position::duration_as_hms(o)),
        crate::position::opt_hms_field(crate::position::opt_duration_chars(o)) is Some,
        crate::position::opt_duration_is(o, crate::position::fhms(crate::position::opt_duration_chars(o))),
        !crate::position::opt_duration_chars(o).contains(','),
        !crate::position::opt_duration_chars(o).contains('*'),
        is_ascii_chars(crate::position::opt_duration_chars(o)),
{
    lemma_opt_hms_reads_back(crate::position::duration_as_hms(o));
    match o {
        Some(t) => {
            assert(crate::position::opt_duration_chars(o) =~= crate::position::opt_hms_chars(
                crate::position::duration_as_hms(o),
            ));
        },
        None => {},
    }
}

/// An optional time reads back from its written field.
pub proof fn lemma_opt_hms_reads_back(o: Option<crate::position::Hms>)
    requires
        valid_opt_hms(o),
    ensures
        crate::position::opt_hms_field(crate::position::opt_hms_chars(o)) is Some,
        crate::position::opt_hms_is(o, crate::position::fhms(crate::position::opt_hms_chars(o))),
        !crate::position::opt_hms_chars(o).contains(','),
        !crate::position::opt_hms_chars(o).contains('*'),
        is_ascii_chars(crate::position::opt_hms_chars(o)),
{
    match o {
        Some(t) => {
            let f = crate::position::opt_hms_chars(o);
            let h = crate::position::padded(t.hour as nat, 2);
            let m = crate::position::padded(t.minute as nat, 2);
            let sec = number_text(t.second);
            lemma_decimal_len(t.hour as nat);
            lemma_decimal_len(t.minute as nat);
            lemma_padded_reads_back(t.hour as nat, 2, crate::position::u32_max());
            lemma_padded_reads_back(t.minute as nat, 2, crate::position::u32_max());
            lemma_number_reads_back(t.second);
            lemma_number_text_plain(t.second);
            assert(f == h + m + sec);
            assert(f.subrange(0, 2) =~= h);
            assert(f.subrange(2, 4) =~= m);
            assert(f.subrange(4, f.len() as int) =~= sec);
            assert(sec.len() > 0);
            assert(float_scan(sec) == Scan::Token(sec.len() as usize));
            assert(!f.contains(',')) by {
                if f.contains(',') {
                    let i = choose|i: int| 0 <= i < f.len() && f[i] == ',';
                    if i < 2 {
                        assert(h[i] == ',');
                    } else if i < 4 {
                        assert(m[i - 2] == ',');
                    } else {
                        assert(sec[i - 4] == ',');
                    }
                }
            }
            assert(!f.contains('*')) by {
                if f.contains('*') {
                    let i = choose|i: int| 0 <= i < f.len() && f[i] == '*';
                    if i < 2 {
                        assert(h[i] == '*');
                    } else if i < 4 {
                        assert(m[i - 2] == '*');
                    } else {
                        assert(sec[i - 4] == '*');
                    }
                }
            }
            assert forall|i: int| 0 <= i < f.len() implies '\0' <= #[trigger] f[i] <= '\u{7f}' by {
                if i < 2 {
                    assert(f[i] == h[i]);
                } else if i < 4 {
                    assert(f[i] == m[i - 2]);
                } else {
                    assert(f[i] == sec[i - 4]);
                }
            }
        },
        None => {},
    }
}

// ---------------------------------------------------------------------------
// Positions
// ---------------------------------------------------------------------------

/// A position that the library writes in a form it reads back: latitude
/// degrees in two digits, minutes that are decimal literals, not negative.
pub open spec fn valid_lat_lon(p: crate::position::LatLon) -> bool {
    &&& p.lat_degrees < 100
    &&& !p.lat_minutes.negative
    &&& valid_number(p.lat_minutes)
    &&& !p.lon_minutes.negative
    &&& valid_number(p.lon_minutes)
}

/// An optional position that reads back.
pub open spec fn valid_opt_lat_lon(o: Option<crate::position::LatLon>) -> bool {
    match o {
        Some(p) => valid_lat_lon(p),
        None => true,
    }
}

/// A written position is its four fields joined with commas.
pub proof fn lemma_lat_lon_parts(o: Option<crate::position::LatLon>)
    ensures
        crate::position::lat_lon_chars(o) == crate::position::lat_field(o) + seq![','] + crate::position::ns_field(o) + seq![','] + crate::position::lon_field(o) + seq![','] + crate::position::ew_field(o),
{
    assert(crate::position::lat_lon_chars(o) =~= crate::position::lat_field(o) + seq![','] + crate::position::ns_field(o) + seq![','] + crate::position::lon_field(o) + seq![','] + crate::position::ew_field(o));
}

/// A coordinate written as padded degrees and a minutes literal reads back.
proof fn lemma_coord_reads_back(deg: nat, w: nat, min: Number)
    requires
        crate::strings::decimal(deg).len() <= w,
        deg <= 255,
        !min.negative,
        valid_number(min),
    ensures
        crate::position::coord_field(crate::position::padded(deg, w) + number_text(min), w as int) == Some((deg, num_view(min))),
        !(crate::position::padded(deg, w) + number_text(min)).contains(','),
        !(crate::position::padded(deg, w) + number_text(min)).contains('*'),
        is_ascii_chars(crate::position::padded(deg, w) + number_text(min)),
{
    let d = crate::position::padded(deg, w);
    let m = number_text(min);
    let f = d + m;
    lemma_padded_reads_back(deg, w, 255);
    lemma_number_reads_back(min);
    lemma_number_text_plain(min);
    assert(f.subrange(0, w as int) =~= d);
    assert(f.subrange(w as int, f.len() as int) =~= m);
    assert(m.len() > 0);
    assert(!f.contains(',')) by {
        if f.contains(',') {
            let i = choose|i: int| 0 <= i < f.len() && f[i] == ',';
            if i < w {
                assert(d[i] == ',');
            } else {
                assert(m[i - w] == ',');
            }
        }
    }
    assert(!f.contains('*')) by {
        if f.contains('*') {
            let i = choose|i: int| 0 <= i < f.len() && f[i] == '*';
            if i < w {
                assert(d[i] == '*');
            } else {
                assert(m[i - w] == '*');
            }
        }
    }
    assert forall|i: int| 0 <= i < f.len() implies '\0' <= #[trigger] f[i] <= '\u{7f}' by {
        if i < w {
            assert(f[i] == d[i]);
        } else {
            assert(f[i] == m[i - w]);
        }
    }
}

/// The four fields of a written position hold no comma or `*` and are
/// ASCII.
pub proof fn lemma_lat_lon_plain(o: Option<crate::position::LatLon>)
    requires
        valid_opt_lat_lon(o),
    ensures
        !crate::position::lat_field(o).contains(',') && !crate::position::lat_field(o).contains('*') && is_ascii_chars(crate::position::lat_field(o)),
        !crate::position::ns_field(o).contains(',') && !crate::position::ns_field(o).contains('*') && is_ascii_chars(crate::position::ns_field(o)),
        !crate::position::lon_field(o).contains(',') && !crate::position::lon_field(o).contains('*') && is_ascii_chars(crate::position::lon_field(o)),
        !crate::position::ew_field(o).contains(',') && !crate::position::ew_field(o).contains('*') && is_ascii_chars(crate::position::ew_field(o)),
{
    match o {
        Some(p) => {
            lemma_decimal_len(p.lat_degrees as nat);
            lemma_decimal_len(p.lon_degrees as nat);
            lemma_coord_reads_back(p.lat_degrees as nat, 2, p.lat_minutes);
            lemma_coord_reads_back(p.lon_degrees as nat, 3, p.lon_minutes);
            lemma_char_plain('N');
            lemma_char_plain('S');
            lemma_char_plain('E');
            lemma_char_plain('W');
        },
        None => {},
    }
}

/// A written position reads back from the four fields starting at `k`.
pub proof fn lemma_lat_lon_reads_back(f: Seq<Seq<char>>, k: int, o: Option<crate::position::LatLon>)
    requires
        valid_opt_lat_lon(o),
        0 <= k,
        k + 4 <= f.len(),
        f[k] == crate::position::lat_field(o),
        f[k + 1] == crate::position::ns_field(o),
        f[k + 2] == crate::position::lon_field(o),
        f[k + 3] == crate::position::ew_field(o),
    ensures
        crate::position::lat_lon_fields(f, k) is Some,
        crate::position::opt_lat_lon_is(o, crate::position::flat_lon(f, k)),
{
    match o {
        Some(p) => {
            lemma_decimal_len(p.lat_degrees as nat);
            lemma_decimal_len(p.lon_degrees as nat);
            lemma_coord_reads_back(p.lat_degrees as nat, 2, p.lat_minutes);
            lemma_coord_reads_back(p.lon_degrees as nat, 3, p.lon_minutes);
            lemma_padded_reads_back(p.lat_degrees as nat, 2, 255);
            assert(f[k].len() > 0);
            assert(seq!['N', 'S'][0] == 'N' && seq!['N', 'S'][1] == 'S');
            assert(seq!['E', 'W'][0] == 'E' && seq!['E', 'W'][1] == 'W');
        },
        None => {},
    }
}

// ---------------------------------------------------------------------------
// Names
// ---------------------------------------------------------------------------

/// A name that the library writes in a form it reads back: not empty, no
/// comma, no `*`, ASCII.
pub open spec fn valid_name(t: Seq<char>) -> bool {
    &&& t.len() > 0
    &&& !t.contains(',')
    &&& !t.contains('*')
    &&& is_ascii_chars(t)
}

/// An optional name that reads back and fits in `cap` bytes.
pub open spec fn valid_opt_name(o: Option<Seq<char>>, cap: nat) -> bool {
    match o {
        Some(t) => valid_name(t) && crate::text::utf8_len(t) <= cap,
        None => true,
    }
}

/// An optional name reads back from its written field.
pub proof fn lemma_opt_name_reads_back(o: Option<Seq<char>>, cap: nat)
    requires
        valid_opt_name(o, cap),
    ensures
        crate::names::opt_text_field(crate::names::opt_name_chars(o), cap) == Some(o),
        crate::text::utf8_len(crate::names::opt_name_chars(o)) <= cap,
        o == (if crate::names::opt_name_chars(o).len() == 0 { None } else { Some(crate::names::opt_name_chars(o)) }),
        !crate::names::opt_name_chars(o).contains(','),
        !crate::names::opt_name_chars(o).contains('*'),
        is_ascii_chars(crate::names::opt_name_chars(o)),
{
    match o {
        Some(t) => {},
        None => {
            assert(crate::text::utf8_len(Seq::<char>::empty()) == 0) by {
                reveal_with_fuel(crate::text::utf8_len, 1);
            }
        },
    }
}

/// A text kept whole that the library writes in a form it reads back: no
/// comma, no `*`, ASCII, and at most `cap` bytes; it may be empty.
pub open spec fn valid_text(t: Seq<char>, cap: nat) -> bool {
    &&& !t.contains(',')
    &&& !t.contains('*')
    &&& is_ascii_chars(t)
    &&& crate::text::utf8_len(t) <= cap
}

/// A text kept whole reads back from its field cut after `cap` bytes.
pub proof fn lemma_text_reads_back(t: Seq<char>, cap: nat)
    requires
        valid_text(t, cap),
    ensures
        crate::text::fit_prefix(t, cap) == t,
{
    crate::text::lemma_fit_prefix_whole(t, cap);
}

/// An optional character that the library writes in a form it reads back.
pub open spec fn valid_opt_char(o: Option<char>) -> bool {
    match o {
        Some(c) => c != ',' && c != '*' && '\0' <= c <= '\u{7f}',
        None => true,
    }
}

// ---------------------------------------------------------------------------
// Whole sentences
// ---------------------------------------------------------------------------

/// A written sentence reads back: when its talker id is two ASCII
/// characters, its body is ASCII without `*`, and the whole sentence fits
/// in `SENTENCE_MAX_LEN` bytes, reading the written text passes the frame
/// and checksum checks and gives what the parser of its type gives for the
/// body.
pub proof fn lemma_written_sentence_reads_back(
    talker: Seq<char>,
    t: SentenceType,
    body: Seq<char>,
    r: Result<ParseResult, Error>,
)
    requires
        talker.len() == 2,
        is_ascii_chars(talker),
        is_ascii_chars(body),
        !body.contains('*'),
        encode_utf8(sentence_text(talker, t, body)).len() <= SENTENCE_MAX_LEN,
        dispatch_result(t, body, r),
    ensures
        parse_text_result(sentence_text(talker, t, body), r),
{
    let c = sentence_text(talker, t, body);
    let cs = sentence_checksum(talker, t, body);
    lemma_sentence_frame_round_trip(talker, t, body);
    lemma_written_checksum_is_computed(talker, t, body);
    lemma_code_is_ascii(t);
    lemma_hex_char_digit(cs / 16);
    lemma_hex_char_digit(cs % 16);
    let k: int = 7 + body.len() as int;
    assert forall|i: int| 0 <= i < c.len() implies '\0' <= #[trigger] c[i] <= '\u{7f}' by {
        if 1 <= i < 3 {
            assert(c[i] == talker[i - 1]);
        } else if 7 <= i < k {
            assert(c[i] == body[i - 7]);
        }
    }
}

} // verus!
