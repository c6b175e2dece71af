use vstd::prelude::*;

use crate::text::{decimal, digit_char, push_signed_decimal, push_zero_padded, signed_decimal, zero_padded};

verus! {

/// Number of fractional digits kept of each box coordinate.
pub const FACE_ID_SEGMENT_DIGITS: usize = 5;

/// The identity string of a face: the file id, then the four box coordinates
/// (x min, y min, x max, y max) as five fractional digits each, joined by '_'.
pub open spec fn face_id(file_id: i64, segments: Seq<u32>) -> Seq<char> {
    signed_decimal(file_id as int) + seq!['_'] + zero_padded(segments[0] as nat, 5) + seq!['_']
        + zero_padded(segments[1] as nat, 5) + seq!['_'] + zero_padded(segments[2] as nat, 5)
        + seq!['_'] + zero_padded(segments[3] as nat, 5)
}

/// Builds a face identity string from the file id and the four coordinates of
/// the face box, each given as its first five fractional digits (a coordinate
/// of 0.1 is 10000).
pub fn face_id_from_segments(file_id: i64, segments: [u32; 4]) -> (r: String)
    ensures
        r@ == face_id(file_id, segments@),
{
    proof {
        reveal_strlit("_");
    }
    let mut out = String::new();
    push_signed_decimal(&mut out, file_id);
    let mut i: usize = 0;
    while i < 4
        invariant
            i <= 4,
            out@ == signed_decimal(file_id as int) + face_id_tail(segments@, i as int),
        decreases 4 - i,
    {
        out.append("_");
        proof {
            reveal_strlit("_");
        }
        push_zero_padded(&mut out, segments[i] as u64, FACE_ID_SEGMENT_DIGITS);
        assert(face_id_tail(segments@, i + 1) =~= face_id_tail(segments@, i as int) + seq!['_']
            + zero_padded(segments@[i as int] as nat, 5));
        i = i + 1;
    }
    proof {
        reveal_with_fuel(face_id_tail, 5);
        assert(face_id_tail(segments@, 0) =~= Seq::<char>::empty());
    }
    assert(out@ =~= face_id(file_id, segments@));
    out
}

/// The first `n` box segments, each preceded by '_'.
pub open spec fn face_id_tail(segments: Seq<u32>, n: int) -> Seq<char>
    decreases n,
{
    if n <= 0 {
        Seq::empty()
    } else {
        face_id_tail(segments, n - 1) + seq!['_'] + zero_padded(segments[n - 1] as nat, 5)
    }
}

/// Decimal notation has between one and five digits below 100000, at least two
/// from 10 on, and no minus sign.
proof fn lemma_decimal_shape(n: nat)
    ensures
        decimal(n).len() >= 1,
        n >= 10 ==> decimal(n).len() >= 2,
        n < 10 ==> decimal(n).len() == 1,
        n < 100 ==> decimal(n).len() <= 2,
        n < 1000 ==> decimal(n).len() <= 3,
        n < 10000 ==> decimal(n).len() <= 4,
        n < 100000 ==> decimal(n).len() <= 5,
        forall|k: int| 0 <= k < decimal(n).len() ==> #[trigger] decimal(n)[k] != '-',
        decimal(n)[0] == '0' ==> n == 0,
    decreases n,
{
    if n >= 10 {
        lemma_decimal_shape(n / 10);
        let prefix = decimal(n / 10);
        assert(decimal(n) == prefix.push(digit_char(n % 10)));
        assert forall|k: int| 0 <= k < decimal(n).len() implies #[trigger] decimal(n)[k] != '-' by {
            if k < prefix.len() {
                assert(decimal(n)[k] == prefix[k]);
            }
        }
        assert(decimal(n)[0] == prefix[0]);
    }
}

/// Different numbers have different decimal notations.
proof fn lemma_decimal_injective(n: nat, m: nat)
    requires
        decimal(n) == decimal(m),
    ensures
        n == m,
    decreases n,
{
    lemma_decimal_shape(n);
    lemma_decimal_shape(m);
    if n >= 10 && m >= 10 {
        let dn = decimal(n);
        assert(dn.drop_last() =~= decimal(n / 10));
        assert(decimal(m).drop_last() =~= decimal(m / 10));
        lemma_decimal_injective(n / 10, m / 10);
        assert(dn.last() == digit_char(n % 10));
        assert(decimal(m).last() == digit_char(m % 10));
        lemma_digit_char_injective(n % 10, m % 10);
    } else if n < 10 && m < 10 {
        lemma_digit_char_injective(n, m);
    }
}

proof fn lemma_digit_char_injective(a: nat, b: nat)
    requires
        a < 10,
        b < 10,
        digit_char(a) == digit_char(b),
    ensures
        a == b,
{
}

/// Five-digit segments below 100000 are exactly five characters long and tell
/// their values apart.
proof fn lemma_zero_padded_injective(n: nat, m: nat)
    requires
        n < 100000,
        m < 100000,
        zero_padded(n, 5) == zero_padded(m, 5),
    ensures
        n == m,
{
    lemma_decimal_shape(n);
    lemma_decimal_shape(m);
    let dn = decimal(n);
    let dm = decimal(m);
    let pn = zero_padded(n, 5);
    if dn.len() == dm.len() {
        assert(pn.subrange(5 - dn.len() as int, 5) =~= dn);
        assert(zero_padded(m, 5).subrange(5 - dm.len() as int, 5) =~= dm);
        lemma_decimal_injective(n, m);
    } else if dn.len() < dm.len() {
        let p = 5 - dm.len() as int;
        assert(zero_padded(m, 5)[p] == dm[0]);
        assert(pn[p] == '0');
    } else {
        let p = 5 - dn.len() as int;
        assert(pn[p] == dn[0]);
        assert(zero_padded(m, 5)[p] == '0');
    }
}

proof fn lemma_zero_padded_len(n: nat)
    requires
        n < 100000,
    ensures
        zero_padded(n, 5).len() == 5,
{
    lemma_decimal_shape(n);
}

/// Different file ids have different signed decimal notations.
proof fn lemma_signed_decimal_injective(a: int, b: int)
    requires
        signed_decimal(a) == signed_decimal(b),
    ensures
        a == b,
{
    if a < 0 && b < 0 {
        assert(signed_decimal(a).drop_first() =~= decimal((-a) as nat));
        assert(signed_decimal(b).drop_first() =~= decimal((-b) as nat));
        lemma_decimal_injective((-a) as nat, (-b) as nat);
    } else if a < 0 {
        lemma_decimal_shape(b as nat);
        assert(signed_decimal(a)[0] == '-');
    } else if b < 0 {
        lemma_decimal_shape(a as nat);
        assert(signed_decimal(b)[0] == '-');
    } else {
        lemma_decimal_injective(a as nat, b as nat);
    }
}

/// A face id determines the file id and the box it was made from: ids are
/// equal exactly when file ids and all four box segments are equal (segments
/// being five-digit values, below 100000).
pub proof fn lemma_face_id_identifies_face(
    file_a: i64,
    segments_a: Seq<u32>,
    file_b: i64,
    segments_b: Seq<u32>,
)
    requires
        segments_a.len() == 4,
        segments_b.len() == 4,
        forall|i: int| 0 <= i < 4 ==> #[trigger] segments_a[i] < 100000,
        forall|i: int| 0 <= i < 4 ==> #[trigger] segments_b[i] < 100000,
    ensures
        face_id(file_a, segments_a) == face_id(file_b, segments_b) <==> (file_a == file_b
            && segments_a == segments_b),
{
    if face_id(file_a, segments_a) == face_id(file_b, segments_b) {
        let pa = Seq::new(4, |i: int| zero_padded(segments_a[i] as nat, 5));
        let pb = Seq::new(4, |i: int| zero_padded(segments_b[i] as nat, 5));
        assert forall|i: int| 0 <= i < 4 implies #[trigger] pa[i].len() == 5 && pb[i].len() == 5 by {
            lemma_zero_padded_len(segments_a[i] as nat);
            lemma_zero_padded_len(segments_b[i] as nat);
        }
        let ta = seq!['_'] + pa[0] + seq!['_'] + pa[1] + seq!['_'] + pa[2] + seq!['_'] + pa[3];
        let tb = seq!['_'] + pb[0] + seq!['_'] + pb[1] + seq!['_'] + pb[2] + seq!['_'] + pb[3];
        let ha = signed_decimal(file_a as int);
        let hb = signed_decimal(file_b as int);
        assert(face_id(file_a, segments_a) =~= ha + ta);
        assert(face_id(file_b, segments_b) =~= hb + tb);
        let id = ha + ta;
        assert(ta.len() == 24 && tb.len() == 24);
        assert(ha.len() == hb.len());
        assert(id.subrange(0, ha.len() as int) =~= ha);
        assert((hb + tb).subrange(0, hb.len() as int) =~= hb);
        lemma_signed_decimal_injective(file_a as int, file_b as int);
        assert(id.subrange(ha.len() as int, id.len() as int) =~= ta);
        assert((hb + tb).subrange(hb.len() as int, id.len() as int) =~= tb);
        assert(ta == tb);
        assert forall|i: int| 0 <= i < 4 implies segments_a[i] == segments_b[i] by {
            assert(ta.subrange(6 * i + 1, 6 * i + 6) =~= pa[i]);
            assert(tb.subrange(6 * i + 1, 6 * i + 6) =~= pb[i]);
            lemma_zero_padded_injective(segments_a[i] as nat, segments_b[i] as nat);
        }
        assert(segments_a =~= segments_b);
    }
}

} // verus!
