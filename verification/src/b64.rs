use vstd::prelude::*;

verus! {

/// The base64url alphabet: the ASCII code that stands for a six-bit value.
pub open spec fn b64_code(v: int) -> u8 {
    if v < 26 {
        (v + 65) as u8  // 'A'..'Z'
    } else if v < 52 {
        (v + 71) as u8  // 'a'..'z'
    } else if v < 62 {
        (v - 4) as u8  // '0'..'9'
    } else if v == 62 {
        45u8  // '-'
    } else {
        95u8  // '_'
    }
}

/// Base64url encoding without padding, as a sequence of ASCII codes.
pub open spec fn b64_of(s: Seq<u8>) -> Seq<u8>
    decreases s.len(),
{
    if s.len() == 0 {
        seq![]
    } else if s.len() == 1 {
        seq![b64_code(s[0] as int / 4), b64_code((s[0] as int % 4) * 16)]
    } else if s.len() == 2 {
        seq![
            b64_code(s[0] as int / 4),
            b64_code((s[0] as int % 4) * 16 + s[1] as int / 16),
            b64_code((s[1] as int % 16) * 4),
        ]
    } else {
        seq![
            b64_code(s[0] as int / 4),
            b64_code((s[0] as int % 4) * 16 + s[1] as int / 16),
            b64_code((s[1] as int % 16) * 4 + s[2] as int / 64),
            b64_code(s[2] as int % 64),
        ] + b64_of(s.skip(3))
    }
}

/// The encoding of a sequence splits at any whole-group boundary.
pub proof fn lemma_b64_split(s: Seq<u8>, i: int)
    requires
        0 <= i <= s.len(),
        i % 3 == 0,
    ensures
        b64_of(s) == b64_of(s.take(i)) + b64_of(s.skip(i)),
    decreases i,
{
    if i == 0 {
        assert(s.take(0) =~= Seq::<u8>::empty());
        assert(s.skip(0) =~= s);
        assert(b64_of(s.take(0)) + b64_of(s.skip(0)) =~= b64_of(s));
    } else {
        lemma_b64_split(s.skip(3), i - 3);
        assert(s.skip(3).take(i - 3) =~= s.take(i).skip(3));
        assert(s.skip(3).skip(i - 3) =~= s.skip(i));
        assert(s.take(i).len() == i);
        assert(s.take(i)[0] == s[0] && s.take(i)[1] == s[1] && s.take(i)[2] == s[2]);
        assert(b64_of(s) =~= b64_of(s.take(i)) + b64_of(s.skip(i)));
    }
}

/// Every code the encoding emits lies in the printable ASCII range.
pub proof fn lemma_b64_ascii(s: Seq<u8>)
    ensures
        forall|j: int| 0 <= j < b64_of(s).len() ==> 45 <= #[trigger] b64_of(s)[j] < 123,
    decreases s.len(),
{
    if s.len() > 2 {
        lemma_b64_ascii(s.skip(3));
        let head = seq![
            b64_code(s[0] as int / 4),
            b64_code((s[0] as int % 4) * 16 + s[1] as int / 16),
            b64_code((s[1] as int % 16) * 4 + s[2] as int / 64),
            b64_code(s[2] as int % 64),
        ];
        assert(b64_of(s) == head + b64_of(s.skip(3)));
        assert forall|j: int| 0 <= j < b64_of(s).len() implies 45 <= #[trigger] b64_of(s)[j]
            < 123 by {
            if j >= 4 {
                assert(b64_of(s)[j] == b64_of(s.skip(3))[j - 4]);
            }
        }
    }
}

/// No code the encoding emits is a dot, so dots can join encoded parts.
pub proof fn lemma_b64_no_dot(s: Seq<u8>)
    ensures
        forall|j: int| 0 <= j < b64_of(s).len() ==> #[trigger] b64_of(s)[j] != 46,
    decreases s.len(),
{
    if s.len() > 2 {
        lemma_b64_no_dot(s.skip(3));
        let head = seq![
            b64_code(s[0] as int / 4),
            b64_code((s[0] as int % 4) * 16 + s[1] as int / 16),
            b64_code((s[1] as int % 16) * 4 + s[2] as int / 64),
            b64_code(s[2] as int % 64),
        ];
        assert(b64_of(s) == head + b64_of(s.skip(3)));
        assert forall|j: int| 0 <= j < b64_of(s).len() implies #[trigger] b64_of(s)[j] != 46 by {
            if j >= 4 {
                assert(b64_of(s)[j] == b64_of(s.skip(3))[j - 4]);
            }
        }
    }
}

/// The character for a six-bit value.
fn b64_byte(v: u8) -> (r: u8)
    requires
        v < 64,
    ensures
        r == b64_code(v as int),
{
    if v < 26 {
        v + 65
    } else if v < 52 {
        v + 71
    } else if v < 62 {
        v - 4
    } else if v == 62 {
        45
    } else {
        95
    }
}

/// Encodes bytes as base64url without padding.
pub fn base64url(bytes: &[u8]) -> (out: Vec<u8>)
    ensures
        out@ == b64_of(bytes@),
{
    let mut out: Vec<u8> = Vec::new();
    let mut i: usize = 0;
    while i < bytes.len() && bytes.len() - i >= 3
        invariant
            i <= bytes@.len(),
            i % 3 == 0,
            out@ == b64_of(bytes@.take(i as int)),
        decreases bytes@.len() - i,
    {
        let b0 = bytes[i];
        let b1 = bytes[i + 1];
        let b2 = bytes[i + 2];
        out.push(b64_byte(b0 / 4));
        out.push(b64_byte((b0 % 4) * 16 + b1 / 16));
        out.push(b64_byte((b1 % 16) * 4 + b2 / 64));
        out.push(b64_byte(b2 % 64));
        proof {
            let t = bytes@.take(i + 3);
            lemma_b64_split(t, i as int);
            assert(t.take(i as int) =~= bytes@.take(i as int));
            assert(t.skip(i as int).len() == 3);
            assert(t.skip(i as int)[0] == b0);
            assert(t.skip(i as int)[1] == b1);
            assert(t.skip(i as int)[2] == b2);
            let c = t.skip(i as int);
            assert(c.skip(3) =~= Seq::<u8>::empty());
            assert(b64_of(c.skip(3)) == Seq::<u8>::empty());
            assert(b64_of(c) =~= seq![
                b64_code(b0 as int / 4),
                b64_code((b0 as int % 4) * 16 + b1 as int / 16),
                b64_code((b1 as int % 16) * 4 + b2 as int / 64),
                b64_code(b2 as int % 64),
            ]);
            assert(out@ =~= b64_of(bytes@.take(i + 3)));
        }
        i = i + 3;
    }
    proof {
        lemma_b64_split(bytes@, i as int);
    }
    if bytes.len() - i == 1 {
        let b0 = bytes[i];
        out.push(b64_byte(b0 / 4));
        out.push(b64_byte((b0 % 4) * 16));
        proof {
            assert(bytes@.skip(i as int).len() == 1);
            assert(bytes@.skip(i as int)[0] == b0);
            assert(out@ =~= b64_of(bytes@));
        }
    } else if bytes.len() - i == 2 {
        let b0 = bytes[i];
        let b1 = bytes[i + 1];
        out.push(b64_byte(b0 / 4));
        out.push(b64_byte((b0 % 4) * 16 + b1 / 16));
        out.push(b64_byte((b1 % 16) * 4));
        proof {
            assert(bytes@.skip(i as int).len() == 2);
            assert(bytes@.skip(i as int)[0] == b0);
            assert(bytes@.skip(i as int)[1] == b1);
            assert(out@ =~= b64_of(bytes@));
        }
    } else {
        proof {
            assert(bytes@.take(i as int) =~= bytes@);
            assert(bytes@.skip(i as int).len() == 0);
            assert(out@ =~= b64_of(bytes@));
        }
    }
    out
}

} // verus!
