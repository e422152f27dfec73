//! Base64 with the URL-safe alphabet.

use vstd::prelude::*;

verus! {

/// The letter for a value below 64.
pub open spec fn letter(value: int) -> u8 {
    if value < 26 {
        (65 + value) as u8
    } else if value < 52 {
        (71 + value) as u8
    } else if value < 62 {
        (value - 4) as u8
    } else if value == 62 {
        45
    } else {
        95
    }
}

/// The letters for `bytes`, without padding: four letters for three bytes, and for
/// one or two bytes at the end as many letters as they need.
pub open spec fn encode(bytes: Seq<u8>) -> Seq<u8>
    decreases bytes.len(),
{
    let (a, b, c) = (bytes[0] as int, bytes[1] as int, bytes[2] as int);
    if bytes.len() == 0 {
        Seq::empty()
    } else if bytes.len() == 1 {
        seq![letter(a / 4), letter(a % 4 * 16)]
    } else if bytes.len() == 2 {
        seq![letter(a / 4), letter(a % 4 * 16 + b / 16), letter(b % 16 * 4)]
    } else {
        seq![
            letter(a / 4),
            letter(a % 4 * 16 + b / 16),
            letter(b % 16 * 4 + c / 64),
            letter(c % 64),
        ] + encode(bytes.skip(3))
    }
}

/// The padding that fills up the last four letters for that many bytes.
pub open spec fn padding(len: nat) -> Seq<u8> {
    if len % 3 == 1 {
        seq![61u8, 61u8]
    } else if len % 3 == 2 {
        seq![61u8]
    } else {
        Seq::empty()
    }
}

/// Whether `text` stands for `bytes`, with or without padding.
pub open spec fn stands_for(text: Seq<u8>, bytes: Seq<u8>) -> bool {
    text == encode(bytes) || text == encode(bytes) + padding(bytes.len())
}

/// The value of a letter; 64 for a byte that is none.
spec fn value(letter: u8) -> int {
    if 65 <= letter <= 90 {
        letter - 65
    } else if 97 <= letter <= 122 {
        letter - 71
    } else if 48 <= letter <= 57 {
        letter + 4
    } else if letter == 45 {
        62
    } else if letter == 95 {
        63
    } else {
        64
    }
}

/// The bytes that letters without padding stand for.
spec fn decoded(text: Seq<u8>) -> Option<Seq<u8>>
    decreases text.len(),
{
    let (a, b, c, d) = (value(text[0]), value(text[1]), value(text[2]), value(text[3]));
    if text.len() == 0 {
        Some(Seq::empty())
    } else if text.len() == 1 {
        None
    } else if text.len() == 2 {
        if a < 64 && b < 64 && b % 16 == 0 {
            Some(seq![(a * 4 + b / 16) as u8])
        } else {
            None
        }
    } else if text.len() == 3 {
        if a < 64 && b < 64 && c < 64 && c % 4 == 0 {
            Some(seq![(a * 4 + b / 16) as u8, (b % 16 * 16 + c / 4) as u8])
        } else {
            None
        }
    } else {
        if a < 64 && b < 64 && c < 64 && d < 64 {
            match decoded(text.skip(4)) {
                Some(rest) => Some(
                    seq![
                        (a * 4 + b / 16) as u8,
                        (b % 16 * 16 + c / 4) as u8,
                        (c % 4 * 64 + d) as u8,
                    ] + rest,
                ),
                None => None,
            }
        } else {
            None
        }
    }
}

/// How many bytes of `text` come before the padding.
spec fn unpadded_len(text: Seq<u8>) -> int {
    let n = text.len() as int;
    if n > 0 && n % 4 == 0 && text[n - 1] == 61 {
        if text[n - 2] == 61 {
            n - 2
        } else {
            n - 1
        }
    } else {
        n
    }
}

proof fn value_of_letter(v: int)
    requires
        0 <= v < 64,
    ensures
        value(letter(v)) == v,
        letter(v) != 61,
        letter(v) != 32,
{
}

proof fn letter_of_value(c: u8)
    requires
        value(c) < 64,
    ensures
        letter(value(c)) == c,
        0 <= value(c),
{
}

proof fn decoded_encode(bytes: Seq<u8>)
    ensures
        decoded(encode(bytes)) == Some(bytes),
        encode(bytes).len() % 4 == (if bytes.len() % 3 == 0 {
            0nat
        } else {
            (bytes.len() % 3 + 1) as nat
        }),
        forall|i: int|
            0 <= i < encode(bytes).len() ==> #[trigger] encode(bytes)[i] != 61 && encode(bytes)[i]
                != 32,
    decreases bytes.len(),
{
    let (a, b, c) = (bytes[0] as int, bytes[1] as int, bytes[2] as int);
    let text = encode(bytes);
    if bytes.len() == 0 {
    } else if bytes.len() == 1 {
        value_of_letter(a / 4);
        value_of_letter(a % 4 * 16);
        assert(decoded(text)->0 == bytes);
    } else if bytes.len() == 2 {
        value_of_letter(a / 4);
        value_of_letter(a % 4 * 16 + b / 16);
        value_of_letter(b % 16 * 4);
        assert(decoded(text)->0 == bytes);
    } else {
        value_of_letter(a / 4);
        value_of_letter(a % 4 * 16 + b / 16);
        value_of_letter(b % 16 * 4 + c / 64);
        value_of_letter(c % 64);
        decoded_encode(bytes.skip(3));
        assert(text.skip(4) == encode(bytes.skip(3)));
        assert(decoded(text)->0 == bytes);
    }
}

proof fn encode_decoded(text: Seq<u8>)
    requires
        decoded(text) is Some,
    ensures
        encode(decoded(text)->0) == text,
    decreases text.len(),
{
    let (a, b, c, d) = (value(text[0]), value(text[1]), value(text[2]), value(text[3]));
    let bytes = decoded(text)->0;
    if text.len() == 0 {
    } else if text.len() == 2 {
        letter_of_value(text[0]);
        letter_of_value(text[1]);
        assert(encode(bytes) == text);
    } else if text.len() == 3 {
        letter_of_value(text[0]);
        letter_of_value(text[1]);
        letter_of_value(text[2]);
        assert(encode(bytes) == text);
    } else {
        letter_of_value(text[0]);
        letter_of_value(text[1]);
        letter_of_value(text[2]);
        letter_of_value(text[3]);
        encode_decoded(text.skip(4));
        assert(bytes.skip(3) == decoded(text.skip(4))->0);
        assert(encode(bytes) == text);
    }
}

proof fn stands_for_decoded(text: Seq<u8>, bytes: Seq<u8>)
    ensures
        stands_for(text, bytes) <==> decoded(text.take(unpadded_len(text))) == Some(bytes),
{
    let letters = text.take(unpadded_len(text));
    decoded_encode(bytes);
    let n = text.len() as int;
    if stands_for(text, bytes) {
        let encoded = encode(bytes);
        if text == encoded {
            assert(n > 0 ==> text[n - 1] != 61);
            assert(letters == encoded);
        } else {
            let p = padding(bytes.len());
            assert(text == encoded + p);
            assert(bytes.len() % 3 == 1 || bytes.len() % 3 == 2);
            assert(text[n - 1] == p[p.len() - 1]);
            if p.len() == 2 {
                assert(text[n - 2] == p[0]);
            } else {
                assert(text[n - 2] == encoded[n - 2]);
            }
            assert(letters == encoded);
        }
    }
    if decoded(letters) == Some(bytes) {
        encode_decoded(letters);
        assert(letters == encode(bytes));
        assert(text == letters || text == letters + padding(bytes.len()));
    }
}

/// No text stands for two byte strings.
pub proof fn stands_for_one(text: Seq<u8>, bytes1: Seq<u8>, bytes2: Seq<u8>)
    requires
        stands_for(text, bytes1),
        stands_for(text, bytes2),
    ensures
        bytes1 == bytes2,
{
    stands_for_decoded(text, bytes1);
    stands_for_decoded(text, bytes2);
}

/// Text that stands for bytes holds nothing but letters and padding: no space.
pub proof fn no_space(text: Seq<u8>, bytes: Seq<u8>)
    requires
        stands_for(text, bytes),
    ensures
        !text.contains(32),
{
    decoded_encode(bytes);
    let encoded = encode(bytes);
    if text.contains(32) {
        let i = text.index_of(32);
        if i < encoded.len() {
            assert(encoded[i] == 32);
        } else {
            assert(text[i] == padding(bytes.len())[i - encoded.len()]);
        }
    }
}

fn value_of(letter: u8) -> (result: u8)
    ensures
        result == value(letter),
        result <= 64,
{
    if 65 <= letter && letter <= 90 {
        letter - 65
    } else if 97 <= letter && letter <= 122 {
        letter - 71
    } else if 48 <= letter && letter <= 57 {
        letter + 4
    } else if letter == 45 {
        62
    } else if letter == 95 {
        63
    } else {
        64
    }
}

/// The bytes that `text` stands for, if any.
pub fn decode(text: &[u8]) -> (bytes: Option<Vec<u8>>)
    ensures
        match bytes {
            Some(bytes) => stands_for(text@, bytes@),
            None => forall|bytes: Seq<u8>| !stands_for(text@, bytes),
        },
{
    let n: usize = text.len();
    let end: usize = if n > 0 && n % 4 == 0 && text[n - 1] == 61 {
        if text[n - 2] == 61 {
            n - 2
        } else {
            n - 1
        }
    } else {
        n
    };
    let ghost letters = text@.take(end as int);
    proof {
        assert forall|bytes: Seq<u8>|
            stands_for(text@, bytes) <==> decoded(letters) == Some(bytes) by {
            stands_for_decoded(text@, bytes);
        }
    }
    let mut bytes: Vec<u8> = Vec::new();
    let mut i: usize = 0;
    assert(letters.skip(0) == letters);
    assert(decoded(letters) matches Some(rest) ==> bytes@ + rest == rest);
    while end - i >= 4
        invariant
            i <= end <= text@.len(),
            letters == text@.take(end as int),
            forall|bytes: Seq<u8>|
                stands_for(text@, bytes) <==> decoded(letters) == Some(bytes),
            match decoded(letters.skip(i as int)) {
                Some(rest) => decoded(letters) == Some(bytes@ + rest),
                None => decoded(letters) is None,
            },
        decreases end - i,
    {
        let ghost here = letters.skip(i as int);
        assert(here[0] == text[i as int] && here[1] == text[i + 1] && here[2] == text[i + 2]
            && here[3] == text[i + 3]);
        let a: u8 = value_of(text[i]);
        let b: u8 = value_of(text[i + 1]);
        let c: u8 = value_of(text[i + 2]);
        let d: u8 = value_of(text[i + 3]);
        if a == 64 || b == 64 || c == 64 || d == 64 {
            return None;
        }
        assert(here.skip(4) == letters.skip(i + 4));
        let ghost before = bytes@;
        bytes.push(a * 4 + b / 16);
        bytes.push(b % 16 * 16 + c / 4);
        bytes.push(c % 4 * 64 + d);
        proof {
            if let Some(rest) = decoded(letters.skip(i + 4)) {
                assert(bytes@ + rest == before + (seq![
                    (a * 4 + b / 16) as u8,
                    (b % 16 * 16 + c / 4) as u8,
                    (c % 4 * 64 + d) as u8,
                ] + rest));
            }
        }
        i = i + 4;
    }
    let ghost here = letters.skip(i as int);
    let rest: usize = end - i;
    if rest == 0 {
        assert(here.len() == 0);
        assert(bytes@ + Seq::<u8>::empty() == bytes@);
        return Some(bytes);
    }
    if rest == 1 {
        return None;
    }
    assert(here[0] == text[i as int] && here[1] == text[i + 1]);
    let a: u8 = value_of(text[i]);
    let b: u8 = value_of(text[i + 1]);
    if a == 64 || b == 64 {
        return None;
    }
    let ghost before = bytes@;
    bytes.push(a * 4 + b / 16);
    if rest == 2 {
        if b % 16 != 0 {
            return None;
        }
        assert(bytes@ == before + seq![(a * 4 + b / 16) as u8]);
        return Some(bytes);
    }
    assert(here[2] == text[i + 2]);
    let c: u8 = value_of(text[i + 2]);
    if c == 64 || c % 4 != 0 {
        return None;
    }
    bytes.push(b % 16 * 16 + c / 4);
    assert(bytes@ == before + seq![(a * 4 + b / 16) as u8, (b % 16 * 16 + c / 4) as u8]);
    Some(bytes)
}

/// The letters are those of the URL-safe alphabet, in its order.
pub proof fn alphabet_is_url_safe(value: int)
    requires
        0 <= value < 64,
    ensures
        letter(value)
            == "ABCDEFGHIJKLMNOPQRSTUVWXYZabcdefghijklmnopqrstuvwxyz0123456789-_"@[value] as u8,
{
    reveal_strlit("ABCDEFGHIJKLMNOPQRSTUVWXYZabcdefghijklmnopqrstuvwxyz0123456789-_");
}

/// Bytes are encoded three at a time, and each group on its own.
pub proof fn groups_are_independent(group: Seq<u8>, rest: Seq<u8>)
    requires
        group.len() == 3,
    ensures
        encode(group).len() == 4,
        encode(group + rest) == encode(group) + encode(rest),
{
    reveal_with_fuel(encode, 2);
    assert((group + rest).skip(3) == rest);
    assert(group.skip(3) == Seq::<u8>::empty());
    assert(encode(group) + encode(rest) == encode(group + rest)) by {
        assert(encode(group) == encode(group) + Seq::<u8>::empty());
    }
}

/// The letters of a group spell its bytes in base 64, most significant first. Where
/// the group is not full, zero bits fill up its last letter.
pub proof fn group_spells_its_bytes(group: Seq<u8>, v0: int, v1: int, v2: int, v3: int)
    requires
        1 <= group.len() <= 3,
        0 <= v0 < 64 && 0 <= v1 < 64 && 0 <= v2 < 64 && 0 <= v3 < 64,
        seq![letter(v0), letter(v1), letter(v2), letter(v3)].take(encode(group).len() as int)
            == encode(group),
    ensures
        encode(group).len() == group.len() + 1,
        group.len() == 1 ==> 64 * v0 + v1 == 16 * group[0],
        group.len() == 2 ==> 4096 * v0 + 64 * v1 + v2 == 4 * (256 * group[0] + group[1]),
        group.len() == 3 ==> 262144 * v0 + 4096 * v1 + 64 * v2 + v3 == 65536 * group[0] + 256
            * group[1] + group[2],
{
    reveal_with_fuel(encode, 2);
    let (a, b, c) = (group[0] as int, group[1] as int, group[2] as int);
    let letters = seq![letter(v0), letter(v1), letter(v2), letter(v3)];
    let text = encode(group);
    assert(group.len() == 3 ==> group.skip(3) == Seq::<u8>::empty());
    assert(text.len() == group.len() + 1);
    let spelled = letters.take(text.len() as int);
    assert(spelled[0] == text[0] && spelled[1] == text[1]);
    assert(text.len() > 2 ==> spelled[2] == text[2]);
    assert(text.len() > 3 ==> spelled[3] == text[3]);
    value_of_letter(v0);
    value_of_letter(v1);
    value_of_letter(v2);
    value_of_letter(v3);
    value_of_letter(a / 4);
    if group.len() == 1 {
        value_of_letter(a % 4 * 16);
    } else if group.len() == 2 {
        value_of_letter(a % 4 * 16 + b / 16);
        value_of_letter(b % 16 * 4);
    } else {
        value_of_letter(a % 4 * 16 + b / 16);
        value_of_letter(b % 16 * 4 + c / 64);
        value_of_letter(c % 64);
    }
}

/// Text stands for bytes exactly if it is their letters, or their letters filled up
/// with at most two equals signs to a multiple of four.
pub proof fn padding_fills_up(text: Seq<u8>, bytes: Seq<u8>)
    ensures
        stands_for(text, bytes) <==> text == encode(bytes) || {
            &&& encode(bytes).is_prefix_of(text)
            &&& text.len() % 4 == 0
            &&& text.len() <= encode(bytes).len() + 2
            &&& forall|i: int| encode(bytes).len() <= i < text.len() ==> #[trigger] text[i] == 61
        },
{
    decoded_encode(bytes);
    let encoded = encode(bytes);
    let p = padding(bytes.len());
    if text == encoded + p {
        assert(encoded.is_prefix_of(text));
        assert forall|i: int| encoded.len() <= i < text.len() implies #[trigger] text[i] == 61 by {
            assert(text[i] == p[i - encoded.len()]);
        }
    }
    if encoded.is_prefix_of(text) && text.len() % 4 == 0 && text.len() <= encoded.len() + 2
        && (forall|i: int| encoded.len() <= i < text.len() ==> #[trigger] text[i] == 61) {
        assert(text.len() == encoded.len() + p.len());
        assert(text =~= encoded + p);
    }
}

} // verus!
