//! Base64, as terminals take it for the clipboard.
use vstd::prelude::*;

verus! {

/// The character for six bits.
pub open spec fn symbol(v: int) -> char {
    if v < 26 {
        (65 + v) as char
    } else if v < 52 {
        (71 + v) as char
    } else if v < 62 {
        (v - 4) as char
    } else if v == 62 {
        '+'
    } else {
        '/'
    }
}

/// The six bits that a character stands for.
pub open spec fn bits(c: char) -> int {
    if 65 <= c as int <= 90 {
        c as int - 65
    } else if 97 <= c as int <= 122 {
        c as int - 71
    } else if 48 <= c as int <= 57 {
        c as int + 4
    } else if c == '+' {
        62
    } else {
        63
    }
}

/// The four characters for three bytes, read as one number.
pub open spec fn quad(n: int) -> Seq<char> {
    seq![
        symbol(n / 262144),
        symbol(n / 4096 % 64),
        symbol(n / 64 % 64),
        symbol(n % 64),
    ]
}

/// The number that up to three bytes stand for, the first being the highest.
pub open spec fn triple(data: Seq<u8>) -> int {
    65536 * (if data.len() > 0 {
        data[0] as int
    } else {
        0
    }) + 256 * (if data.len() > 1 {
        data[1] as int
    } else {
        0
    }) + (if data.len() > 2 {
        data[2] as int
    } else {
        0
    })
}

/// Some bytes in base64: four characters for every three bytes, the last of them
/// filled up with `=`.
pub open spec fn encoded(data: Seq<u8>) -> Seq<char>
    decreases data.len(),
{
    if data.len() == 0 {
        Seq::empty()
    } else if data.len() == 1 {
        quad(triple(data)).take(2).push('=').push('=')
    } else if data.len() == 2 {
        quad(triple(data)).take(3).push('=')
    } else {
        quad(triple(data.take(3))) + encoded(data.skip(3))
    }
}

/// The bytes that a text in base64 stands for.
pub open spec fn decoded(text: Seq<char>) -> Seq<u8>
    decreases text.len(),
{
    if text.len() < 4 {
        Seq::empty()
    } else {
        let n = 262144 * bits(text[0]) + 4096 * bits(text[1]) + (if text[2] == '=' {
            0
        } else {
            64 * bits(text[2])
        }) + (if text[3] == '=' {
            0
        } else {
            bits(text[3])
        });
        let first = (n / 65536) as u8;
        let second = (n / 256 % 256) as u8;
        let third = (n % 256) as u8;
        if text[2] == '=' {
            seq![first]
        } else if text[3] == '=' {
            seq![first, second]
        } else {
            seq![first, second, third] + decoded(text.skip(4))
        }
    }
}

/// The character for six bits.
fn symbol_of(v: u32) -> (r: char)
    requires
        v < 64,
    ensures
        r == symbol(v as int),
{
    let v: u8 = v as u8;
    if v < 26 {
        (65 + v) as char
    } else if v < 52 {
        (71 + v) as char
    } else if v < 62 {
        (v - 4) as char
    } else if v == 62 {
        '+'
    } else {
        '/'
    }
}

/// Encodes some bytes in base64.
pub fn base64_encode(data: &[u8]) -> (r: String)
    ensures
        r@ == encoded(data@),
{
    let mut out = String::new();
    let mut i: usize = 0;
    let len: usize = data.len();
    assert(data@.skip(0) =~= data@);
    while i < len
        invariant
            i <= len,
            len == data@.len(),
            out@ + encoded(data@.skip(i as int)) =~= encoded(data@),
        decreases len - i,
    {
        let ghost rest = data@.skip(i as int);
        let ghost before = out@;
        let left: usize = len - i;
        let b0: u32 = data[i] as u32;
        let b1: u32 = if left > 1 {
            data[i + 1] as u32
        } else {
            0
        };
        let b2: u32 = if left > 2 {
            data[i + 2] as u32
        } else {
            0
        };
        let n: u32 = 65536 * b0 + 256 * b1 + b2;
        assert(n < 16777216);
        assert(rest[0] == data@[i as int]);
        assert(left > 1 ==> rest[1] == data@[i + 1]);
        assert(left > 2 ==> rest[2] == data@[i + 2]);
        let ghost head = if left > 2 {
            rest.take(3)
        } else {
            rest
        };
        assert(n == triple(head));
        out.push(symbol_of(n / 262144));
        out.push(symbol_of(n / 4096 % 64));
        if left > 1 {
            out.push(symbol_of(n / 64 % 64));
        } else {
            out.push('=');
        }
        if left > 2 {
            out.push(symbol_of(n % 64));
        } else {
            out.push('=');
        }
        if left > 2 {
            i = i + 3;
            assert(rest.skip(3) =~= data@.skip(i as int));
            assert(out@ =~= before + quad(n as int));
            assert(out@ + encoded(data@.skip(i as int)) =~= before + encoded(rest));
        } else {
            i = len;
            assert(data@.skip(i as int) =~= Seq::<u8>::empty());
            assert(out@ =~= before + encoded(rest));
        }
    }
    assert(data@.skip(len as int) =~= Seq::<u8>::empty());
    assert(out@ =~= encoded(data@));
    out
}

proof fn lemma_symbol(v: int)
    requires
        0 <= v < 64,
    ensures
        bits(symbol(v)) == v,
        symbol(v) != '=',
{
}

proof fn lemma_quad(n: int)
    requires
        0 <= n < 16777216,
    ensures
        n == 262144 * (n / 262144) + 4096 * (n / 4096 % 64) + 64 * (n / 64 % 64) + n % 64,
        0 <= n / 262144 < 64,
{
}

/// The number that a quad of characters stands for.
spec fn number_of(text: Seq<char>) -> int {
    262144 * bits(text[0]) + 4096 * bits(text[1]) + (if text[2] == '=' {
        0
    } else {
        64 * bits(text[2])
    }) + (if text[3] == '=' {
        0
    } else {
        bits(text[3])
    })
}

proof fn lemma_number_of_quad(n: int)
    requires
        0 <= n < 16777216,
    ensures
        number_of(quad(n)) == n,
        quad(n)[2] != '=',
        quad(n)[3] != '=',
        n % 64 == 0 ==> number_of(quad(n).take(3).push('=')) == n,
        n % 4096 == 0 ==> number_of(quad(n).take(2).push('=').push('=')) == n,
{
    lemma_quad(n);
    lemma_symbol(n / 262144);
    lemma_symbol(n / 4096 % 64);
    lemma_symbol(n / 64 % 64);
    lemma_symbol(n % 64);
}

proof fn lemma_triple(data: Seq<u8>)
    ensures
        0 <= triple(data) < 16777216,
        data.len() > 0 ==> triple(data) / 65536 == data[0],
        data.len() > 1 ==> triple(data) / 256 % 256 == data[1],
        data.len() > 2 ==> triple(data) % 256 == data[2],
        data.len() == 2 ==> triple(data) % 64 == 0,
        data.len() == 1 ==> triple(data) % 4096 == 0,
{
}

/// What was encoded can be read back.
pub proof fn law_decoding_gives_back(data: Seq<u8>)
    ensures
        decoded(encoded(data)) == data,
    decreases data.len(),
{
    let text = encoded(data);
    if data.len() == 0 {
        assert(decoded(text) =~= data);
    } else if data.len() < 3 {
        lemma_triple(data);
        lemma_number_of_quad(triple(data));
        if data.len() == 1 {
            assert(text == quad(triple(data)).take(2).push('=').push('='));
            assert(decoded(text) =~= data);
        } else {
            assert(text == quad(triple(data)).take(3).push('='));
            assert(text[2] == quad(triple(data))[2]);
            assert(decoded(text) =~= data);
        }
    } else {
        let head = data.take(3);
        let four = quad(triple(head));
        lemma_triple(head);
        lemma_number_of_quad(triple(head));
        law_decoding_gives_back(data.skip(3));
        assert(text == four + encoded(data.skip(3)));
        assert(text[0] == four[0] && text[1] == four[1] && text[2] == four[2] && text[3]
            == four[3]);
        assert(text.skip(4) =~= encoded(data.skip(3)));
        assert(number_of(text) == number_of(four));
        assert(decoded(text) == seq![head[0], head[1], head[2]] + data.skip(3));
        assert(decoded(text) =~= data);
    }
}

/// The encoded text takes four characters for every three bytes begun.
pub proof fn law_encoded_length(data: Seq<u8>)
    ensures
        encoded(data).len() == 4 * ((data.len() + 2) / 3),
    decreases data.len(),
{
    if data.len() >= 3 {
        law_encoded_length(data.skip(3));
    }
}

/// A character of the alphabet: a letter, a digit, `+` or `/`.
pub open spec fn in_alphabet(c: char) -> bool {
    'A' <= c <= 'Z' || 'a' <= c <= 'z' || '0' <= c <= '9' || c == '+' || c == '/'
}

/// How many characters fill up the last four: none behind whole triples of bytes,
/// one behind two bytes more, two behind one byte more.
pub open spec fn padding(data: Seq<u8>) -> nat {
    if data.len() % 3 == 0 {
        0
    } else {
        (3 - data.len() % 3) as nat
    }
}

/// The encoded text ends in as many `=` as fill it up, and all else in it is of the
/// alphabet.
pub proof fn law_padding_stands_at_the_end(data: Seq<u8>)
    ensures
        encoded(data).len() >= padding(data),
        forall|i: int|
            0 <= i < encoded(data).len() - padding(data) ==> in_alphabet(
                #[trigger] encoded(data)[i],
            ),
        forall|i: int|
            encoded(data).len() - padding(data) <= i < encoded(data).len() ==> #[trigger] encoded(
                data,
            )[i] == '=',
    decreases data.len(),
{
    let text = encoded(data);
    let pad = padding(data);
    if data.len() >= 3 {
        let four = quad(triple(data.take(3)));
        let rest = data.skip(3);
        let tail = encoded(rest);
        assert(text == four + tail);
        lemma_triple(data.take(3));
        lemma_quad_alphabet(triple(data.take(3)));
        law_padding_stands_at_the_end(rest);
        assert(rest.len() % 3 == data.len() % 3);
        assert forall|i: int| 0 <= i < text.len() - pad implies in_alphabet(#[trigger] text[i]) by {
            if i < 4 {
                assert(text[i] == four[i]);
            } else {
                assert(text[i] == tail[i - 4]);
            }
        }
        assert forall|i: int| text.len() - pad <= i < text.len() implies #[trigger] text[i]
            == '=' by {
            assert(text[i] == tail[i - 4]);
        }
    } else if data.len() > 0 {
        let four = quad(triple(data));
        lemma_triple(data);
        lemma_quad_alphabet(triple(data));
        assert(text == if data.len() == 1 {
            four.take(2).push('=').push('=')
        } else {
            four.take(3).push('=')
        });
        assert forall|i: int| 0 <= i < text.len() - pad implies in_alphabet(#[trigger] text[i]) by {
            assert(text[i] == four[i]);
        }
    }
}

proof fn lemma_quad_alphabet(n: int)
    requires
        0 <= n < 16777216,
    ensures
        quad(n).len() == 4,
        forall|i: int| 0 <= i < 4 ==> in_alphabet(#[trigger] quad(n)[i]),
{
    lemma_quad(n);
    lemma_symbol_alphabet(n / 262144);
    lemma_symbol_alphabet(n / 4096 % 64);
    lemma_symbol_alphabet(n / 64 % 64);
    lemma_symbol_alphabet(n % 64);
}

proof fn lemma_symbol_alphabet(v: int)
    requires
        0 <= v < 64,
    ensures
        in_alphabet(symbol(v)),
{
}

} // verus!
