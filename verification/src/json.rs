//! Rendering of byte sequences as JSON values.
//!
//! The evidence bundle is exchanged as JSON text in which every byte string
//! appears as an array of decimal numbers. The spec functions here pin that
//! text down character by character, and the exec functions are proved to
//! produce exactly it.

use vstd::prelude::*;
use vstd::string::StringExecFns;

verus! {

/// The character for a single decimal digit.
pub open spec fn decimal_digit_char(d: int) -> char {
    if d == 0 {
        '0'
    } else if d == 1 {
        '1'
    } else if d == 2 {
        '2'
    } else if d == 3 {
        '3'
    } else if d == 4 {
        '4'
    } else if d == 5 {
        '5'
    } else if d == 6 {
        '6'
    } else if d == 7 {
        '7'
    } else if d == 8 {
        '8'
    } else {
        '9'
    }
}

/// The shortest decimal rendering of a byte, without leading zeros.
pub open spec fn decimal_of_u8(b: u8) -> Seq<char> {
    if b < 10 {
        seq![decimal_digit_char(b as int)]
    } else if b < 100 {
        seq![decimal_digit_char(b as int / 10), decimal_digit_char(b as int % 10)]
    } else {
        seq![
            decimal_digit_char(b as int / 100),
            decimal_digit_char((b as int / 10) % 10),
            decimal_digit_char(b as int % 10),
        ]
    }
}

/// The comma-separated list of the decimal renderings of the bytes of `s`.
pub open spec fn byte_list_json(s: Seq<u8>) -> Seq<char>
    decreases s.len(),
{
    if s.len() == 0 {
        Seq::empty()
    } else if s.len() == 1 {
        decimal_of_u8(s[0])
    } else {
        byte_list_json(s.drop_last()) + seq![','] + decimal_of_u8(s.last())
    }
}

/// A byte string as a JSON array of numbers, e.g. `[7,0,255]`.
pub open spec fn byte_array_json(s: Seq<u8>) -> Seq<char> {
    seq!['['] + byte_list_json(s) + seq![']']
}

/// The comma-separated list of the JSON arrays for each row of `s`.
pub open spec fn byte_rows_json(s: Seq<Seq<u8>>) -> Seq<char>
    decreases s.len(),
{
    if s.len() == 0 {
        Seq::empty()
    } else if s.len() == 1 {
        byte_array_json(s[0])
    } else {
        byte_rows_json(s.drop_last()) + seq![','] + byte_array_json(s.last())
    }
}

/// A list of byte strings as a JSON array of arrays, e.g. `[[1,2],[3]]`.
pub open spec fn byte_matrix_json(s: Seq<Seq<u8>>) -> Seq<char> {
    seq!['['] + byte_rows_json(s) + seq![']']
}

/// Appends the single decimal digit `d` to `out`.
fn append_digit(out: &mut String, d: u8)
    requires
        d < 10,
    ensures
        final(out)@ == old(out)@ + seq![decimal_digit_char(d as int)],
{
    match d {
        0 => {
            proof {
                reveal_strlit("0");
            }
            out.append("0");
        },
        1 => {
            proof {
                reveal_strlit("1");
            }
            out.append("1");
        },
        2 => {
            proof {
                reveal_strlit("2");
            }
            out.append("2");
        },
        3 => {
            proof {
                reveal_strlit("3");
            }
            out.append("3");
        },
        4 => {
            proof {
                reveal_strlit("4");
            }
            out.append("4");
        },
        5 => {
            proof {
                reveal_strlit("5");
            }
            out.append("5");
        },
        6 => {
            proof {
                reveal_strlit("6");
            }
            out.append("6");
        },
        7 => {
            proof {
                reveal_strlit("7");
            }
            out.append("7");
        },
        8 => {
            proof {
                reveal_strlit("8");
            }
            out.append("8");
        },
        _ => {
            proof {
                reveal_strlit("9");
            }
            out.append("9");
        },
    }
    assert(out@ =~= old(out)@ + seq![decimal_digit_char(d as int)]);
}

/// Appends the decimal rendering of the byte `b` to `out`.
fn append_u8_decimal(out: &mut String, b: u8)
    ensures
        final(out)@ == old(out)@ + decimal_of_u8(b),
{
    if b < 10 {
        append_digit(out, b);
    } else if b < 100 {
        append_digit(out, b / 10);
        append_digit(out, b % 10);
    } else {
        append_digit(out, b / 100);
        append_digit(out, (b / 10) % 10);
        append_digit(out, b % 10);
    }
    assert(out@ =~= old(out)@ + decimal_of_u8(b));
}

/// Appends the JSON array rendering of `bytes` to `out`.
pub fn append_byte_array(out: &mut String, bytes: &[u8])
    ensures
        final(out)@ == old(out)@ + byte_array_json(bytes@),
{
    proof {
        reveal_strlit("[");
        reveal_strlit(",");
        reveal_strlit("]");
    }
    out.append("[");
    assert(out@ =~= old(out)@ + seq!['[']);
    let n: usize = bytes.len();
    let mut i: usize = 0;
    while i < n
        invariant
            n == bytes@.len(),
            i <= n,
            out@ == old(out)@ + seq!['['] + byte_list_json(bytes@.take(i as int)),
        decreases n - i,
    {
        if i > 0 {
            proof {
                reveal_strlit(",");
            }
            out.append(",");
        }
        append_u8_decimal(out, bytes[i]);
        proof {
            let prefix = bytes@.take(i as int);
            let extended = bytes@.take(i as int + 1);
            assert(extended.drop_last() =~= prefix);
            assert(extended.last() == bytes@[i as int]);
            if i == 0 {
                assert(byte_list_json(extended) == decimal_of_u8(bytes@[0]));
            } else {
                assert(byte_list_json(extended) == byte_list_json(prefix) + seq![',']
                    + decimal_of_u8(bytes@[i as int]));
            }
            assert(out@ =~= old(out)@ + seq!['['] + byte_list_json(extended));
        }
        i = i + 1;
    }
    assert(bytes@.take(n as int) =~= bytes@);
    out.append("]");
    assert(out@ =~= old(out)@ + byte_array_json(bytes@));
}

/// Appends the JSON array-of-arrays rendering of `rows` to `out`.
pub fn append_byte_matrix(out: &mut String, rows: &Vec<Vec<u8>>)
    ensures
        final(out)@ == old(out)@ + byte_matrix_json(rows.deep_view()),
{
    proof {
        reveal_strlit("[");
        reveal_strlit(",");
        reveal_strlit("]");
    }
    out.append("[");
    assert(out@ =~= old(out)@ + seq!['[']);
    let n: usize = rows.len();
    let mut i: usize = 0;
    while i < n
        invariant
            n == rows@.len(),
            i <= n,
            out@ == old(out)@ + seq!['['] + byte_rows_json(rows.deep_view().take(i as int)),
        decreases n - i,
    {
        if i > 0 {
            proof {
                reveal_strlit(",");
            }
            out.append(",");
        }
        append_byte_array(out, rows[i].as_slice());
        proof {
            let prefix = rows.deep_view().take(i as int);
            let extended = rows.deep_view().take(i as int + 1);
            assert(rows.deep_view()[i as int] =~= rows@[i as int]@);
            assert(extended.drop_last() =~= prefix);
            assert(extended.last() == rows.deep_view()[i as int]);
            if i == 0 {
                assert(byte_rows_json(extended) == byte_array_json(rows.deep_view()[0]));
            } else {
                assert(byte_rows_json(extended) == byte_rows_json(prefix) + seq![',']
                    + byte_array_json(rows.deep_view()[i as int]));
            }
            assert(out@ =~= old(out)@ + seq!['['] + byte_rows_json(extended));
        }
        i = i + 1;
    }
    assert(rows.deep_view().take(n as int) =~= rows.deep_view());
    out.append("]");
    assert(out@ =~= old(out)@ + byte_matrix_json(rows.deep_view()));
}

} // verus!
