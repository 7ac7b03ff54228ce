//! The error text shown when the external listing command fails: the marker
//! `ERR: ` followed by the command's raw standard-error bytes, written the
//! way a byte sequence is debug-printed (`[101, 114, 114]`), not decoded as
//! text.

use vstd::prelude::*;

verus! {

/// The character for one decimal digit.
pub open spec fn digit_char(d: u8) -> char {
    if d == 0 {
        '0'
    } else if d == 1 {
        '1'
    } else if d == 2 {
        '2'
    } else if d == 3 {
        '3'
    } else if d == 4 {
        '4'
    } else if d == 5 {
        '5'
    } else if d == 6 {
        '6'
    } else if d == 7 {
        '7'
    } else if d == 8 {
        '8'
    } else {
        '9'
    }
}

/// The decimal digits of one byte, without padding.
pub open spec fn decimal_of(b: u8) -> Seq<char> {
    if b < 10 {
        seq![digit_char(b)]
    } else if b < 100 {
        seq![digit_char(b / 10), digit_char(b % 10)]
    } else {
        seq![digit_char(b / 100), digit_char((b / 10) % 10), digit_char(b % 10)]
    }
}

/// The bytes written in decimal and separated by `, `, as inside a
/// debug-printed byte sequence.
pub open spec fn byte_list(bs: Seq<u8>) -> Seq<char>
    decreases bs.len(),
{
    if bs.len() == 0 {
        Seq::empty()
    } else if bs.len() == 1 {
        decimal_of(bs[0])
    } else {
        decimal_of(bs[0]) + ", "@ + byte_list(bs.drop_first())
    }
}

/// A byte sequence as it is debug-printed: the decimal bytes, comma
/// separated, in square brackets.
pub open spec fn debug_bytes(bs: Seq<u8>) -> Seq<char> {
    "["@ + byte_list(bs) + "]"@
}

/// The display content after a failed command: the error marker, then the
/// command's raw standard-error bytes, debug-printed.
pub open spec fn error_text(stderr: Seq<u8>) -> Seq<char> {
    "ERR: "@ + debug_bytes(stderr)
}

/// Appending a byte to the list appends its decimal form, preceded by the
/// separator unless the list was empty.
proof fn lemma_byte_list_push(bs: Seq<u8>, b: u8)
    ensures
        byte_list(bs.push(b)) == if bs.len() == 0 {
            decimal_of(b)
        } else {
            byte_list(bs) + ", "@ + decimal_of(b)
        },
    decreases bs.len(),
{
    let full = bs.push(b);
    if bs.len() == 0 {
        assert(full.len() == 1);
        assert(full[0] == b);
    } else {
        assert(full.len() >= 2);
        assert(full[0] == bs[0]);
        assert(full.drop_first() =~= bs.drop_first().push(b));
        lemma_byte_list_push(bs.drop_first(), b);
        if bs.len() == 1 {
            assert(byte_list(bs.drop_first()) == Seq::<char>::empty());
            assert(byte_list(full) == decimal_of(bs[0]) + ", "@ + decimal_of(b));
            assert(byte_list(bs) + ", "@ + decimal_of(b) =~= decimal_of(bs[0]) + ", "@
                + decimal_of(b));
        } else {
            assert(byte_list(full) == decimal_of(bs[0]) + ", "@ + (byte_list(bs.drop_first())
                + ", "@ + decimal_of(b)));
            assert(byte_list(bs) + ", "@ + decimal_of(b) =~= decimal_of(bs[0]) + ", "@ + (byte_list(
                bs.drop_first(),
            ) + ", "@ + decimal_of(b)));
        }
    }
}

/// One decimal digit as a borrowed one-character string.
fn digit_str(d: u8) -> (s: &'static str)
    requires
        d < 10,
    ensures
        s@ =~= seq![digit_char(d)],
{
    proof {
        reveal_strlit("0");
        reveal_strlit("1");
        reveal_strlit("2");
        reveal_strlit("3");
        reveal_strlit("4");
        reveal_strlit("5");
        reveal_strlit("6");
        reveal_strlit("7");
        reveal_strlit("8");
        reveal_strlit("9");
    }
    if d == 0 {
        "0"
    } else if d == 1 {
        "1"
    } else if d == 2 {
        "2"
    } else if d == 3 {
        "3"
    } else if d == 4 {
        "4"
    } else if d == 5 {
        "5"
    } else if d == 6 {
        "6"
    } else if d == 7 {
        "7"
    } else if d == 8 {
        "8"
    } else {
        "9"
    }
}

/// Append the decimal digits of one byte.
fn push_decimal(out: &mut String, b: u8)
    ensures
        final(out)@ == old(out)@ + decimal_of(b),
{
    if b < 10 {
        let ghost before = out@;
        out.append(digit_str(b));
        assert(out@ =~= before + decimal_of(b));
    } else if b < 100 {
        let ghost before = out@;
        out.append(digit_str(b / 10));
        out.append(digit_str(b % 10));
        assert(out@ =~= before + decimal_of(b));
    } else {
        let ghost before = out@;
        out.append(digit_str(b / 100));
        out.append(digit_str((b / 10) % 10));
        out.append(digit_str(b % 10));
        assert(out@ =~= before + decimal_of(b));
    }
}

/// The error text for a failed command, built from its raw standard-error
/// bytes.
pub fn err_message(stderr: &Vec<u8>) -> (msg: String)
    ensures
        msg@ == error_text(stderr@),
{
    proof {
        reveal_strlit("ERR: [");
        reveal_strlit("ERR: ");
        reveal_strlit("[");
        reveal_strlit("]");
        reveal_strlit(", ");
    }
    let mut out = String::from_str("ERR: [");
    assert(out@ =~= "ERR: "@ + "["@ + byte_list(stderr@.take(0)));
    let mut i: usize = 0;
    while i < stderr.len()
        invariant
            i <= stderr@.len(),
            out@ == "ERR: "@ + "["@ + byte_list(stderr@.take(i as int)),
        decreases stderr@.len() - i,
    {
        proof {
            reveal_strlit(", ");
        }
        if i > 0 {
            out.append(", ");
        }
        push_decimal(&mut out, stderr[i]);
        proof {
            lemma_byte_list_push(stderr@.take(i as int), stderr@[i as int]);
            assert(stderr@.take(i as int).push(stderr@[i as int]) =~= stderr@.take(i + 1));
            assert(out@ =~= "ERR: "@ + "["@ + byte_list(stderr@.take(i + 1)));
        }
        i = i + 1;
    }
    assert(stderr@.take(stderr@.len() as int) =~= stderr@);
    out.append("]");
    assert(out@ =~= error_text(stderr@));
    out
}

} // verus!
