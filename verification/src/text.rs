//! Text building blocks shared by the emission layer: decimal rendering of
//! indices and comma-joining of type-argument lists.

use vstd::prelude::*;

verus! {

/// The character standing for one decimal digit.
pub open spec fn digit_char(d: nat) -> char {
    if d == 0 {
        '0'
    } else if d == 1 {
        '1'
    } else if d == 2 {
        '2'
    } else if d == 3 {
        '3'
    } else if d == 4 {
        '4'
    } else if d == 5 {
        '5'
    } else if d == 6 {
        '6'
    } else if d == 7 {
        '7'
    } else if d == 8 {
        '8'
    } else {
        '9'
    }
}

/// Decimal rendering of a natural number, most significant digit first.
pub open spec fn dec_of(n: nat) -> Seq<char>
    decreases n,
{
    if n < 10 {
        seq![digit_char(n)]
    } else {
        dec_of(n / 10) + seq![digit_char(n % 10)]
    }
}

fn digit_str(d: usize) -> (r: &'static str)
    requires
        d < 10,
    ensures
        r@ == seq![digit_char(d as nat)],
{
    if d == 0 {
        proof {
            reveal_strlit("0");
            assert("0"@ =~= seq![digit_char(0)]);
        }
        "0"
    } else if d == 1 {
        proof {
            reveal_strlit("1");
            assert("1"@ =~= seq![digit_char(1)]);
        }
        "1"
    } else if d == 2 {
        proof {
            reveal_strlit("2");
            assert("2"@ =~= seq![digit_char(2)]);
        }
        "2"
    } else if d == 3 {
        proof {
            reveal_strlit("3");
            assert("3"@ =~= seq![digit_char(3)]);
        }
        "3"
    } else if d == 4 {
        proof {
            reveal_strlit("4");
            assert("4"@ =~= seq![digit_char(4)]);
        }
        "4"
    } else if d == 5 {
        proof {
            reveal_strlit("5");
            assert("5"@ =~= seq![digit_char(5)]);
        }
        "5"
    } else if d == 6 {
        proof {
            reveal_strlit("6");
            assert("6"@ =~= seq![digit_char(6)]);
        }
        "6"
    } else if d == 7 {
        proof {
            reveal_strlit("7");
            assert("7"@ =~= seq![digit_char(7)]);
        }
        "7"
    } else if d == 8 {
        proof {
            reveal_strlit("8");
            assert("8"@ =~= seq![digit_char(8)]);
        }
        "8"
    } else {
        proof {
            reveal_strlit("9");
            assert("9"@ =~= seq![digit_char(9)]);
        }
        "9"
    }
}

/// Renders a number in decimal, as the synthesized test names require.
pub fn usize_to_string(n: usize) -> (r: String)
    ensures
        r@ == dec_of(n as nat),
    decreases n,
{
    if n < 10 {
        String::from_str(digit_str(n))
    } else {
        let mut r = usize_to_string(n / 10);
        r.append(digit_str(n % 10));
        r
    }
}

/// The pieces joined with a comma-space separator between them.
pub open spec fn comma_join(parts: Seq<Seq<char>>) -> Seq<char>
    decreases parts.len(),
{
    if parts.len() == 0 {
        Seq::empty()
    } else if parts.len() == 1 {
        parts[0]
    } else {
        comma_join(parts.drop_last()) + ", "@ + parts.last()
    }
}

/// Joins rendered type arguments the way they stand in an instantiation list.
pub fn join_comma(parts: &Vec<String>) -> (r: String)
    ensures
        r@ == comma_join(parts.deep_view()),
{
    let ghost dv = parts.deep_view();
    let mut r = String::new();
    let mut i: usize = 0;
    while i < parts.len()
        invariant
            i <= parts.len(),
            dv == parts.deep_view(),
            r@ == comma_join(dv.take(i as int)),
        decreases parts.len() - i,
    {
        if i > 0 {
            r.append(", ");
        }
        r.append(parts[i].as_str());
        proof {
            let pre = dv.take(i as int);
            let post = dv.take(i + 1);
            assert(post.drop_last() =~= pre);
            assert(post.last() == dv[i as int]);
            if i == 0 {
                assert(r@ =~= comma_join(post));
            } else {
                assert(r@ =~= comma_join(post));
            }
        }
        i = i + 1;
    }
    proof {
        assert(dv.take(parts.len() as int) =~= dv);
    }
    r
}

} // verus!
