//! Plain-text rendering of native values for the diagnostic dump: decimal
//! numerals, geometry tuples, plain boolean tokens, bracketed arrays.

use vstd::prelude::*;
use crate::value::NativeValue;

verus! {

/// The decimal digit character for one digit value.
pub open spec fn digit_char(d: int) -> char {
    if d == 0 {
        '0'
    } else if d == 1 {
        '1'
    } else if d == 2 {
        '2'
    } else if d == 3 {
        '3'
    } else if d == 4 {
        '4'
    } else if d == 5 {
        '5'
    } else if d == 6 {
        '6'
    } else if d == 7 {
        '7'
    } else if d == 8 {
        '8'
    } else {
        '9'
    }
}

/// The decimal numeral of a natural number, most significant digit first.
pub open spec fn spec_udec(n: nat) -> Seq<char>
    decreases n,
{
    if n < 10 {
        seq![digit_char(n as int)]
    } else {
        spec_udec(n / 10) + seq![digit_char((n % 10) as int)]
    }
}

/// The decimal numeral of an integer, with a leading minus sign when
/// negative.
pub open spec fn spec_idec(n: int) -> Seq<char> {
    if n < 0 {
        seq!['-'] + spec_udec((-n) as nat)
    } else {
        spec_udec(n as nat)
    }
}

/// One decimal digit as text.
fn digit_str(d: u64) -> (r: &'static str)
    requires
        d < 10,
    ensures
        r@ == seq![digit_char(d as int)],
{
    proof {
        reveal_strlit("0");
        reveal_strlit("1");
        reveal_strlit("2");
        reveal_strlit("3");
        reveal_strlit("4");
        reveal_strlit("5");
        reveal_strlit("6");
        reveal_strlit("7");
        reveal_strlit("8");
        reveal_strlit("9");
    }
    let r = if d == 0 {
        "0"
    } else if d == 1 {
        "1"
    } else if d == 2 {
        "2"
    } else if d == 3 {
        "3"
    } else if d == 4 {
        "4"
    } else if d == 5 {
        "5"
    } else if d == 6 {
        "6"
    } else if d == 7 {
        "7"
    } else if d == 8 {
        "8"
    } else {
        "9"
    };
    proof {
        assert(r@ =~= seq![digit_char(d as int)]);
    }
    r
}

/// Renders a natural number in decimal.
pub fn udec(n: u64) -> (r: String)
    ensures
        r@ == spec_udec(n as nat),
    decreases n,
{
    if n < 10 {
        digit_str(n).to_owned()
    } else {
        let mut s = udec(n / 10);
        s.append(digit_str(n % 10));
        proof {
            assert(s@ =~= spec_udec(n as nat));
        }
        s
    }
}

/// Renders a signed number in decimal.
pub fn idec(n: i64) -> (r: String)
    ensures
        r@ == spec_idec(n as int),
{
    if n >= 0 {
        udec(n as u64)
    } else {
        let mag: u64 = ((0i64 - (n + 1)) as u64) + 1;
        proof {
            assert(mag as int == -(n as int));
        }
        let mut s = String::from_str("-");
        proof {
            reveal_strlit("-");
            assert(s@ =~= seq!['-']);
        }
        s.append(udec(mag).as_str());
        proof {
            assert(s@ =~= spec_idec(n as int));
        }
        s
    }
}

/// The generic rendering of a native value: text stays as it is, with no
/// quoting; booleans are plain tokens; numbers are decimal; geometry is a
/// parenthesised tuple; an element reference is its handle number behind a
/// hash; arrays are bracketed, comma separated, in native order; any other
/// native object shows only its opaque token.
pub open spec fn spec_render(v: NativeValue) -> Seq<char>
    decreases v, 1int,
{
    match v {
        NativeValue::Text(s) => s@,
        NativeValue::Boolean(b) => if b {
            "true"@
        } else {
            "false"@
        },
        NativeValue::Number(n) => spec_idec(n as int),
        NativeValue::BoxedPoint(p) => seq!['('] + spec_idec(p.x as int) + ", "@ + spec_idec(
            p.y as int,
        ) + seq![')'],
        NativeValue::BoxedSize(s) => seq!['('] + spec_idec(s.width as int) + ", "@ + spec_idec(
            s.height as int,
        ) + seq![')'],
        NativeValue::BoxedRect(r) => seq!['('] + spec_idec(r.x as int) + ", "@ + spec_idec(
            r.y as int,
        ) + ", "@ + spec_idec(r.width as int) + ", "@ + spec_idec(r.height as int) + seq![')'],
        NativeValue::ElementRef(id) => seq!['#'] + spec_udec(id as nat),
        NativeValue::Array(items) => seq!['['] + spec_render_from(items@, 0) + seq![']'],
        NativeValue::Opaque(tag) => "opaque#"@ + spec_udec(tag as nat),
    }
}

/// The comma-separated rendering of an array's tail starting at one index.
pub open spec fn spec_render_from(items: Seq<NativeValue>, i: int) -> Seq<char>
    decreases items, items.len() - i,
{
    if i < 0 || i >= items.len() {
        Seq::empty()
    } else if i == items.len() - 1 {
        spec_render(items[i])
    } else {
        spec_render(items[i]) + ", "@ + spec_render_from(items, i + 1)
    }
}

/// Renders a native value as plain text.
pub fn render_value(v: &NativeValue) -> (r: String)
    ensures
        r@ == spec_render(*v),
    decreases *v, 1int,
{
    proof {
        reveal_strlit("true");
        reveal_strlit("false");
        reveal_strlit(", ");
        reveal_strlit("(");
        reveal_strlit(")");
        reveal_strlit("[");
        reveal_strlit("]");
        reveal_strlit("#");
        reveal_strlit("opaque#");
    }
    match v {
        NativeValue::Text(s) => s.clone(),
        NativeValue::Boolean(b) => {
            if *b {
                "true".to_owned()
            } else {
                "false".to_owned()
            }
        },
        NativeValue::Number(n) => idec(*n),
        NativeValue::BoxedPoint(p) => {
            let mut s = String::from_str("(");
            s.append(idec(p.x).as_str());
            s.append(", ");
            s.append(idec(p.y).as_str());
            s.append(")");
            proof {
                assert(s@ =~= spec_render(*v));
            }
            s
        },
        NativeValue::BoxedSize(z) => {
            let mut s = String::from_str("(");
            s.append(idec(z.width).as_str());
            s.append(", ");
            s.append(idec(z.height).as_str());
            s.append(")");
            proof {
                assert(s@ =~= spec_render(*v));
            }
            s
        },
        NativeValue::BoxedRect(rc) => {
            let mut s = String::from_str("(");
            s.append(idec(rc.x).as_str());
            s.append(", ");
            s.append(idec(rc.y).as_str());
            s.append(", ");
            s.append(idec(rc.width).as_str());
            s.append(", ");
            s.append(idec(rc.height).as_str());
            s.append(")");
            proof {
                assert(s@ =~= spec_render(*v));
            }
            s
        },
        NativeValue::ElementRef(id) => {
            let mut s = String::from_str("#");
            s.append(udec(*id).as_str());
            proof {
                assert(s@ =~= spec_render(*v));
            }
            s
        },
        NativeValue::Array(items) => {
            let mut s = String::from_str("[");
            s.append(render_from(items, 0).as_str());
            s.append("]");
            proof {
                assert(s@ =~= spec_render(*v));
            }
            s
        },
        NativeValue::Opaque(tag) => {
            let mut s = String::from_str("opaque#");
            s.append(udec(*tag).as_str());
            proof {
                assert(s@ =~= spec_render(*v));
            }
            s
        },
    }
}

/// Renders an array's tail starting at one index, comma separated.
fn render_from(items: &Vec<NativeValue>, i: usize) -> (r: String)
    ensures
        r@ == spec_render_from(items@, i as int),
    decreases items@, items@.len() - i,
{
    proof {
        reveal_strlit(", ");
    }
    if i >= items.len() {
        String::new()
    } else if i == items.len() - 1 {
        render_value(&items[i])
    } else {
        let mut s = render_value(&items[i]);
        s.append(", ");
        s.append(render_from(items, i + 1).as_str());
        proof {
            assert(s@ =~= spec_render_from(items@, i as int));
        }
        s
    }
}

} // verus!
