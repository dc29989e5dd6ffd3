//! Quoting and escaping of text for the style engines.
//!
//! A string value is written wrapped in double quotes with its content
//! escaped: `"` and `\` get a backslash, the named control characters get
//! their two-character short forms, every other control character below
//! U+0020 becomes a six-character `\u00XX` sequence (lower-case hex), and all
//! other characters pass through unchanged. Escaping is invertible:
//! [`lemma_unescape_escape`] proves that decoding the escaped text gives the
//! original back, for every text.

use vstd::prelude::*;
use vstd::string::{StrSliceExecFns, StringExecFns};

verus! {

/// The lower-case hex digit for a value below 16.
pub open spec fn hex_digit_char(d: int) -> char {
    if d == 0 {
        '0'
    } else if d == 1 {
        '1'
    } else if d == 2 {
        '2'
    } else if d == 3 {
        '3'
    } else if d == 4 {
        '4'
    } else if d == 5 {
        '5'
    } else if d == 6 {
        '6'
    } else if d == 7 {
        '7'
    } else if d == 8 {
        '8'
    } else if d == 9 {
        '9'
    } else if d == 10 {
        'a'
    } else if d == 11 {
        'b'
    } else if d == 12 {
        'c'
    } else if d == 13 {
        'd'
    } else if d == 14 {
        'e'
    } else {
        'f'
    }
}

/// The value of a lower-case hex digit.
pub open spec fn hex_value(c: char) -> int {
    if c == '0' {
        0
    } else if c == '1' {
        1
    } else if c == '2' {
        2
    } else if c == '3' {
        3
    } else if c == '4' {
        4
    } else if c == '5' {
        5
    } else if c == '6' {
        6
    } else if c == '7' {
        7
    } else if c == '8' {
        8
    } else if c == '9' {
        9
    } else if c == 'a' {
        10
    } else if c == 'b' {
        11
    } else if c == 'c' {
        12
    } else if c == 'd' {
        13
    } else if c == 'e' {
        14
    } else {
        15
    }
}

/// The escaped form of one character.
pub open spec fn escape_char(c: char) -> Seq<char> {
    if c == '"' {
        seq!['\\', '"']
    } else if c == '\\' {
        seq!['\\', '\\']
    } else if c == '\n' {
        seq!['\\', 'n']
    } else if c == '\r' {
        seq!['\\', 'r']
    } else if c == '\t' {
        seq!['\\', 't']
    } else if c == '\u{08}' {
        seq!['\\', 'b']
    } else if c == '\u{0C}' {
        seq!['\\', 'f']
    } else if (c as u32) < 0x20 {
        seq!['\\', 'u', '0', '0', hex_digit_char((c as u32) as int / 16), hex_digit_char(
            (c as u32) as int % 16,
        )]
    } else {
        seq![c]
    }
}

/// The escaped form of a text: each character's escaped form, concatenated.
pub open spec fn escape_text(s: Seq<char>) -> Seq<char>
    decreases s.len(),
{
    if s.len() == 0 {
        Seq::empty()
    } else {
        escape_char(s.first()) + escape_text(s.skip(1))
    }
}

/// A text wrapped in double quotes, without escaping.
pub open spec fn quote_text(s: Seq<char>) -> Seq<char> {
    seq!['"'] + s + seq!['"']
}

/// A text escaped and wrapped in double quotes.
pub open spec fn quote_escape_text(s: Seq<char>) -> Seq<char> {
    seq!['"'] + escape_text(s) + seq!['"']
}

/// The decoding of an escaped text: a backslash starts an escape sequence
/// (the two-character short forms, or `\u00XX`), everything else stands for
/// itself. This decodes exactly the sequences that [`escape_text`] produces;
/// malformed input falls back to taking characters literally.
pub open spec fn unescape_text(t: Seq<char>) -> Seq<char>
    decreases t.len(),
{
    if t.len() == 0 {
        Seq::empty()
    } else if t.first() == '\\' && t.len() >= 6 && t[1] == 'u' && t[2] == '0' && t[3] == '0' {
        seq![((16 * hex_value(t[4]) + hex_value(t[5])) as u32) as char] + unescape_text(t.skip(6))
    } else if t.first() == '\\' && t.len() >= 2 {
        let d = t[1];
        let decoded = if d == '"' {
            '"'
        } else if d == '\\' {
            '\\'
        } else if d == 'n' {
            '\n'
        } else if d == 'r' {
            '\r'
        } else if d == 't' {
            '\t'
        } else if d == 'b' {
            '\u{08}'
        } else if d == 'f' {
            '\u{0C}'
        } else {
            d
        };
        seq![decoded] + unescape_text(t.skip(2))
    } else {
        seq![t.first()] + unescape_text(t.skip(1))
    }
}

/// Escaping distributes over concatenation.
pub proof fn lemma_escape_concat(a: Seq<char>, b: Seq<char>)
    ensures
        escape_text(a + b) == escape_text(a) + escape_text(b),
    decreases a.len(),
{
    if a.len() == 0 {
        assert(a + b =~= b);
        assert(escape_text(a) + escape_text(b) =~= escape_text(b));
    } else {
        assert((a + b).first() == a.first());
        assert((a + b).skip(1) =~= a.skip(1) + b);
        lemma_escape_concat(a.skip(1), b);
        assert(escape_text(a + b) =~= escape_text(a) + escape_text(b));
    }
}

/// One step of escaping a text from the front: taking one more character
/// appends its escaped form.
pub proof fn lemma_escape_take_step(s: Seq<char>, i: int)
    requires
        0 <= i < s.len(),
    ensures
        escape_text(s.take(i + 1)) == escape_text(s.take(i)) + escape_char(s[i]),
{
    assert(s.take(i + 1) =~= s.take(i) + seq![s[i]]);
    lemma_escape_concat(s.take(i), seq![s[i]]);
    let single = seq![s[i]];
    assert(single.first() == s[i]);
    assert(single.skip(1) =~= Seq::<char>::empty());
    assert(escape_text(single) == escape_char(s[i]) + escape_text(single.skip(1)));
    assert(escape_text(Seq::<char>::empty()) == Seq::<char>::empty());
    assert(escape_text(single) =~= escape_char(s[i]));
}

/// Decoding one escaped character followed by arbitrary escaped text yields
/// that character followed by the decoding of the rest: each escape sequence
/// is decoded unambiguously, whatever follows it.
proof fn lemma_unescape_step(c: char, rest: Seq<char>)
    ensures
        unescape_text(escape_char(c) + rest) == seq![c] + unescape_text(rest),
{
    let e = escape_char(c);
    let t = e + rest;
    if c == '"' || c == '\\' || c == '\n' || c == '\r' || c == '\t' || c == '\u{08}' || c
        == '\u{0C}' {
        assert(t.first() == '\\');
        assert(t[1] != 'u');
        assert(t.skip(2) =~= rest);
        assert(unescape_text(t) =~= seq![c] + unescape_text(rest));
    } else if (c as u32) < 0x20 {
        let code = c as u32;
        let hi = code as int / 16;
        let lo = code as int % 16;
        assert(t.first() == '\\');
        assert(t[1] == 'u' && t[2] == '0' && t[3] == '0');
        assert(t[4] == hex_digit_char(hi) && t[5] == hex_digit_char(lo));
        assert(hex_value(hex_digit_char(hi)) == hi);
        assert(hex_value(hex_digit_char(lo)) == lo);
        assert(16 * hi + lo == code);
        assert(((16 * hex_value(t[4]) + hex_value(t[5])) as u32) as char == c);
        assert(t.skip(6) =~= rest);
        assert(unescape_text(t) =~= seq![c] + unescape_text(rest));
    } else {
        assert(t.first() == c && c != '\\');
        assert(t.skip(1) =~= rest);
        assert(unescape_text(t) =~= seq![c] + unescape_text(rest));
    }
}

/// Round trip: decoding the escaped form of any text gives the text back.
pub proof fn lemma_unescape_escape(s: Seq<char>)
    ensures
        unescape_text(escape_text(s)) == s,
    decreases s.len(),
{
    if s.len() == 0 {
        assert(unescape_text(escape_text(s)) =~= s);
    } else {
        lemma_unescape_escape(s.skip(1));
        lemma_unescape_step(s.first(), escape_text(s.skip(1)));
        assert(seq![s.first()] + s.skip(1) =~= s);
    }
}

/// The lower-case hex digit for a value below 16.
fn hex_digit_str(d: u32) -> (r: &'static str)
    requires
        d < 16,
    ensures
        r@ == seq![hex_digit_char(d as int)],
{
    let r: &'static str = if d == 0 {
        proof {
            reveal_strlit("0");
        }
        "0"
    } else if d == 1 {
        proof {
            reveal_strlit("1");
        }
        "1"
    } else if d == 2 {
        proof {
            reveal_strlit("2");
        }
        "2"
    } else if d == 3 {
        proof {
            reveal_strlit("3");
        }
        "3"
    } else if d == 4 {
        proof {
            reveal_strlit("4");
        }
        "4"
    } else if d == 5 {
        proof {
            reveal_strlit("5");
        }
        "5"
    } else if d == 6 {
        proof {
            reveal_strlit("6");
        }
        "6"
    } else if d == 7 {
        proof {
            reveal_strlit("7");
        }
        "7"
    } else if d == 8 {
        proof {
            reveal_strlit("8");
        }
        "8"
    } else if d == 9 {
        proof {
            reveal_strlit("9");
        }
        "9"
    } else if d == 10 {
        proof {
            reveal_strlit("a");
        }
        "a"
    } else if d == 11 {
        proof {
            reveal_strlit("b");
        }
        "b"
    } else if d == 12 {
        proof {
            reveal_strlit("c");
        }
        "c"
    } else if d == 13 {
        proof {
            reveal_strlit("d");
        }
        "d"
    } else if d == 14 {
        proof {
            reveal_strlit("e");
        }
        "e"
    } else {
        proof {
            reveal_strlit("f");
        }
        "f"
    };
    proof {
        assert(r@ =~= seq![hex_digit_char(d as int)]);
    }
    r
}

/// Wraps a text in double quotes, without escaping its content (the form
/// used for hash keys).
pub fn make_quoted_string(value: &String) -> (r: String)
    ensures
        r@ == quote_text(value@),
{
    proof {
        reveal_strlit("\"");
    }
    let mut quoted = String::from_str("\"");
    quoted.append(value.as_str());
    quoted.append("\"");
    proof {
        assert(quoted@ =~= quote_text(value@));
    }
    quoted
}

/// Escapes a text without quoting it.
pub fn make_escaped_string(value: &String) -> (r: String)
    ensures
        r@ == escape_text(value@),
{
    let text = value.as_str();
    let n = text.unicode_len();
    let mut escaped = String::new();
    let mut i: usize = 0;
    while i < n
        invariant
            i <= n,
            n == value@.len(),
            text@ == value@,
            escaped@ == escape_text(value@.take(i as int)),
        decreases n - i,
    {
        let c = text.get_char(i);
        if c == '"' {
            escaped.append("\\\"");
            proof {
                reveal_strlit("\\\"");
                assert(("\\\"")@ =~= escape_char(c));
            }
        } else if c == '\\' {
            escaped.append("\\\\");
            proof {
                reveal_strlit("\\\\");
                assert(("\\\\")@ =~= escape_char(c));
            }
        } else if c == '\n' {
            escaped.append("\\n");
            proof {
                reveal_strlit("\\n");
                assert(("\\n")@ =~= escape_char(c));
            }
        } else if c == '\r' {
            escaped.append("\\r");
            proof {
                reveal_strlit("\\r");
                assert(("\\r")@ =~= escape_char(c));
            }
        } else if c == '\t' {
            escaped.append("\\t");
            proof {
                reveal_strlit("\\t");
                assert(("\\t")@ =~= escape_char(c));
            }
        } else if c == '\u{08}' {
            escaped.append("\\b");
            proof {
                reveal_strlit("\\b");
                assert(("\\b")@ =~= escape_char(c));
            }
        } else if c == '\u{0C}' {
            escaped.append("\\f");
            proof {
                reveal_strlit("\\f");
                assert(("\\f")@ =~= escape_char(c));
            }
        } else if (c as u32) < 0x20 {
            let code = c as u32;
            escaped.append("\\u00");
            escaped.append(hex_digit_str(code / 16));
            escaped.append(hex_digit_str(code % 16));
            proof {
                reveal_strlit("\\u00");
                assert(("\\u00")@ + seq![hex_digit_char(code as int / 16)] + seq![
                    hex_digit_char(code as int % 16),
                ] =~= escape_char(c));
            }
        } else {
            let piece = text.substring_char(i, i + 1);
            escaped.append(piece);
            proof {
                assert(piece@ =~= seq![c]);
                assert(piece@ =~= escape_char(c));
            }
        }
        proof {
            lemma_escape_take_step(value@, i as int);
            assert(escaped@ =~= escape_text(value@.take(i + 1)));
        }
        i += 1;
    }
    proof {
        assert(value@.take(n as int) =~= value@);
    }
    escaped
}

/// Escapes a text and wraps it in double quotes (the form used for string
/// values).
pub fn make_quoted_escaped_string(value: &String) -> (r: String)
    ensures
        r@ == quote_escape_text(value@),
{
    proof {
        reveal_strlit("\"");
    }
    let mut out = String::from_str("\"");
    let escaped = make_escaped_string(value);
    out.append(escaped.as_str());
    out.append("\"");
    proof {
        assert(out@ =~= quote_escape_text(value@));
    }
    out
}

} // verus!
