//! Just enough JSON text production for the wire bodies: string escaping,
//! quoting, booleans, string lists, and comma-joining of optional object
//! fields. Every emitted body is pinned character for character.
use vstd::prelude::*;
use vstd::string::StrSliceExecFns;
use vstd::string::StringExecFns;

use crate::text::dchar;
use crate::text::digit_str;

verus! {

/// The lowercase hex digit character for a value in 0..16.
pub open spec fn hexchar(d: int) -> char {
    if d < 10 {
        dchar(d)
    } else if d == 10 {
        'a'
    } else if d == 11 {
        'b'
    } else if d == 12 {
        'c'
    } else if d == 13 {
        'd'
    } else if d == 14 {
        'e'
    } else {
        'f'
    }
}

/// How one character appears inside a JSON string literal.
pub open spec fn esc_char(c: char) -> Seq<char> {
    if c == '"' {
        seq!['\\', '"']
    } else if c == '\\' {
        seq!['\\', '\\']
    } else if c == '\n' {
        seq!['\\', 'n']
    } else if c == '\r' {
        seq!['\\', 'r']
    } else if c == '\t' {
        seq!['\\', 't']
    } else if (c as int) < 32 {
        let hi = hexchar(c as int / 16);
        let lo = hexchar(c as int % 16);
        seq!['\\', 'u', '0', '0', hi, lo]
    } else {
        seq![c]
    }
}

/// The body of a JSON string literal for the given text.
pub open spec fn json_escape_spec(s: Seq<char>) -> Seq<char>
    decreases s.len(),
{
    if s.len() == 0 {
        Seq::empty()
    } else {
        esc_char(s[0]) + json_escape_spec(s.subrange(1, s.len() as int))
    }
}

/// A complete JSON string literal, quotes included.
pub open spec fn quoted(s: Seq<char>) -> Seq<char> {
    seq!['"'] + json_escape_spec(s) + seq!['"']
}

/// The JSON boolean literals.
pub open spec fn bool_text(b: bool) -> Seq<char> {
    if b {
        "true"@
    } else {
        "false"@
    }
}

/// Escaping distributes over appending one character at the end.
proof fn lemma_escape_snoc(s: Seq<char>, c: char)
    ensures
        json_escape_spec(s.push(c)) == json_escape_spec(s) + esc_char(c),
    decreases s.len(),
{
    let t = s.push(c);
    assert(t[s.len() as int] == c);
    if s.len() == 0 {
        assert(t.len() == 1);
        assert(t[0] == c);
        assert(t.subrange(1, t.len() as int) =~= Seq::<char>::empty());
        assert(json_escape_spec(Seq::<char>::empty()) == Seq::<char>::empty());
        assert(json_escape_spec(t) == esc_char(c) + json_escape_spec(t.subrange(1, t.len() as int)));
        assert(json_escape_spec(t) =~= json_escape_spec(s) + esc_char(c));
    } else {
        assert(t[0] == s[0]);
        assert(t.subrange(1, t.len() as int) =~= s.subrange(1, s.len() as int).push(c));
        lemma_escape_snoc(s.subrange(1, s.len() as int), c);
        assert(json_escape_spec(t) =~= json_escape_spec(s) + esc_char(c));
    }
}

/// The lowercase hex digit string for a value in 0..16.
fn hex_digit_str(d: u32) -> (r: &'static str)
    requires
        d < 16,
    ensures
        r@ == seq![hexchar(d as int)],
{
    if d < 10 {
        digit_str(d as u16)
    } else {
        let r: &'static str = match d {
            10 => "a",
            11 => "b",
            12 => "c",
            13 => "d",
            14 => "e",
            _ => "f",
        };
        proof {
            reveal_strlit("a");
            reveal_strlit("b");
            reveal_strlit("c");
            reveal_strlit("d");
            reveal_strlit("e");
            reveal_strlit("f");
            assert(r@ =~= seq![hexchar(d as int)]);
        }
        r
    }
}

/// Appends the escaped form of a text, as it appears between the quotes of a
/// JSON string literal.
pub fn append_escaped(out: &mut String, s: &str)
    ensures
        final(out)@ == old(out)@ + json_escape_spec(s@),
{
    let n = s.unicode_len();
    let mut i: usize = 0;
    while i < n
        invariant
            i <= n,
            n == s@.len(),
            out@ == old(out)@ + json_escape_spec(s@.subrange(0, i as int)),
        decreases n - i,
    {
        let c = s.get_char(i);
        let u = c as u32;
        if c == '"' {
            out.append("\\\"");
            proof {
                reveal_strlit("\\\"");
                assert("\\\""@ =~= esc_char(s@[i as int]));
            }
        } else if c == '\\' {
            out.append("\\\\");
            proof {
                reveal_strlit("\\\\");
                assert("\\\\"@ =~= esc_char(s@[i as int]));
            }
        } else if u == 10 {
            out.append("\\n");
            proof {
                reveal_strlit("\\n");
                assert("\\n"@ =~= esc_char(s@[i as int]));
            }
        } else if u == 13 {
            out.append("\\r");
            proof {
                reveal_strlit("\\r");
                assert("\\r"@ =~= esc_char(s@[i as int]));
            }
        } else if u == 9 {
            out.append("\\t");
            proof {
                reveal_strlit("\\t");
                assert("\\t"@ =~= esc_char(s@[i as int]));
            }
        } else if u < 32 {
            let ghost before = out@;
            out.append("\\u00");
            out.append(hex_digit_str(u / 16));
            out.append(hex_digit_str(u % 16));
            proof {
                reveal_strlit("\\u00");
                assert(out@ =~= before + esc_char(s@[i as int]));
            }
        } else {
            let piece = s.substring_char(i, i + 1);
            out.append(piece);
            proof {
                assert(piece@ =~= esc_char(s@[i as int]));
            }
        }
        proof {
            assert(s@.subrange(0, i as int).push(s@[i as int]) =~= s@.subrange(0, i as int + 1));
            lemma_escape_snoc(s@.subrange(0, i as int), s@[i as int]);
            assert(out@ =~= old(out)@ + json_escape_spec(s@.subrange(0, i as int + 1)));
        }
        i += 1;
    }
    proof {
        assert(s@.subrange(0, n as int) =~= s@);
    }
}

/// Appends a complete JSON string literal for the given text.
pub fn append_quoted(out: &mut String, s: &str)
    ensures
        final(out)@ == old(out)@ + quoted(s@),
{
    out.append("\"");
    append_escaped(out, s);
    out.append("\"");
    proof {
        reveal_strlit("\"");
        assert(out@ =~= old(out)@ + quoted(s@));
    }
}

/// Appends a JSON boolean literal.
pub fn append_bool(out: &mut String, b: bool)
    ensures
        final(out)@ == old(out)@ + bool_text(b),
{
    if b {
        out.append("true");
    } else {
        out.append("false");
    }
}

/// The first i elements of a string list as comma-separated JSON string
/// literals.
pub open spec fn list_prefix_spec(v: Seq<String>, i: int) -> Seq<char>
    decreases i,
{
    if i <= 0 {
        Seq::empty()
    } else if i == 1 {
        quoted(v[0]@)
    } else {
        list_prefix_spec(v, i - 1) + seq![','] + quoted(v[i - 1]@)
    }
}

/// A JSON array of string literals.
pub open spec fn string_list_spec(v: Seq<String>) -> Seq<char> {
    seq!['['] + list_prefix_spec(v, v.len() as int) + seq![']']
}

/// Appends a JSON array holding each string of the list, in order.
pub fn append_string_list(out: &mut String, v: &Vec<String>)
    ensures
        final(out)@ == old(out)@ + string_list_spec(v@),
{
    out.append("[");
    proof {
        reveal_strlit("[");
        reveal_strlit("]");
    }
    let ghost opened = out@;
    let mut i: usize = 0;
    while i < v.len()
        invariant
            i <= v@.len(),
            out@ == opened + list_prefix_spec(v@, i as int),
            opened == old(out)@ + seq!['['],
        decreases v@.len() - i,
    {
        if i > 0 {
            out.append(",");
            proof {
                reveal_strlit(",");
            }
        }
        append_quoted(out, v[i].as_str());
        proof {
            assert(out@ =~= opened + list_prefix_spec(v@, i as int + 1));
        }
        i += 1;
    }
    out.append("]");
    proof {
        assert(out@ =~= old(out)@ + string_list_spec(v@));
    }
}

/// Joins one more object-member fragment onto the members so far: an empty
/// fragment stands for an omitted member and contributes nothing, not even
/// a comma.
pub open spec fn join_member(prev: Seq<char>, frag: Seq<char>) -> Seq<char> {
    if frag.len() == 0 {
        prev
    } else if prev.len() == 0 {
        frag
    } else {
        prev + ","@ + frag
    }
}

} // verus!
