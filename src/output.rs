//! The lines that the `get-all` and `list` commands print.

use vstd::prelude::*;

verus! {

/// How `list` writes one character of a value: backslash, quote, newline and
/// carriage return become two-character escapes.
pub open spec fn escape_char(c: char) -> Seq<char> {
    if c == '\\' {
        seq!['\\', '\\']
    } else if c == '"' {
        seq!['\\', '"']
    } else if c == '\n' {
        seq!['\\', 'n']
    } else if c == '\r' {
        seq!['\\', 'r']
    } else {
        seq![c]
    }
}

/// A value written on a single line for people to read.
pub open spec fn escaped(s: Seq<char>) -> Seq<char>
    decreases s.len(),
{
    if s.len() == 0 {
        Seq::empty()
    } else {
        escaped(s.drop_last()) + escape_char(s.last())
    }
}

/// The `get-all` line of a variable whose value is already encoded.
pub open spec fn assignment(name: Seq<char>, encoded: Seq<char>) -> Seq<char> {
    name + seq!['='] + encoded
}

/// The `list` line of a variable.
pub open spec fn listing(name: Seq<char>, value: Seq<char>) -> Seq<char> {
    name + seq!['=', '"'] + escaped(value) + seq!['"']
}

/// An escaped value holds no raw newline or carriage return: `list` prints one
/// line per variable.
pub proof fn lemma_escaped_single_line(s: Seq<char>)
    ensures
        forall|i: int| 0 <= i < escaped(s).len() ==> #[trigger] escaped(s)[i] != '\n'
            && escaped(s)[i] != '\r',
    decreases s.len(),
{
    if s.len() > 0 {
        lemma_escaped_single_line(s.drop_last());
        let a = escaped(s.drop_last());
        let b = escape_char(s.last());
        assert forall|i: int| 0 <= i < escaped(s).len() implies #[trigger] escaped(s)[i] != '\n'
            && escaped(s)[i] != '\r' by {
            if i < a.len() {
                assert(escaped(s)[i] == a[i]);
            } else {
                assert(escaped(s)[i] == b[i - a.len()]);
            }
        }
    }
}

/// Escapes backslashes, quotes, newlines and carriage returns.
pub fn escape_value(value: &str) -> (r: String)
    ensures
        r@ == escaped(value@),
{
    let n = value.unicode_len();
    let mut out = String::new();
    let mut i: usize = 0;
    while i < n
        invariant
            n == value@.len(),
            i <= n,
            out@ == escaped(value@.take(i as int)),
        decreases n - i,
    {
        let c = value.get_char(i);
        proof {
            let t = value@.take(i as int + 1);
            assert(t.drop_last() =~= value@.take(i as int));
            assert(t.last() == c);
        }
        if c == '\\' {
            out.append("\\\\");
        } else if c == '"' {
            out.append("\\\"");
        } else if c == '\n' {
            out.append("\\n");
        } else if c == '\r' {
            out.append("\\r");
        } else {
            let one = value.substring_char(i, i + 1);
            assert(one@ =~= seq![c]);
            out.append(one);
        }
        proof {
            reveal_strlit("\\\\");
            reveal_strlit("\\\"");
            reveal_strlit("\\n");
            reveal_strlit("\\r");
        }
        assert(out@ =~= escaped(value@.take(i as int + 1)));
        i = i + 1;
    }
    assert(value@.take(n as int) =~= value@);
    out
}

/// The line `name=encoded` that `get-all` prints.
pub fn assignment_line(name: &str, encoded: &str) -> (r: String)
    ensures
        r@ == assignment(name@, encoded@),
{
    let mut out = String::from_str(name);
    out.append("=");
    proof {
        reveal_strlit("=");
    }
    assert(out@ =~= name@ + seq!['=']);
    out.append(encoded);
    assert(out@ =~= assignment(name@, encoded@));
    out
}

/// The line `name="escaped value"` that `list` prints.
pub fn list_line(name: &str, value: &str) -> (r: String)
    ensures
        r@ == listing(name@, value@),
{
    let esc = escape_value(value);
    let mut out = String::from_str(name);
    out.append("=\"");
    out.append(esc.as_str());
    out.append("\"");
    proof {
        reveal_strlit("=\"");
        reveal_strlit("\"");
    }
    assert(out@ =~= listing(name@, value@));
    out
}

} // verus!
