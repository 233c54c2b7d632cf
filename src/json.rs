//! The JSON text of a module, which the page template reads.
use vstd::prelude::*;

use crate::record::{fields_view, Field, FieldView, Module, ModuleView};
use crate::text::push_char;

verus! {

/// The lower-case hexadecimal digits.
pub open spec fn hex_digits() -> Seq<char> {
    seq!['0', '1', '2', '3', '4', '5', '6', '7', '8', '9', 'a', 'b', 'c', 'd', 'e', 'f']
}

/// How `c` stands inside a JSON string literal.
pub open spec fn escape_char(c: char) -> Seq<char> {
    if c == '"' {
        seq!['\\', '"']
    } else if c == '\\' {
        seq!['\\', '\\']
    } else if c == '\n' {
        seq!['\\', 'n']
    } else if c == '\r' {
        seq!['\\', 'r']
    } else if c == '\t' {
        seq!['\\', 't']
    } else if (c as u32) < 0x20 {
        seq!['\\', 'u', '0', '0', hex_digits()[(c as u32) as int / 16], hex_digits()[(c as u32) as int % 16]]
    } else {
        seq![c]
    }
}

/// The characters of `s`, each as it stands inside a JSON string literal.
pub open spec fn escaped(s: Seq<char>) -> Seq<char>
    decreases s.len(),
{
    if s.len() == 0 {
        Seq::empty()
    } else {
        escaped(s.drop_last()) + escape_char(s.last())
    }
}

/// The JSON string literal of `s`.
pub open spec fn json_string(s: Seq<char>) -> Seq<char> {
    seq!['"'] + escaped(s) + seq!['"']
}

/// The JSON object of a field.
pub open spec fn json_field(f: FieldView) -> Seq<char> {
    "{\"name\":"@ + json_string(f.name) + ",\"type\":"@ + json_string(f.typ) + ",\"comment\":"@
        + json_string(f.comment) + "}"@
}

/// The JSON objects of `fs`, separated by commas.
pub open spec fn json_items(fs: Seq<FieldView>) -> Seq<char>
    decreases fs.len(),
{
    if fs.len() == 0 {
        Seq::empty()
    } else if fs.len() == 1 {
        json_field(fs[0])
    } else {
        json_items(fs.drop_last()) + ","@ + json_field(fs.last())
    }
}

/// The JSON array of `fs`.
pub open spec fn json_list(fs: Seq<FieldView>) -> Seq<char> {
    "["@ + json_items(fs) + "]"@
}

/// The JSON object of a module: its name, and its record with the lists
/// `types` and `values`.
pub open spec fn json_module(m: ModuleView) -> Seq<char> {
    "{\"name\":"@ + json_string(m.name) + ",\"record\":{\"types\":"@ + json_list(m.record.types)
        + ",\"values\":"@ + json_list(m.record.values) + "}}"@
}

fn hex_digit(n: u32) -> (r: char)
    requires
        n < 16,
    ensures
        r == hex_digits()[n as int],
{
    let digits: Vec<char> = vec!['0', '1', '2', '3', '4', '5', '6', '7', '8', '9', 'a', 'b', 'c', 'd', 'e', 'f'];
    proof {
        assert(digits@ =~= hex_digits());
    }
    digits[n as usize]
}

fn push_escaped_char(out: &mut String, c: char)
    ensures
        final(out)@ == old(out)@ + escape_char(c),
{
    let ghost start = out@;
    if c == '"' {
        push_char(out, '\\');
        push_char(out, '"');
    } else if c == '\\' {
        push_char(out, '\\');
        push_char(out, '\\');
    } else if c == '\n' {
        push_char(out, '\\');
        push_char(out, 'n');
    } else if c == '\r' {
        push_char(out, '\\');
        push_char(out, 'r');
    } else if c == '\t' {
        push_char(out, '\\');
        push_char(out, 't');
    } else if (c as u32) < 0x20 {
        push_char(out, '\\');
        push_char(out, 'u');
        push_char(out, '0');
        push_char(out, '0');
        push_char(out, hex_digit((c as u32) / 16));
        push_char(out, hex_digit((c as u32) % 16));
    } else {
        push_char(out, c);
    }
    assert(out@ =~= start + escape_char(c));
}

/// Appends the JSON string literal of `s` to `out`.
fn push_json_string(out: &mut String, s: &str)
    ensures
        final(out)@ == old(out)@ + json_string(s@),
{
    let ghost start = out@;
    push_char(out, '"');
    let n = s.unicode_len();
    let mut i: usize = 0;
    proof {
        assert(s@.subrange(0, 0) =~= Seq::<char>::empty());
        assert(out@ =~= start + seq!['"'] + escaped(s@.subrange(0, 0)));
    }
    while i < n
        invariant
            n == s@.len(),
            i <= n,
            out@ == start + seq!['"'] + escaped(s@.subrange(0, i as int)),
        decreases n - i,
    {
        let c = s.get_char(i);
        push_escaped_char(out, c);
        proof {
            let next = s@.subrange(0, i + 1);
            assert(next.drop_last() =~= s@.subrange(0, i as int));
            assert(out@ =~= start + seq!['"'] + escaped(next));
        }
        i = i + 1;
    }
    push_char(out, '"');
    proof {
        assert(s@.subrange(0, n as int) =~= s@);
        assert(out@ =~= start + json_string(s@));
    }
}

fn push_json_field(out: &mut String, f: &Field)
    ensures
        final(out)@ == old(out)@ + json_field(f@),
{
    let ghost start = out@;
    out.append("{\"name\":");
    push_json_string(out, f.name.as_str());
    out.append(",\"type\":");
    push_json_string(out, f.typ.as_str());
    out.append(",\"comment\":");
    push_json_string(out, f.comment.as_str());
    out.append("}");
    assert(out@ =~= start + json_field(f@));
}

fn push_json_list(out: &mut String, fields: &Vec<Field>)
    ensures
        final(out)@ == old(out)@ + json_list(fields_view(fields@)),
{
    let ghost start = out@;
    let ghost fs = fields_view(fields@);
    out.append("[");
    let n = fields.len();
    let mut i: usize = 0;
    proof {
        assert(fs.subrange(0, 0) =~= Seq::<FieldView>::empty());
        assert(out@ =~= start + "["@ + json_items(fs.subrange(0, 0)));
    }
    while i < n
        invariant
            n == fields@.len(),
            fs == fields_view(fields@),
            i <= n,
            out@ == start + "["@ + json_items(fs.subrange(0, i as int)),
        decreases n - i,
    {
        let ghost before = out@;
        if i > 0 {
            out.append(",");
        }
        push_json_field(out, &fields[i]);
        proof {
            let next = fs.subrange(0, i + 1);
            assert(next.drop_last() =~= fs.subrange(0, i as int));
            assert(fs[i as int] == fields@[i as int]@);
            assert(next.last() == fs[i as int]);
            if i == 0 {
                assert(next.len() == 1);
                assert(next[0] == fs[0]);
            }
            assert(out@ =~= start + "["@ + json_items(next));
        }
        i = i + 1;
    }
    out.append("]");
    proof {
        assert(fs.subrange(0, n as int) =~= fs);
        assert(out@ =~= start + json_list(fs));
    }
}

/// The JSON text of `m` that the page template is filled from.
pub fn module_json(m: &Module) -> (r: String)
    ensures
        r@ == json_module(m@),
{
    let mut out = String::new();
    out.append("{\"name\":");
    push_json_string(&mut out, m.name.as_str());
    out.append(",\"record\":{\"types\":");
    push_json_list(&mut out, &m.record.types);
    out.append(",\"values\":");
    push_json_list(&mut out, &m.record.values);
    out.append("}}");
    assert(out@ =~= json_module(m@));
    out
}

} // verus!
