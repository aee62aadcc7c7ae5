use vstd::prelude::*;
use vstd::string::{StrSliceExecFns, StringExecFns};
use crate::rss_data::{RssData, RssDataView};

verus! {

/// The lowercase hexadecimal digit for a value below sixteen.
pub open spec fn hex_digit(n: int) -> char {
    if n == 0 {
        '0'
    } else if n == 1 {
        '1'
    } else if n == 2 {
        '2'
    } else if n == 3 {
        '3'
    } else if n == 4 {
        '4'
    } else if n == 5 {
        '5'
    } else if n == 6 {
        '6'
    } else if n == 7 {
        '7'
    } else if n == 8 {
        '8'
    } else if n == 9 {
        '9'
    } else if n == 10 {
        'a'
    } else if n == 11 {
        'b'
    } else if n == 12 {
        'c'
    } else if n == 13 {
        'd'
    } else if n == 14 {
        'e'
    } else {
        'f'
    }
}

/// How one character is written inside a JSON string: quotes and backslashes
/// get a backslash, the named control characters their short escapes, other
/// control characters a four-digit escape, and everything else stands as is.
pub open spec fn json_escaped_char(c: char) -> Seq<char> {
    if c == '"' {
        seq!['\\', '"']
    } else if c == '\\' {
        seq!['\\', '\\']
    } else if c == '\u{8}' {
        seq!['\\', 'b']
    } else if c == '\t' {
        seq!['\\', 't']
    } else if c == '\n' {
        seq!['\\', 'n']
    } else if c == '\u{c}' {
        seq!['\\', 'f']
    } else if c == '\r' {
        seq!['\\', 'r']
    } else if (c as u32) < 0x20 {
        seq!['\\', 'u', '0', '0', hex_digit(c as u32 as int / 16), hex_digit(c as u32 as int % 16)]
    } else {
        seq![c]
    }
}

/// A text with every character written as JSON requires.
pub open spec fn json_escaped(s: Seq<char>) -> Seq<char>
    decreases s.len(),
{
    if s.len() == 0 {
        Seq::empty()
    } else {
        json_escaped(s.drop_last()) + json_escaped_char(s.last())
    }
}

/// A text as a quoted JSON string.
pub open spec fn json_string(s: Seq<char>) -> Seq<char> {
    seq!['"'] + json_escaped(s) + seq!['"']
}

/// An optional text as JSON: the null literal when absent.
pub open spec fn json_opt_string(s: Option<Seq<char>>) -> Seq<char> {
    match s {
        None => "null"@,
        Some(t) => json_string(t),
    }
}

/// One feed entry as a JSON object, fields in declaration order.
pub open spec fn rss_item_json(d: RssDataView) -> Seq<char> {
    "{\"title\":"@ + json_opt_string(d.title) + ",\"description\":"@ + json_opt_string(
        d.description,
    ) + ",\"link\":"@ + json_opt_string(d.link) + "}"@
}

/// The comma-separated bodies of a feed entry list.
pub open spec fn rss_items_body(items: Seq<RssDataView>) -> Seq<char>
    decreases items.len(),
{
    if items.len() == 0 {
        Seq::empty()
    } else if items.len() == 1 {
        rss_item_json(items[0])
    } else {
        rss_items_body(items.drop_last()) + seq![','] + rss_item_json(items.last())
    }
}

/// A feed entry list as a JSON array.
pub open spec fn rss_items_json(items: Seq<RssDataView>) -> Seq<char> {
    seq!['['] + rss_items_body(items) + seq![']']
}

/// Relies on String::push: appends exactly the one character.
#[verifier::external_body]
fn push_char(s: &mut String, c: char)
    ensures
        final(s)@ == old(s)@ + seq![c],
{
    s.push(c);
}

/// The lowercase hexadecimal digit for a value below sixteen.
fn hex_digit_char(n: u32) -> (r: char)
    requires
        n < 16,
    ensures
        r == hex_digit(n as int),
{
    if n == 0 {
        '0'
    } else if n == 1 {
        '1'
    } else if n == 2 {
        '2'
    } else if n == 3 {
        '3'
    } else if n == 4 {
        '4'
    } else if n == 5 {
        '5'
    } else if n == 6 {
        '6'
    } else if n == 7 {
        '7'
    } else if n == 8 {
        '8'
    } else if n == 9 {
        '9'
    } else if n == 10 {
        'a'
    } else if n == 11 {
        'b'
    } else if n == 12 {
        'c'
    } else if n == 13 {
        'd'
    } else if n == 14 {
        'e'
    } else {
        'f'
    }
}

/// Appends one character in its JSON-escaped form.
fn append_escaped_char(out: &mut String, c: char)
    ensures
        final(out)@ == old(out)@ + json_escaped_char(c),
{
    if c == '"' {
        proof {
            reveal_strlit("\\\"");
            assert("\\\""@ =~= seq!['\\', '"']);
        }
        out.append("\\\"");
    } else if c == '\\' {
        proof {
            reveal_strlit("\\\\");
            assert("\\\\"@ =~= seq!['\\', '\\']);
        }
        out.append("\\\\");
    } else if c == '\u{8}' {
        proof {
            reveal_strlit("\\b");
            assert("\\b"@ =~= seq!['\\', 'b']);
        }
        out.append("\\b");
    } else if c == '\t' {
        proof {
            reveal_strlit("\\t");
            assert("\\t"@ =~= seq!['\\', 't']);
        }
        out.append("\\t");
    } else if c == '\n' {
        proof {
            reveal_strlit("\\n");
            assert("\\n"@ =~= seq!['\\', 'n']);
        }
        out.append("\\n");
    } else if c == '\u{c}' {
        proof {
            reveal_strlit("\\f");
            assert("\\f"@ =~= seq!['\\', 'f']);
        }
        out.append("\\f");
    } else if c == '\r' {
        proof {
            reveal_strlit("\\r");
            assert("\\r"@ =~= seq!['\\', 'r']);
        }
        out.append("\\r");
    } else if (c as u32) < 0x20 {
        proof {
            reveal_strlit("\\u00");
            assert("\\u00"@ =~= seq!['\\', 'u', '0', '0']);
        }
        let n = c as u32;
        out.append("\\u00");
        push_char(out, hex_digit_char(n / 16));
        push_char(out, hex_digit_char(n % 16));
        proof {
            assert(out@ =~= old(out)@ + json_escaped_char(c));
        }
    } else {
        push_char(out, c);
    }
}

/// Appends a text as a quoted JSON string.
fn append_json_string(out: &mut String, s: &str)
    ensures
        final(out)@ == old(out)@ + json_string(s@),
{
    proof {
        reveal_strlit("\"");
    }
    out.append("\"");
    let n = s.unicode_len();
    let ghost opening = old(out)@ + "\""@;
    for i in 0..n
        invariant
            n == s@.len(),
            opening == old(out)@ + "\""@,
            out@ == opening + json_escaped(s@.take(i as int)),
    {
        let c = s.get_char(i);
        append_escaped_char(out, c);
        proof {
            assert(s@.take(i + 1).drop_last() =~= s@.take(i as int));
            assert(s@.take(i + 1).last() == s@[i as int]);
            assert(out@ =~= opening + json_escaped(s@.take(i + 1)));
        }
    }
    out.append("\"");
    proof {
        reveal_strlit("\"");
        assert(s@.take(n as int) =~= s@);
        assert("\""@ =~= seq!['"']);
        assert(out@ =~= old(out)@ + json_string(s@));
    }
}

/// Appends an optional text as JSON, writing null when it is absent.
fn append_opt_string(out: &mut String, s: &Option<String>)
    ensures
        final(out)@ == old(out)@ + json_opt_string(crate::rss_data::opt_view(*s)),
{
    match s {
        None => {
            out.append("null");
        },
        Some(t) => {
            append_json_string(out, t.as_str());
        },
    }
}

/// Appends one feed entry as a JSON object.
fn append_rss_item(out: &mut String, d: &RssData)
    ensures
        final(out)@ == old(out)@ + rss_item_json(d@),
{
    out.append("{\"title\":");
    append_opt_string(out, &d.title);
    out.append(",\"description\":");
    append_opt_string(out, &d.description);
    out.append(",\"link\":");
    append_opt_string(out, &d.link);
    out.append("}");
    proof {
        assert(out@ =~= old(out)@ + rss_item_json(d@));
    }
}

/// Writes a feed entry list as the JSON array the backend prompt embeds:
/// objects with `title`, `description` and `link` entries, absent fields as
/// null, strings escaped as JSON requires.
pub fn rss_items_to_json(items: &Vec<RssData>) -> (r: String)
    ensures
        r@ == rss_items_json(items@.map_values(|d: RssData| d@)),
{
    let ghost views = items@.map_values(|d: RssData| d@);
    proof {
        reveal_strlit("[");
        reveal_strlit("]");
        reveal_strlit(",");
        assert("["@ =~= seq!['[']);
        assert("]"@ =~= seq![']']);
        assert(","@ =~= seq![',']);
    }
    let mut out = String::from_str("[");
    for i in 0..items.len()
        invariant
            views == items@.map_values(|d: RssData| d@),
            out@ == seq!['['] + rss_items_body(views.take(i as int)),
    {
        if i > 0 {
            out.append(",");
        }
        append_rss_item(&mut out, &items[i]);
        proof {
            if i == 0 {
                assert(views.take(1).len() == 1);
                assert(views.take(1)[0] == views[0]);
                assert(rss_items_body(views.take(1)) == rss_item_json(views.take(1)[0]));
                assert(out@ =~= seq!['['] + rss_items_body(views.take(i + 1)));
            } else {
                reveal_strlit(",");
                assert(","@ =~= seq![',']);
                assert(views.take(i + 1).drop_last() =~= views.take(i as int));
                assert(views.take(i + 1).last() == views[i as int]);
                assert(out@ =~= seq!['['] + rss_items_body(views.take(i + 1)));
            }
        }
    }
    out.append("]");
    proof {
        assert(views.take(views.len() as int) =~= views);
        assert(out@ =~= rss_items_json(views));
    }
    out
}

} // verus!
