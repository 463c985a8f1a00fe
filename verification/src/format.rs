//! The row formatter: turns one event's field list into the short,
//! comma-joined label a table row shows, and the complete, one-per-line
//! hover text.
//!
//! The short label starts with the `message` field's value (empty when
//! absent) and appends every other field as `, name: value`, skipping
//! internal-metadata fields, whose name starts with `log.`.  The
//! complete text renders the same fields one per line as `\n name:
//! value`, then a blank-line separator, then the metadata fields one
//! per line.

use vstd::prelude::*;
use vstd::string::StrSliceExecFns;
use vstd::string::StringExecFns;

use crate::event::{spec_lookup, CollectedEvent};

verus! {

/// Whether this field name is the message field's.
pub open spec fn is_message(name: Seq<char>) -> bool {
    name == "message"@
}

/// Whether this field is internal metadata: its name starts with the
/// reserved prefix `log.`.
pub open spec fn is_metadata(name: Seq<char>) -> bool {
    "log."@.is_prefix_of(name)
}

/// `sep`, then the field rendered as `name: value`.
pub open spec fn rendered(sep: Seq<char>, field: (Seq<char>, Seq<char>)) -> Seq<char> {
    sep + field.0 + ": "@ + field.1
}

/// What one field adds to the short label: `, name: value`, or nothing
/// for the message field and for metadata fields.
pub open spec fn short_part(field: (Seq<char>, Seq<char>)) -> Seq<char> {
    if is_message(field.0) || is_metadata(field.0) {
        Seq::empty()
    } else {
        rendered(", "@, field)
    }
}

/// What one field adds to the complete text's main section: `\n name:
/// value`, or nothing for the message field and for metadata fields.
pub open spec fn main_part(field: (Seq<char>, Seq<char>)) -> Seq<char> {
    if is_message(field.0) || is_metadata(field.0) {
        Seq::empty()
    } else {
        rendered("\n "@, field)
    }
}

/// What one field adds to the complete text's trailing metadata
/// section: `\n name: value` for metadata fields, nothing otherwise.
pub open spec fn meta_part(field: (Seq<char>, Seq<char>)) -> Seq<char> {
    if is_metadata(field.0) {
        rendered("\n "@, field)
    } else {
        Seq::empty()
    }
}

/// The short parts of all fields, concatenated in field order.
pub open spec fn short_rest(fields: Seq<(Seq<char>, Seq<char>)>) -> Seq<char>
    decreases fields.len(),
{
    if fields.len() == 0 {
        Seq::empty()
    } else {
        short_rest(fields.drop_last()) + short_part(fields.last())
    }
}

/// The main-section parts of all fields, concatenated in field order.
pub open spec fn main_rest(fields: Seq<(Seq<char>, Seq<char>)>) -> Seq<char>
    decreases fields.len(),
{
    if fields.len() == 0 {
        Seq::empty()
    } else {
        main_rest(fields.drop_last()) + main_part(fields.last())
    }
}

/// The metadata-section parts of all fields, concatenated in field
/// order.
pub open spec fn meta_rest(fields: Seq<(Seq<char>, Seq<char>)>) -> Seq<char>
    decreases fields.len(),
{
    if fields.len() == 0 {
        Seq::empty()
    } else {
        meta_rest(fields.drop_last()) + meta_part(fields.last())
    }
}

/// The short, single-line label of an event with these fields.
pub open spec fn spec_short(fields: Seq<(Seq<char>, Seq<char>)>) -> Seq<char> {
    spec_lookup(fields, "message"@) + short_rest(fields)
}

/// The complete, multi-line text of an event with these fields.
pub open spec fn spec_complete(fields: Seq<(Seq<char>, Seq<char>)>) -> Seq<char> {
    spec_lookup(fields, "message"@) + main_rest(fields) + "\n\n"@ + meta_rest(fields)
}

/// The value of the first field named `message`, or the empty string.
fn lookup_message(fields: &Vec<(String, String)>) -> (r: String)
    ensures
        r@ == spec_lookup(
            fields@.map_values(|f: (String, String)| (f.0@, f.1@)),
            "message"@,
        ),
{
    let ghost fvs = fields@.map_values(|f: (String, String)| (f.0@, f.1@));
    let needle = String::from_str("message");
    let mut i: usize = 0;
    proof {
        assert(fvs.skip(0) =~= fvs);
    }
    while i < fields.len()
        invariant
            i <= fields.len(),
            needle@ == "message"@,
            fvs == fields@.map_values(|f: (String, String)| (f.0@, f.1@)),
            spec_lookup(fvs, "message"@) == spec_lookup(fvs.skip(i as int), "message"@),
        decreases fields.len() - i,
    {
        proof {
            assert(fvs.skip(i as int).len() > 0);
            assert(fvs.skip(i as int)[0] == fvs[i as int]);
            assert(fvs.skip(i as int).drop_first() =~= fvs.skip(i + 1));
        }
        if fields[i].0 == needle {
            return fields[i].1.clone();
        }
        i = i + 1;
    }
    proof {
        assert(fvs.skip(fields@.len() as int).len() == 0);
    }
    String::new()
}

/// Whether the name starts with the reserved metadata prefix `log.`.
fn is_meta_name(name: &String) -> (r: bool)
    ensures
        r == is_metadata(name@),
{
    proof {
        reveal_strlit("log.");
    }
    let n = name.as_str();
    if n.unicode_len() < 4 {
        return false;
    }
    let r = n.get_char(0) == 'l' && n.get_char(1) == 'o' && n.get_char(2) == 'g' && n.get_char(3)
        == '.';
    proof {
        if r {
            assert("log."@ =~= name@.subrange(0, 4));
        } else {
            if "log."@.is_prefix_of(name@) {
                assert(name@.subrange(0, 4)[0] == name@[0]);
                assert(name@.subrange(0, 4)[1] == name@[1]);
                assert(name@.subrange(0, 4)[2] == name@[2]);
                assert(name@.subrange(0, 4)[3] == name@[3]);
            }
        }
    }
    r
}

/// Appends `sep` and `name: value` to the string being built.
fn push_rendered(out: &mut String, sep: &str, name: &String, value: &String)
    ensures
        final(out)@ == old(out)@ + sep@ + name@ + ": "@ + value@,
{
    out.append(sep);
    out.append(name.as_str());
    out.append(": ");
    out.append(value.as_str());
}

/// The short, single-line label for this event: the message, then every
/// plain field as `, name: value`, in field order.
pub fn format_short(event: &CollectedEvent) -> (r: String)
    ensures
        r@ == spec_short(event@.fields),
{
    let ghost fvs = event@.fields;
    let needle = String::from_str("message");
    let mut out = lookup_message(&event.fields);
    let mut i: usize = 0;
    proof {
        assert(fvs.subrange(0, 0).len() == 0);
        assert(out@ =~= spec_lookup(fvs, "message"@) + short_rest(fvs.subrange(0, 0)));
    }
    while i < event.fields.len()
        invariant
            i <= event.fields.len(),
            needle@ == "message"@,
            fvs == event@.fields,
            fvs.len() == event.fields@.len(),
            out@ == spec_lookup(fvs, "message"@) + short_rest(fvs.subrange(0, i as int)),
        decreases event.fields.len() - i,
    {
        proof {
            assert(fvs.subrange(0, (i + 1) as int).drop_last() =~= fvs.subrange(0, i as int));
            assert(fvs.subrange(0, (i + 1) as int).last() == fvs[i as int]);
            assert(fvs[i as int] == (event.fields@[i as int].0@, event.fields@[i as int].1@));
        }
        let is_msg = event.fields[i].0 == needle;
        let name = &event.fields[i].0;
        let skip = is_msg || is_meta_name(name);
        if !skip {
            push_rendered(&mut out, ", ", name, &event.fields[i].1);
        }
        proof {
            assert(out@ =~= spec_lookup(fvs, "message"@) + short_rest(
                fvs.subrange(0, (i + 1) as int),
            ));
        }
        i = i + 1;
    }
    proof {
        assert(fvs.subrange(0, fvs.len() as int) =~= fvs);
    }
    out
}

/// The complete, multi-line hover text for this event: the message,
/// every plain field as `\n name: value`, a blank-line separator, then
/// every metadata field as `\n name: value`, each section in field
/// order.
pub fn format_complete(event: &CollectedEvent) -> (r: String)
    ensures
        r@ == spec_complete(event@.fields),
{
    let ghost fvs = event@.fields;
    let needle = String::from_str("message");
    let mut out = lookup_message(&event.fields);
    let mut i: usize = 0;
    proof {
        assert(fvs.subrange(0, 0).len() == 0);
        assert(out@ =~= spec_lookup(fvs, "message"@) + main_rest(fvs.subrange(0, 0)));
    }
    while i < event.fields.len()
        invariant
            i <= event.fields.len(),
            needle@ == "message"@,
            fvs == event@.fields,
            fvs.len() == event.fields@.len(),
            out@ == spec_lookup(fvs, "message"@) + main_rest(fvs.subrange(0, i as int)),
        decreases event.fields.len() - i,
    {
        proof {
            assert(fvs.subrange(0, (i + 1) as int).drop_last() =~= fvs.subrange(0, i as int));
            assert(fvs.subrange(0, (i + 1) as int).last() == fvs[i as int]);
            assert(fvs[i as int] == (event.fields@[i as int].0@, event.fields@[i as int].1@));
        }
        let is_msg = event.fields[i].0 == needle;
        let name = &event.fields[i].0;
        let skip = is_msg || is_meta_name(name);
        if !skip {
            push_rendered(&mut out, "\n ", name, &event.fields[i].1);
        }
        proof {
            assert(out@ =~= spec_lookup(fvs, "message"@) + main_rest(
                fvs.subrange(0, (i + 1) as int),
            ));
        }
        i = i + 1;
    }
    out.append("\n\n");
    let ghost head = spec_lookup(fvs, "message"@) + main_rest(fvs) + "\n\n"@;
    proof {
        assert(fvs.subrange(0, fvs.len() as int) =~= fvs);
        assert(fvs.subrange(0, 0).len() == 0);
        assert(out@ =~= head + meta_rest(fvs.subrange(0, 0)));
    }
    let mut j: usize = 0;
    while j < event.fields.len()
        invariant
            j <= event.fields.len(),
            fvs == event@.fields,
            fvs.len() == event.fields@.len(),
            head == spec_lookup(fvs, "message"@) + main_rest(fvs) + "\n\n"@,
            out@ == head + meta_rest(fvs.subrange(0, j as int)),
        decreases event.fields.len() - j,
    {
        proof {
            assert(fvs.subrange(0, (j + 1) as int).drop_last() =~= fvs.subrange(0, j as int));
            assert(fvs.subrange(0, (j + 1) as int).last() == fvs[j as int]);
            assert(fvs[j as int] == (event.fields@[j as int].0@, event.fields@[j as int].1@));
        }
        let name = &event.fields[j].0;
        if is_meta_name(name) {
            push_rendered(&mut out, "\n ", name, &event.fields[j].1);
        }
        proof {
            assert(out@ =~= head + meta_rest(fvs.subrange(0, (j + 1) as int)));
        }
        j = j + 1;
    }
    proof {
        assert(fvs.subrange(0, fvs.len() as int) =~= fvs);
        assert(out@ =~= spec_complete(fvs));
    }
    out
}

} // verus!
