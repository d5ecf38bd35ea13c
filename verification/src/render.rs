//! Plain-text rendering of a station result.
//!
//! The response is the station's name, a newline, and the names of its lines
//! joined with `", "`.  Which name is used — and that a missing localized
//! name becomes the empty string — is decided by the [`Locale`].

use vstd::prelude::*;
use crate::station::{Line, Locale, Station};

verus! {

/// The label one line contributes: its localized name (empty when it has
/// none) under localized rendering, its short name otherwise.
pub open spec fn spec_line_label(l: Line, loc: Locale) -> Seq<char> {
    match loc {
        Locale::Localized => match l.name_roman {
            Option::Some(s) => s@,
            Option::None => Seq::empty(),
        },
        Locale::Default => l.name_short@,
    }
}

/// The line labels in order, joined with `", "`.
pub open spec fn spec_joined_labels(lines: Seq<Line>, loc: Locale) -> Seq<char>
    decreases lines.len(),
{
    if lines.len() == 0 {
        Seq::empty()
    } else if lines.len() == 1 {
        spec_line_label(lines[0], loc)
    } else {
        spec_joined_labels(lines.drop_last(), loc) + ", "@ + spec_line_label(lines.last(), loc)
    }
}

/// The name the response leads with: the station's localized name (empty
/// when absent) under localized rendering, its default name otherwise.
pub open spec fn spec_station_label(st: Station, loc: Locale) -> Seq<char> {
    match loc {
        Locale::Localized => match st.name_roman {
            Option::Some(s) => s@,
            Option::None => Seq::empty(),
        },
        Locale::Default => st.name@,
    }
}

/// The full response text for one station.
pub open spec fn spec_rendered(st: Station, loc: Locale) -> Seq<char> {
    spec_station_label(st, loc) + "\n"@ + spec_joined_labels(st.lines@, loc)
}

/// Append one line's label to the text being built.
fn append_line_label(out: &mut String, l: &Line, loc: Locale)
    ensures
        final(out)@ == old(out)@ + spec_line_label(*l, loc),
{
    match loc {
        Locale::Localized => match &l.name_roman {
            Option::Some(s) => out.append(s.as_str()),
            Option::None => {
                proof {
                    assert(out@ =~= out@ + Seq::<char>::empty());
                }
            },
        },
        Locale::Default => out.append(l.name_short.as_str()),
    }
}

/// Join the labels of all lines with `", "`.
pub fn join_line_labels(lines: &Vec<Line>, loc: Locale) -> (r: String)
    ensures
        r@ == spec_joined_labels(lines@, loc),
{
    let mut out = String::new();
    let mut i: usize = 0;
    while i < lines.len()
        invariant
            i <= lines@.len(),
            out@ == spec_joined_labels(lines@.take(i as int), loc),
        decreases lines@.len() - i,
    {
        if i > 0 {
            out.append(", ");
        }
        append_line_label(&mut out, &lines[i], loc);
        proof {
            assert(lines@.take(i + 1).drop_last() =~= lines@.take(i as int));
            assert(lines@.take(i + 1).last() == lines@[i as int]);
            if i == 0 {
                assert(out@ =~= spec_line_label(lines@[0], loc));
                assert(lines@.take(1)[0] == lines@[0]);
            }
        }
        i += 1;
    }
    proof {
        assert(lines@.take(lines@.len() as int) =~= lines@);
    }
    out
}

/// Render the full response text for one station.
pub fn render_station(st: &Station, loc: Locale) -> (r: String)
    ensures
        r@ == spec_rendered(*st, loc),
{
    let mut out = String::new();
    match loc {
        Locale::Localized => match &st.name_roman {
            Option::Some(s) => out.append(s.as_str()),
            Option::None => {
                proof {
                    assert(out@ =~= out@ + Seq::<char>::empty());
                }
            },
        },
        Locale::Default => out.append(st.name.as_str()),
    }
    proof {
        assert(out@ =~= Seq::<char>::empty() + spec_station_label(*st, loc));
        assert(out@ =~= spec_station_label(*st, loc));
    }
    out.append("\n");
    let joined = join_line_labels(&st.lines, loc);
    out.append(joined.as_str());
    out
}

} // verus!
