//! Rendering decoded tag sequences and diagnostics as text lines.

use vstd::prelude::*;
use vstd::string::StringExecFns;
use crate::tags::{decoded, view_masks, decode_tags, split_view_tags};

verus! {

/// The character of a single decimal digit.
pub open spec fn digit_char(d: nat) -> char {
    if d == 0 {
        '0'
    } else if d == 1 {
        '1'
    } else if d == 2 {
        '2'
    } else if d == 3 {
        '3'
    } else if d == 4 {
        '4'
    } else if d == 5 {
        '5'
    } else if d == 6 {
        '6'
    } else if d == 7 {
        '7'
    } else if d == 8 {
        '8'
    } else {
        '9'
    }
}

/// The decimal digits of `n`, most significant first.
pub open spec fn dec_digits(n: nat) -> Seq<char>
    decreases n,
{
    if n < 10 {
        seq![digit_char(n)]
    } else {
        dec_digits(n / 10) + seq![digit_char(n % 10)]
    }
}

/// Text of a decoded tag sequence: each tag number in decimal, each followed
/// by one space.
pub open spec fn tags_text(s: Seq<u32>) -> Seq<char>
    decreases s.len(),
{
    if s.len() == 0 {
        Seq::empty()
    } else {
        dec_digits(s[0] as nat) + seq![' '] + tags_text(s.drop_first())
    }
}

/// Text of a per-view payload: the tag text of each packed bitmask, decoded
/// independently, all groups on one line.
pub open spec fn view_tags_text(masks: Seq<u32>) -> Seq<char>
    decreases masks.len(),
{
    if masks.len() == 0 {
        Seq::empty()
    } else {
        tags_text(decoded(masks[0])) + view_tags_text(masks.drop_first())
    }
}

fn digit_str(d: u32) -> (s: &'static str)
    requires
        d < 10,
    ensures
        s@ == seq![digit_char(d as nat)],
{
    proof {
        reveal_strlit("0");
        reveal_strlit("1");
        reveal_strlit("2");
        reveal_strlit("3");
        reveal_strlit("4");
        reveal_strlit("5");
        reveal_strlit("6");
        reveal_strlit("7");
        reveal_strlit("8");
        reveal_strlit("9");
    }
    if d == 0 {
        "0"
    } else if d == 1 {
        "1"
    } else if d == 2 {
        "2"
    } else if d == 3 {
        "3"
    } else if d == 4 {
        "4"
    } else if d == 5 {
        "5"
    } else if d == 6 {
        "6"
    } else if d == 7 {
        "7"
    } else if d == 8 {
        "8"
    } else {
        "9"
    }
}

/// Appends the decimal digits of `n` to `out`.
pub fn push_decimal(n: u32, out: &mut String)
    ensures
        final(out)@ == old(out)@ + dec_digits(n as nat),
    decreases n,
{
    if n >= 10 {
        push_decimal(n / 10, out);
    }
    let d: u32 = n % 10;
    out.append(digit_str(d));
    proof {
        if n >= 10 {
            assert(old(out)@ + dec_digits((n / 10) as nat) + seq![digit_char((n % 10) as nat)]
                =~= old(out)@ + dec_digits(n as nat));
        } else {
            assert(old(out)@ + seq![digit_char(n as nat)] =~= old(out)@ + dec_digits(n as nat));
        }
    }
}

/// Appends the text of a decoded tag sequence to `out`: each tag in decimal
/// with a trailing space.
pub fn push_tags_text(tags: &Vec<u32>, out: &mut String)
    ensures
        final(out)@ == old(out)@ + tags_text(tags@),
{
    let mut i: usize = 0;
    proof {
        assert(tags@.skip(0) =~= tags@);
    }
    while i < tags.len()
        invariant
            i <= tags@.len(),
            out@ + tags_text(tags@.skip(i as int)) == old(out)@ + tags_text(tags@),
        decreases tags@.len() - i,
    {
        let ghost pre = out@;
        push_decimal(tags[i], out);
        out.append(" ");
        proof {
            reveal_strlit(" ");
            let rest = tags@.skip(i as int);
            assert(rest[0] == tags@[i as int]);
            assert(rest.drop_first() =~= tags@.skip(i as int + 1));
            assert(tags_text(rest) == dec_digits(rest[0] as nat) + seq![' '] + tags_text(
                rest.drop_first(),
            ));
            assert(" "@ =~= seq![' ']);
            assert(out@ + tags_text(tags@.skip(i as int + 1)) =~= pre + tags_text(rest));
        }
        i = i + 1;
    }
    proof {
        assert(tags@.skip(tags@.len() as int) =~= Seq::<u32>::empty());
        assert(out@ + Seq::<char>::empty() =~= out@);
    }
}

/// Renders the line printed for a focused-tags bitmask: the decoded tag
/// numbers, ascending, each followed by one space.
pub fn render_tags(mask: u32) -> (line: String)
    ensures
        line@ == tags_text(decoded(mask)),
{
    let tags = decode_tags(mask);
    let mut line = String::new();
    push_tags_text(&tags, &mut line);
    proof {
        assert(Seq::<char>::empty() + tags_text(decoded(mask)) =~= tags_text(decoded(mask)));
    }
    line
}

/// Renders the line printed for a per-view payload: each packed bitmask
/// decoded independently, the groups' texts concatenated on one line.
pub fn render_view_tags(payload: &Vec<u8>) -> (line: String)
    requires
        payload@.len() % 4 == 0,
    ensures
        line@ == view_tags_text(view_masks(payload@)),
{
    let masks = split_view_tags(payload);
    let mut line = String::new();
    let mut i: usize = 0;
    proof {
        assert(masks@.skip(0) =~= masks@);
    }
    while i < masks.len()
        invariant
            i <= masks@.len(),
            masks@ == view_masks(payload@),
            line@ + view_tags_text(masks@.skip(i as int)) == view_tags_text(view_masks(payload@)),
        decreases masks@.len() - i,
    {
        let ghost pre = line@;
        let group = decode_tags(masks[i]);
        push_tags_text(&group, &mut line);
        proof {
            let rest = masks@.skip(i as int);
            assert(rest[0] == masks@[i as int]);
            assert(rest.drop_first() =~= masks@.skip(i as int + 1));
            assert(view_tags_text(rest) == tags_text(decoded(rest[0])) + view_tags_text(
                rest.drop_first(),
            ));
            assert(line@ + view_tags_text(masks@.skip(i as int + 1)) =~= pre + view_tags_text(
                rest,
            ));
        }
        i = i + 1;
    }
    proof {
        assert(masks@.skip(masks@.len() as int) =~= Seq::<u32>::empty());
        assert(line@ + Seq::<char>::empty() =~= line@);
    }
    line
}

/// Text of the fatal report for an event that reached an object with no
/// installed handler: interface name, object id, and event name.
pub open spec fn orphan_text(interface: Seq<char>, object: nat, event: Seq<char>) -> Seq<char> {
    ("Encountered an orphan event: ")@ + interface + ("@")@ + dec_digits(object) + (": ")@ + event
}

/// Builds the fatal report for an unroutable event.
pub fn orphan_message(interface: &String, object: u32, event: &String) -> (m: String)
    ensures
        m@ == orphan_text(interface@, object as nat, event@),
{
    let mut m = String::from_str("Encountered an orphan event: ");
    m.append(interface.as_str());
    m.append("@");
    push_decimal(object, &mut m);
    m.append(": ");
    m.append(event.as_str());
    proof {
        assert(m@ =~= orphan_text(interface@, object as nat, event@));
    }
    m
}

} // verus!
