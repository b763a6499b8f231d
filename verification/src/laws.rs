//! What holds of the tokens and of the order in which they are written.

use vstd::prelude::*;
use crate::interactive::{ActionType, TransitionAngle, TransitionStyle};
use crate::number::{has_sign, is_digit, is_digits, is_real, point_at};
use crate::object::{dict_bytes, dict_close, dict_open, entries, entry, key_lead};
use crate::primitive::{expand, name_byte, name_token};
use crate::syntax::{
    ascii, decimal, hex_digit, hex_pair, is_delimiter, is_plain_name_byte, is_white_space,
};

verus! {

/// The first byte of a sequence expands to the first piece.
pub proof fn lemma_expand_front(s: Seq<u8>, f: spec_fn(u8) -> Seq<u8>)
    requires
        s.len() > 0,
    ensures
        expand(s, f) == f(s[0]) + expand(s.skip(1), f),
    decreases s.len(),
{
    if s.len() == 1 {
        assert(s.drop_last() =~= Seq::<u8>::empty());
        assert(s.skip(1) =~= Seq::<u8>::empty());
        assert(expand(s, f) =~= f(s[0]) + expand(s.skip(1), f));
    } else {
        lemma_expand_front(s.drop_last(), f);
        assert(s.drop_last().skip(1) =~= s.skip(1).drop_last());
        assert(s.skip(1).last() == s.last());
        assert(expand(s, f) =~= f(s[0]) + expand(s.skip(1), f));
    }
}

/// A name made of plain bytes is written as it stands, after a solidus.
pub proof fn lemma_plain_name_token(name: Seq<u8>)
    requires
        forall|i: int| 0 <= i < name.len() ==> is_plain_name_byte(#[trigger] name[i]),
    ensures
        name_token(name) == seq!['/' as u8] + name,
    decreases name.len(),
{
    let each = |b: u8| name_byte(b);
    if name.len() == 0 {
        assert(expand(name, each) =~= name);
    } else {
        lemma_plain_name_token(name.drop_last());
        assert(is_plain_name_byte(name[name.len() - 1]));
        assert(expand(name.drop_last(), each) =~= name_token(name.drop_last()).skip(1));
        assert(expand(name.drop_last(), each) =~= name.drop_last());
        assert(expand(name, each) =~= expand(name.drop_last(), each).push(name.last()));
        assert(name_token(name) =~= seq!['/' as u8] + name.drop_last().push(name.last()));
        assert(name.drop_last().push(name.last()) =~= name);
    }
}

/// Two bytes with the same hexadecimal characters are the same byte.
pub proof fn lemma_hex_pair_injective(a: u8, b: u8)
    requires
        hex_pair(a) == hex_pair(b),
    ensures
        a == b,
{
    assert(hex_pair(a)[0] == hex_pair(b)[0]);
    assert(hex_pair(a)[1] == hex_pair(b)[1]);
    assert(hex_digit(a as int / 16) == hex_digit(b as int / 16));
    assert(hex_digit(a as int % 16) == hex_digit(b as int % 16));
}

/// Two names with the same token are the same name.
pub proof fn lemma_name_token_injective(a: Seq<u8>, b: Seq<u8>)
    requires
        name_token(a) == name_token(b),
    ensures
        a == b,
{
    let each = |b: u8| name_byte(b);
    assert(expand(a, each) =~= name_token(a).skip(1));
    assert(expand(b, each) =~= name_token(b).skip(1));
    lemma_name_body_injective(a, b);
}

/// Two names whose bytes are written alike are the same name.
proof fn lemma_name_body_injective(a: Seq<u8>, b: Seq<u8>)
    requires
        expand(a, |b: u8| name_byte(b)) == expand(b, |b: u8| name_byte(b)),
    ensures
        a == b,
    decreases a.len(),
{
    let each = |b: u8| name_byte(b);
    if a.len() == 0 {
        if b.len() > 0 {
            lemma_expand_front(b, each);
            assert(expand(b, each).len() > 0);
        }
        assert(a =~= b);
    } else {
        lemma_expand_front(a, each);
        if b.len() == 0 {
            assert(expand(a, each).len() > 0);
        } else {
            lemma_expand_front(b, each);
            let ta = expand(a, each);
            let pa = name_byte(a[0]);
            let pb = name_byte(b[0]);
            assert(ta[0] == pa[0]);
            assert(ta[0] == pb[0]);
            if is_plain_name_byte(a[0]) {
                assert(is_plain_name_byte(b[0]));
                assert(a[0] == b[0]);
            } else {
                assert(!is_plain_name_byte(b[0]));
                assert(ta[1] == pa[1] && ta[2] == pa[2]);
                assert(ta[1] == pb[1] && ta[2] == pb[2]);
                assert(hex_pair(a[0]) =~= hex_pair(b[0]));
                lemma_hex_pair_injective(a[0], b[0]);
            }
            assert(expand(a.skip(1), each) =~= ta.skip(pa.len() as int));
            assert(expand(b.skip(1), each) =~= ta.skip(pb.len() as int));
            lemma_name_body_injective(a.skip(1), b.skip(1));
            assert(a =~= seq![a[0]] + a.skip(1));
            assert(b =~= seq![b[0]] + b.skip(1));
        }
    }
}

/// The names of the transition styles are made of plain bytes, and no two
/// of them have both the same length and the same first byte.
proof fn lemma_style_names(a: TransitionStyle)
    ensures
        forall|i: int| 0 <= i < a.name().len() ==> is_plain_name_byte(#[trigger] a.name()[i]),
        a.name().len() > 0,
        (a.name().len(), a.name()[0]) == match a {
            TransitionStyle::Split => (5nat, 'S' as u8),
            TransitionStyle::Blinds => (6nat, 'B' as u8),
            TransitionStyle::Box => (3nat, 'B' as u8),
            TransitionStyle::Wipe => (4nat, 'W' as u8),
            TransitionStyle::Dissolve => (8nat, 'D' as u8),
            TransitionStyle::Glitter => (7nat, 'G' as u8),
            TransitionStyle::R => (1nat, 'R' as u8),
            TransitionStyle::Fly => (3nat, 'F' as u8),
            TransitionStyle::Push => (4nat, 'P' as u8),
            TransitionStyle::Cover => (5nat, 'C' as u8),
            TransitionStyle::Uncover => (7nat, 'U' as u8),
            TransitionStyle::Fade => (4nat, 'F' as u8),
        },
{
    reveal_strlit("Split");
    reveal_strlit("Blinds");
    reveal_strlit("Box");
    reveal_strlit("Wipe");
    reveal_strlit("Dissolve");
    reveal_strlit("Glitter");
    reveal_strlit("R");
    reveal_strlit("Fly");
    reveal_strlit("Push");
    reveal_strlit("Cover");
    reveal_strlit("Uncover");
    reveal_strlit("Fade");
    let n = a.name();
    assert forall|i: int| 0 <= i < n.len() implies is_plain_name_byte(#[trigger] n[i]) by {
        if i == 0 {
        } else if i == 1 {
        } else if i == 2 {
        } else if i == 3 {
        } else if i == 4 {
        } else if i == 5 {
        } else if i == 6 {
        } else {
            assert(i == 7);
        }
    }
}

/// Every transition style is written as a solidus and its name, and no two
/// styles share a token.
pub proof fn lemma_style_tokens(a: TransitionStyle, b: TransitionStyle)
    ensures
        name_token(a.name()) == seq!['/' as u8] + a.name(),
        a != b ==> name_token(a.name()) != name_token(b.name()),
{
    lemma_style_names(a);
    lemma_style_names(b);
    lemma_plain_name_token(a.name());
    if a != b && name_token(a.name()) == name_token(b.name()) {
        lemma_name_token_injective(a.name(), b.name());
    }
}

/// The names of the action types are made of plain bytes and differ in
/// length.
proof fn lemma_action_names(a: ActionType)
    ensures
        forall|i: int| 0 <= i < a.name().len() ==> is_plain_name_byte(#[trigger] a.name()[i]),
        a.name().len() == match a {
            ActionType::GoTo => 4nat,
            ActionType::RemoteGoTo => 5nat,
            ActionType::Launch => 6nat,
            ActionType::Uri => 3nat,
        },
{
    reveal_strlit("GoTo");
    reveal_strlit("GoToR");
    reveal_strlit("Launch");
    reveal_strlit("URI");
    let n = a.name();
    assert forall|i: int| 0 <= i < n.len() implies is_plain_name_byte(#[trigger] n[i]) by {
        if i == 0 {
        } else if i == 1 {
        } else if i == 2 {
        } else if i == 3 {
        } else if i == 4 {
        } else {
            assert(i == 5);
        }
    }
}

/// Every action type is written as a solidus and its name, and no two
/// action types share a token.
pub proof fn lemma_action_tokens(a: ActionType, b: ActionType)
    ensures
        name_token(a.name()) == seq!['/' as u8] + a.name(),
        a != b ==> name_token(a.name()) != name_token(b.name()),
{
    lemma_action_names(a);
    lemma_action_names(b);
    lemma_plain_name_token(a.name());
    if a != b && name_token(a.name()) == name_token(b.name()) {
        lemma_name_token_injective(a.name(), b.name());
    }
}

/// The text of the token of each transition angle.
pub open spec fn angle_text(a: TransitionAngle) -> Seq<char> {
    match a {
        TransitionAngle::LeftToRight => "0"@,
        TransitionAngle::BottomToTop => "90"@,
        TransitionAngle::RightToLeft => "180"@,
        TransitionAngle::TopToBottom => "270"@,
        TransitionAngle::TopLeftToBottomRight => "315"@,
        TransitionAngle::NoDirection => "/None"@,
    }
}

/// Every transition angle is written as its number of degrees, the last as
/// the name `None`, and no two angles share a token.
pub proof fn lemma_angle_tokens(a: TransitionAngle, b: TransitionAngle)
    ensures
        a.token() == ascii(angle_text(a)),
        a != b ==> a.token() != b.token(),
{
    lemma_angle_token_text(a);
    lemma_angle_token_text(b);
    reveal_strlit("0");
    reveal_strlit("90");
    reveal_strlit("180");
    reveal_strlit("270");
    reveal_strlit("315");
    reveal_strlit("/None");
    if a != b {
        let ta = ascii(angle_text(a));
        let tb = ascii(angle_text(b));
        assert(ta.len() != tb.len() || ta[0] != tb[0]);
    }
}

/// The token of a transition angle is the text given for it.
proof fn lemma_angle_token_text(a: TransitionAngle)
    ensures
        a.token() == ascii(angle_text(a)),
{
    reveal_strlit("0");
    reveal_strlit("90");
    reveal_strlit("180");
    reveal_strlit("270");
    reveal_strlit("315");
    reveal_strlit("/None");
    reveal_strlit("None");
    reveal_with_fuel(decimal, 3);
    match a {
        TransitionAngle::NoDirection => {
            let n = ascii("None"@);
            assert forall|i: int| 0 <= i < n.len() implies is_plain_name_byte(#[trigger] n[i]) by {
                if i == 0 {
                } else if i == 1 {
                } else if i == 2 {
                } else {
                    assert(i == 3);
                }
            }
            lemma_plain_name_token(n);
            assert(a.token() =~= ascii(angle_text(a)));
        },
        _ => {
            assert(a.token() =~= ascii(angle_text(a)));
        },
    }
}

/// The entries of two runs of items, one after the other, are the entries
/// of the first run followed by those of the second.
pub proof fn lemma_entries_append(
    indent: u8,
    a: Seq<(Seq<u8>, Seq<u8>)>,
    b: Seq<(Seq<u8>, Seq<u8>)>,
)
    ensures
        entries(indent, a + b) == entries(indent, a) + entries(indent, b),
    decreases b.len(),
{
    if b.len() == 0 {
        assert(a + b =~= a);
        assert(entries(indent, a + b) =~= entries(indent, a) + entries(indent, b));
    } else {
        lemma_entries_append(indent, a, b.drop_last());
        assert((a + b).drop_last() =~= a + b.drop_last());
        assert((a + b).last() == b.last());
        assert(entries(indent, a + b) =~= entries(indent, a) + entries(indent, b));
    }
}

/// Pairs stand in the output in the order in which they were written: the
/// `i`-th entry occupies the bytes between the end of the entries before it
/// and the end of the first `i + 1` entries, and the first `j` entries, for
/// any later `j`, end at or after that.
pub proof fn lemma_entries_in_order(indent: u8, items: Seq<(Seq<u8>, Seq<u8>)>, i: int, j: int)
    requires
        0 <= i < j <= items.len(),
    ensures
        ({
            let all = entries(indent, items);
            let start = entries(indent, items.take(i)).len() as int;
            let end = entries(indent, items.take(i + 1)).len() as int;
            let later = entries(indent, items.take(j)).len() as int;
            &&& start < end <= later <= all.len()
            &&& all.subrange(start, end) == entry(indent, items[i].0, items[i].1)
        }),
{
    let head = items.take(i);
    let one = items.subrange(i, i + 1);
    let mid = items.subrange(i + 1, j);
    let tail = items.skip(j);
    assert(items.take(i + 1) =~= head + one);
    assert(items.take(j) =~= items.take(i + 1) + mid);
    assert(items =~= items.take(j) + tail);
    lemma_entries_append(indent, head, one);
    lemma_entries_append(indent, items.take(i + 1), mid);
    lemma_entries_append(indent, items.take(j), tail);
    assert(one.drop_last() =~= Seq::<(Seq<u8>, Seq<u8>)>::empty());
    assert(entries(indent, one.drop_last()) =~= Seq::<u8>::empty());
    assert(one.last() == items[i]);
    assert(entries(indent, one) =~= entry(indent, items[i].0, items[i].1));
    assert(key_lead(indent, items[i].0).len() > 0);
    let all = entries(indent, items);
    let start = entries(indent, head).len() as int;
    let end = entries(indent, items.take(i + 1)).len() as int;
    assert(all.subrange(start, end) =~= entry(indent, items[i].0, items[i].1));
}

/// The closing delimiter of a dictionary is white space followed by one
/// pair of closing angle brackets, and nothing else.
pub proof fn lemma_dict_close_once(indent: u8, empty: bool)
    ensures
        ({
            let close = dict_close(indent, empty);
            &&& close.len() >= 2
            &&& close.skip(close.len() - 2) == seq!['>' as u8, '>' as u8]
            &&& forall|i: int| 0 <= i < close.len() - 2 ==> is_white_space(#[trigger] close[i])
        }),
{
    let close = dict_close(indent, empty);
    assert(close.skip(close.len() - 2) =~= seq!['>' as u8, '>' as u8]);
}

/// A dictionary that is opened, given `items` one after the other and
/// finished is the opening delimiter, the entries in that order, and the
/// closing delimiter once, at the very end.
pub proof fn lemma_dict_written(start: Seq<u8>, indent: u8, items: Seq<(Seq<u8>, Seq<u8>)>)
    ensures
        ({
            let opened = start + dict_open();
            let filled = opened + entries(indent, items);
            let closed = filled + dict_close(indent, items.len() == 0);
            &&& closed == start + dict_bytes(indent, items)
            &&& closed.skip(closed.len() - 2) == seq!['>' as u8, '>' as u8]
            &&& closed.take(filled.len() as int) == filled
        }),
{
    let opened = start + dict_open();
    let filled = opened + entries(indent, items);
    let close = dict_close(indent, items.len() == 0);
    let closed = filled + close;
    lemma_dict_close_once(indent, items.len() == 0);
    assert(closed =~= start + dict_bytes(indent, items));
    assert(closed.skip(closed.len() - 2) =~= close.skip(close.len() - 2));
    assert(closed.take(filled.len() as int) =~= filled);
}

/// A value written through the cursor of a key is followed, never
/// overwritten, by what the dictionary writes afterwards: with `before` in
/// the buffer, a key whose cursor wrote `value` leaves the same bytes as a
/// pair would, and a later pair stands strictly after them.
pub proof fn lemma_nested_value_then_pair(
    before: Seq<u8>,
    indent: u8,
    key: Seq<u8>,
    value: Seq<u8>,
    later_key: Seq<u8>,
    later_value: Seq<u8>,
)
    ensures
        ({
            let nested = before + key_lead(indent, key) + value;
            let after = nested + entry(indent, later_key, later_value);
            &&& nested == before + entry(indent, key, value)
            &&& nested.len() < after.len()
            &&& after.take(nested.len() as int) == nested
            &&& after.skip(nested.len() as int) == entry(indent, later_key, later_value)
        }),
{
    let nested = before + key_lead(indent, key) + value;
    let after = nested + entry(indent, later_key, later_value);
    assert(nested =~= before + entry(indent, key, value));
    assert(key_lead(indent, later_key).len() > 0);
    assert(after.take(nested.len() as int) =~= nested);
    assert(after.skip(nested.len() as int) =~= entry(indent, later_key, later_value));
}

/// The notation of a real number holds digits, a minus sign and a decimal
/// point only: neither white space nor a delimiter, so it is one token.
pub proof fn lemma_real_is_one_token(s: Seq<u8>)
    requires
        is_real(s),
    ensures
        s.len() > 0,
        forall|i: int|
            0 <= i < s.len() ==> {
                &&& is_digit(#[trigger] s[i]) || s[i] == '-' as u8 || s[i] == '.' as u8
                &&& !is_white_space(s[i])
                &&& !is_delimiter(s[i])
            },
{
    let off: int = if has_sign(s) {
        1
    } else {
        0
    };
    let body = s.skip(off);
    assert(body =~= if has_sign(s) {
        s.skip(1)
    } else {
        s
    });
    assert(is_digits(body) || exists|k: int| point_at(body, k));
    assert forall|i: int| 0 <= i < s.len() implies is_digit(#[trigger] s[i]) || s[i] == '-' as u8
        || s[i] == '.' as u8 by {
        if i >= off {
            let j = i - off;
            assert(body[j] == s[i]);
            if !is_digits(body) {
                let k = choose|k: int| point_at(body, k);
                if j < k {
                    assert(body.take(k)[j] == body[j]);
                } else if j > k {
                    assert(body.skip(k + 1)[j - k - 1] == body[j]);
                }
            }
        }
    }
}

} // verus!
