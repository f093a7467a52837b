use vstd::prelude::*;

use poise::serenity_prelude::ReactionType;

use crate::fmt::{decimal, lemma_decimal_writes_number};

verus! {

/// The mathematical value of an emoji: what identifies a reaction.
pub enum EmojiView {
    Custom { animated: bool, id: u64, name: Option<Seq<char>> },
    Unicode(Seq<char>),
}

/// A reaction emoji: a custom emoji of a server, or a Unicode emoji.
pub enum Emoji {
    Custom { animated: bool, id: u64, name: Option<String> },
    Unicode(String),
}

pub open spec fn option_string_view(o: Option<String>) -> Option<Seq<char>> {
    match o {
        Some(s) => Some(s@),
        None => None,
    }
}

impl View for Emoji {
    type V = EmojiView;

    open spec fn view(&self) -> EmojiView {
        match self {
            Emoji::Custom { animated, id, name } => EmojiView::Custom {
                animated: *animated,
                id: *id,
                name: option_string_view(*name),
            },
            Emoji::Unicode(s) => EmojiView::Unicode(s@),
        }
    }
}

/// Whether a character is an angle bracket.
pub open spec fn is_angle(c: char) -> bool {
    c == '<' || c == '>'
}

/// The text without its leading angle brackets.
pub open spec fn trim_start_angles(s: Seq<char>) -> Seq<char>
    decreases s.len(),
{
    if s.len() > 0 && is_angle(s[0]) {
        trim_start_angles(s.drop_first())
    } else {
        s
    }
}

/// The text without its trailing angle brackets.
pub open spec fn trim_end_angles(s: Seq<char>) -> Seq<char>
    decreases s.len(),
{
    if s.len() > 0 && is_angle(s.last()) {
        trim_end_angles(s.drop_last())
    } else {
        s
    }
}

/// The text up to its first colon (all of it where there is none).
pub open spec fn before_colon(s: Seq<char>) -> Seq<char>
    decreases s.len(),
{
    if s.len() == 0 || s[0] == ':' {
        Seq::empty()
    } else {
        seq![s[0]] + before_colon(s.drop_first())
    }
}

/// The text after its first colon, where it has one.
pub open spec fn after_colon(s: Seq<char>) -> Option<Seq<char>>
    decreases s.len(),
{
    if s.len() == 0 {
        None
    } else if s[0] == ':' {
        Some(s.drop_first())
    } else {
        after_colon(s.drop_first())
    }
}

pub open spec fn is_digit(c: char) -> bool {
    '0' <= c && c <= '9'
}

/// The number that a string of decimal digits writes.
pub open spec fn digits_value(s: Seq<char>) -> nat
    decreases s.len(),
{
    if s.len() == 0 {
        0
    } else {
        digits_value(s.drop_last()) * 10 + ((s.last() as int) - 48) as nat
    }
}

/// A nonzero 64-bit id in decimal: digits, after at most one `+`, that write
/// a number from 1 to `u64::MAX`.
pub open spec fn parse_nonzero_id(s: Seq<char>) -> Option<u64> {
    let d = if s.len() > 1 && s[0] == '+' { s.drop_first() } else { s };
    if d.len() > 0 && (forall|i: int| 0 <= i < d.len() ==> is_digit(#[trigger] d[i]))
        && 0 < digits_value(d) <= u64::MAX {
        Some(digits_value(d) as u64)
    } else {
        None
    }
}

/// What a text is as a reaction emoji: none where it is empty; a Unicode
/// emoji where it does not start with `<`; otherwise, where it ends with `>`,
/// the text without its outer angle brackets is split at colons into an
/// animation mark (`a` for animated), a name and a nonzero id.
pub open spec fn emoji_text(s: Seq<char>) -> Option<EmojiView> {
    if s.len() == 0 {
        None
    } else if s[0] != '<' {
        Some(EmojiView::Unicode(s))
    } else if s.last() != '>' {
        None
    } else {
        let t = trim_end_angles(trim_start_angles(s));
        match after_colon(t) {
            None => None,
            Some(rest) => match after_colon(rest) {
                None => None,
                Some(id_part) => match parse_nonzero_id(before_colon(id_part)) {
                    None => None,
                    Some(id) => Some(EmojiView::Custom {
                        animated: before_colon(t) == seq!['a'],
                        id,
                        name: Some(before_colon(rest)),
                    }),
                },
            },
        }
    }
}

pub open spec fn option_emoji_view(o: Option<Emoji>) -> Option<EmojiView> {
    match o {
        Some(e) => Some(e@),
        None => None,
    }
}

/// Parses a text as a reaction emoji with serenity's `ReactionType::from_str`.
/// Claimed of it: the result is what `emoji_text` says of the text.
#[verifier::external_body]
pub(crate) fn parse_emoji(text: &str) -> (r: Option<Emoji>)
    ensures
        option_emoji_view(r) == emoji_text(text@),
{
    match text.parse::<ReactionType>() {
        Ok(ReactionType::Custom { animated, id, name }) => Some(Emoji::Custom { animated, id: id.get(), name }),
        Ok(ReactionType::Unicode(unicode)) => Some(Emoji::Unicode(unicode)),
        Ok(_) => None,
        Err(_) => None,
    }
}

fn same_name(a: &Option<String>, b: &Option<String>) -> (r: bool)
    ensures
        r == (option_string_view(*a) == option_string_view(*b)),
{
    match (a, b) {
        (Some(x), Some(y)) => *x == *y,
        (None, None) => true,
        _ => false,
    }
}

impl Emoji {
    /// Whether two emojis are the same reaction: equal in every part.
    pub fn same_as(&self, other: &Emoji) -> (r: bool)
        ensures
            r == (self@ == other@),
    {
        match (self, other) {
            (
                Emoji::Custom { animated: a1, id: i1, name: n1 },
                Emoji::Custom { animated: a2, id: i2, name: n2 },
            ) => *a1 == *a2 && *i1 == *i2 && same_name(n1, n2),
            (Emoji::Unicode(u1), Emoji::Unicode(u2)) => *u1 == *u2,
            _ => false,
        }
    }
}

proof fn lemma_split_at_colon(a: Seq<char>, b: Seq<char>)
    requires
        forall|i: int| 0 <= i < a.len() ==> #[trigger] a[i] != ':',
    ensures
        before_colon(a + seq![':'] + b) == a,
        after_colon(a + seq![':'] + b) == Some(b),
    decreases a.len(),
{
    let s = a + seq![':'] + b;
    if a.len() == 0 {
        assert(s.drop_first() =~= b);
        assert(before_colon(s) =~= a);
    } else {
        let rest = a.drop_first();
        assert(s.drop_first() =~= rest + seq![':'] + b);
        lemma_split_at_colon(rest, b);
        assert(before_colon(s) =~= seq![a[0]] + rest);
        assert(seq![a[0]] + rest =~= a);
    }
}

proof fn lemma_no_colon(a: Seq<char>)
    requires
        forall|i: int| 0 <= i < a.len() ==> #[trigger] a[i] != ':',
    ensures
        before_colon(a) == a,
        after_colon(a) is None,
    decreases a.len(),
{
    if a.len() > 0 {
        lemma_no_colon(a.drop_first());
        assert(seq![a[0]] + a.drop_first() =~= a);
    }
}

/// A text that does not start with `<` is the Unicode emoji it writes; a text
/// that starts with `<` but does not end with `>` is no emoji.
pub proof fn lemma_unicode_and_unclosed(text: Seq<char>)
    requires
        text.len() > 0,
    ensures
        text[0] != '<' ==> emoji_text(text) == Some(EmojiView::Unicode(text)),
        text[0] == '<' && text.last() != '>' ==> emoji_text(text) is None,
{
}

/// A custom emoji written `<mark:name:id>`, with a mark and a name without
/// colons or angle brackets and a nonzero id in decimal, is that emoji:
/// animated exactly when the mark is `a`, with that name and id.
pub proof fn lemma_custom_emoji_text(mark: Seq<char>, name: Seq<char>, id: u64)
    requires
        id != 0,
        forall|i: int| 0 <= i < mark.len() ==> #[trigger] mark[i] != ':' && !is_angle(mark[i]),
        forall|i: int| 0 <= i < name.len() ==> #[trigger] name[i] != ':',
    ensures
        emoji_text(seq!['<'] + mark + seq![':'] + name + seq![':'] + decimal(id as nat) + seq!['>'])
            == Some(EmojiView::Custom { animated: mark == seq!['a'], id, name: Some(name) }),
{
    let digits = decimal(id as nat);
    lemma_decimal_writes_number(id as nat);
    let t = mark + seq![':'] + name + seq![':'] + digits;
    let text = seq!['<'] + t + seq!['>'];
    // the outer brackets go, and nothing more
    assert(text.drop_first() =~= t + seq!['>']);
    assert(!is_angle((t + seq!['>'])[0])) by {
        if mark.len() > 0 {
            assert((t + seq!['>'])[0] == mark[0]);
        } else {
            assert((t + seq!['>'])[0] == ':');
        }
    }
    assert(trim_start_angles(t + seq!['>']) == t + seq!['>']);
    assert(is_angle(text[0]));
    assert(trim_start_angles(text) == trim_start_angles(text.drop_first()));
    assert(trim_start_angles(text) == t + seq!['>']);
    assert((t + seq!['>']).drop_last() =~= t);
    assert(t.last() == digits.last());
    assert('0' <= digits.last() && digits.last() <= '9');
    assert(!is_angle(t.last()));
    assert(t.len() > 0);
    assert(trim_end_angles(t) == t);
    assert((t + seq!['>']).last() == '>');
    assert(trim_end_angles(t + seq!['>']) == trim_end_angles((t + seq!['>']).drop_last()));
    assert(trim_end_angles(t + seq!['>']) == t);
    // split at the colons
    let rest = name + seq![':'] + digits;
    assert(t =~= mark + seq![':'] + rest);
    lemma_split_at_colon(mark, rest);
    lemma_split_at_colon(name, digits);
    assert forall|i: int| 0 <= i < digits.len() implies #[trigger] digits[i] != ':' by {
        assert('0' <= digits[i] && digits[i] <= '9');
    }
    lemma_no_colon(digits);
    assert(parse_nonzero_id(digits) == Some(id)) by {
        assert(digits[0] != '+');
        assert forall|i: int| 0 <= i < digits.len() implies is_digit(#[trigger] digits[i]) by {
            assert('0' <= digits[i] && digits[i] <= '9');
        }
    }
    assert(text[0] == '<');
    assert(text.last() == '>');
    assert(text =~= seq!['<'] + mark + seq![':'] + name + seq![':'] + digits + seq!['>']);
    assert(before_colon(t) == mark);
    assert(after_colon(t) == Some(rest));
    assert(after_colon(rest) == Some(digits));
    assert(before_colon(rest) == name);
    assert(before_colon(digits) == digits);
    assert(emoji_text(text) == Some(EmojiView::Custom { animated: mark == seq!['a'], id, name: Some(name) }));
}

} // verus!
