//! The display content: the text shown in the content area of the frame.
//! The message is trimmed, split into lines, and the help line is appended;
//! the functions here say exactly which lines are rendered.

use vstd::prelude::*;

verus! {

/// The characters with Unicode's white-space property: what trimming removes
/// from both ends of the display text.
pub open spec fn is_white(c: char) -> bool {
    let u = c as u32;
    ||| (0x9 <= u && u <= 0xd)
    ||| u == 0x20
    ||| u == 0x85
    ||| u == 0xa0
    ||| u == 0x1680
    ||| (0x2000 <= u && u <= 0x200a)
    ||| u == 0x2028
    ||| u == 0x2029
    ||| u == 0x202f
    ||| u == 0x205f
    ||| u == 0x3000
}

/// Whether `c` is white space.
pub fn is_white_char(c: char) -> (r: bool)
    ensures
        r == is_white(c),
{
    let u: u32 = c as u32;
    (0x9 <= u && u <= 0xd) || u == 0x20 || u == 0x85 || u == 0xa0 || u == 0x1680 || (0x2000 <= u
        && u <= 0x200a) || u == 0x2028 || u == 0x2029 || u == 0x202f || u == 0x205f || u == 0x3000
}

/// The text with leading white space removed.
pub open spec fn trim_front(s: Seq<char>) -> Seq<char>
    decreases s.len(),
{
    if s.len() > 0 && is_white(s[0]) {
        trim_front(s.drop_first())
    } else {
        s
    }
}

/// The text with trailing white space removed.
pub open spec fn trim_back(s: Seq<char>) -> Seq<char>
    decreases s.len(),
{
    if s.len() > 0 && is_white(s.last()) {
        trim_back(s.drop_last())
    } else {
        s
    }
}

/// The text with white space removed from both ends.
pub open spec fn spec_trim(s: Seq<char>) -> Seq<char> {
    trim_back(trim_front(s))
}

proof fn lemma_trim_front_skip(s: Seq<char>, i: int)
    requires
        0 <= i <= s.len(),
        forall|k: int| 0 <= k < i ==> is_white(#[trigger] s[k]),
        i < s.len() ==> !is_white(s[i]),
    ensures
        trim_front(s) == s.skip(i),
    decreases i,
{
    if i == 0 {
        assert(s.skip(0) =~= s);
    } else {
        assert(is_white(s[0]));
        let rest = s.drop_first();
        assert forall|k: int| 0 <= k < i - 1 implies is_white(#[trigger] rest[k]) by {
            assert(rest[k] == s[k + 1]);
        }
        assert(i - 1 < rest.len() ==> !is_white(rest[i - 1]));
        lemma_trim_front_skip(rest, i - 1);
        assert(rest.skip(i - 1) =~= s.skip(i));
    }
}

proof fn lemma_trim_back_take(s: Seq<char>, j: int)
    requires
        0 <= j <= s.len(),
        forall|k: int| j <= k < s.len() ==> is_white(#[trigger] s[k]),
        j > 0 ==> !is_white(s[j - 1]),
    ensures
        trim_back(s) == s.take(j),
    decreases s.len(),
{
    if j == s.len() {
        assert(s.take(j) =~= s);
        if s.len() > 0 {
            assert(!is_white(s.last()));
        }
    } else {
        assert(is_white(s.last()));
        let rest = s.drop_last();
        assert forall|k: int| j <= k < rest.len() implies is_white(#[trigger] rest[k]) by {
            assert(rest[k] == s[k]);
        }
        lemma_trim_back_take(rest, j);
        assert(rest.take(j) =~= s.take(j));
    }
}

/// The text split on line breaks: the list of lines, each without its
/// terminating break.  Empty text is one empty line.
pub open spec fn split_lines(s: Seq<char>) -> Seq<Seq<char>>
    decreases s.len(),
{
    if s.len() == 0 {
        seq![Seq::empty()]
    } else if s[0] == '\n' {
        seq![Seq::empty()] + split_lines(s.drop_first())
    } else {
        let rest = split_lines(s.drop_first());
        seq![seq![s[0]] + rest[0]] + rest.drop_first()
    }
}

/// Splitting yields at least one line.
pub proof fn lemma_split_lines_len(s: Seq<char>)
    ensures
        split_lines(s).len() >= 1,
    decreases s.len(),
{
    if s.len() != 0 {
        lemma_split_lines_len(s.drop_first());
    }
}

/// Text without a line break is one single line.
proof fn lemma_split_no_break(s: Seq<char>)
    requires
        forall|k: int| 0 <= k < s.len() ==> #[trigger] s[k] != '\n',
    ensures
        split_lines(s) == seq![s],
    decreases s.len(),
{
    if s.len() == 0 {
        assert(Seq::<char>::empty() =~= s);
        assert(split_lines(s) =~= seq![s]);
    } else {
        let rest = s.drop_first();
        lemma_split_no_break(rest);
        let first = seq![s[0]] + rest;
        assert(first =~= s);
        assert(seq![rest].drop_first() =~= Seq::<Seq<char>>::empty());
        assert(split_lines(s) =~= seq![first] + Seq::<Seq<char>>::empty());
        assert(seq![first] + Seq::<Seq<char>>::empty() =~= seq![first]);
        assert(split_lines(s) =~= seq![s]);
    }
}

/// Splitting at the first line break: the text before it is the first line,
/// the text after it splits on its own.
proof fn lemma_split_at_break(s: Seq<char>, k: int)
    requires
        0 <= k < s.len(),
        s[k] == '\n',
        forall|j: int| 0 <= j < k ==> #[trigger] s[j] != '\n',
    ensures
        split_lines(s) == seq![s.take(k)] + split_lines(s.skip(k + 1)),
    decreases k,
{
    if k == 0 {
        assert(s.take(0) =~= Seq::<char>::empty());
        assert(s.drop_first() =~= s.skip(1));
        assert(split_lines(s) == seq![Seq::<char>::empty()] + split_lines(s.drop_first()));
        assert(seq![Seq::<char>::empty()] =~= seq![s.take(0)]);
    } else {
        let rest = s.drop_first();
        assert(rest[k - 1] == s[k]);
        assert forall|j: int| 0 <= j < k - 1 implies #[trigger] rest[j] != '\n' by {
            assert(rest[j] == s[j + 1]);
        }
        lemma_split_at_break(rest, k - 1);
        let sub = split_lines(rest);
        assert(sub == seq![rest.take(k - 1)] + split_lines(rest.skip(k)));
        assert(sub[0] == rest.take(k - 1));
        assert(sub.drop_first() =~= split_lines(rest.skip(k)));
        assert(s[0] != '\n');
        assert(split_lines(s) == seq![seq![s[0]] + sub[0]] + sub.drop_first());
        assert(seq![s[0]] + rest.take(k - 1) =~= s.take(k));
        assert(rest.skip(k) =~= s.skip(k + 1));
        assert(seq![seq![s[0]] + sub[0]] =~= seq![s.take(k)]);
    }
}

/// The views of a list of owned lines.
pub open spec fn views_of(lines: Seq<String>) -> Seq<Seq<char>> {
    lines.map_values(|t: String| t@)
}

/// The text with white space removed from both ends, as `spec_trim` says.
pub fn trim_text(s: &str) -> (t: String)
    ensures
        t@ == spec_trim(s@),
{
    let n = s.unicode_len();
    let mut i: usize = 0;
    while i < n && is_white_char(s.get_char(i))
        invariant
            n == s@.len(),
            i <= n,
            forall|k: int| 0 <= k < i ==> is_white(#[trigger] s@[k]),
        decreases n - i,
    {
        i = i + 1;
    }
    let mut j: usize = n;
    while j > i && is_white_char(s.get_char(j - 1))
        invariant
            n == s@.len(),
            i <= j <= n,
            forall|k: int| j <= k < n ==> is_white(#[trigger] s@[k]),
        decreases j,
    {
        j = j - 1;
    }
    proof {
        lemma_trim_front_skip(s@, i as int);
        let tail = s@.skip(i as int);
        assert forall|k: int| j - i <= k < tail.len() implies is_white(#[trigger] tail[k]) by {
            assert(tail[k] == s@[k + i]);
        }
        assert(j - i > 0 ==> !is_white(tail[j - i - 1]));
        lemma_trim_back_take(tail, j - i);
        assert(tail.take(j - i) =~= s@.subrange(i as int, j as int));
    }
    let piece = s.substring_char(i, j);
    piece.to_owned()
}

/// The text split on line breaks, as `split_lines` says.
pub fn split_text(s: &str) -> (lines: Vec<String>)
    ensures
        views_of(lines@) == split_lines(s@),
{
    let n = s.unicode_len();
    let mut lines: Vec<String> = Vec::new();
    let mut start: usize = 0;
    let mut i: usize = 0;
    proof {
        assert(views_of(lines@) =~= Seq::<Seq<char>>::empty());
        assert(s@.skip(0) =~= s@);
        assert(views_of(lines@) + split_lines(s@) =~= split_lines(s@));
    }
    while i < n
        invariant
            n == s@.len(),
            start <= i <= n,
            forall|k: int| start <= k < i ==> #[trigger] s@[k] != '\n',
            split_lines(s@) == views_of(lines@) + split_lines(s@.skip(start as int)),
        decreases n - i,
    {
        let c = s.get_char(i);
        if c == '\n' {
            let piece = s.substring_char(start, i).to_owned();
            proof {
                let tail = s@.skip(start as int);
                assert(tail[i - start] == s@[i as int]);
                assert forall|j: int| 0 <= j < i - start implies #[trigger] tail[j] != '\n' by {
                    assert(tail[j] == s@[j + start]);
                }
                lemma_split_at_break(tail, i - start);
                assert(tail.take(i - start) =~= s@.subrange(start as int, i as int));
                assert(tail.skip(i - start + 1) =~= s@.skip(i + 1));
                assert(views_of(lines@.push(piece)) =~= views_of(lines@).push(piece@));
                assert(views_of(lines@).push(piece@) + split_lines(s@.skip(i + 1)) =~= views_of(
                    lines@,
                ) + (seq![piece@] + split_lines(s@.skip(i + 1))));
            }
            lines.push(piece);
            start = i + 1;
        }
        i = i + 1;
    }
    let piece = s.substring_char(start, n).to_owned();
    proof {
        let tail = s@.skip(start as int);
        assert forall|j: int| 0 <= j < tail.len() implies #[trigger] tail[j] != '\n' by {
            assert(tail[j] == s@[j + start]);
        }
        lemma_split_no_break(tail);
        assert(tail =~= s@.subrange(start as int, n as int));
        assert(views_of(lines@.push(piece)) =~= views_of(lines@).push(piece@));
        assert(views_of(lines@).push(piece@) =~= views_of(lines@) + seq![piece@]);
    }
    lines.push(piece);
    lines
}

/// The line of help text always shown under the content.
pub open spec fn quit_hint() -> Seq<char> {
    "press 'q' to quit"@
}

/// The full display content for a message: the message trimmed and split
/// into lines, with the help line appended.
pub open spec fn display_of(message: Seq<char>) -> Seq<Seq<char>> {
    split_lines(spec_trim(message)).push(quit_hint())
}

/// The lines rendered into the content area: the trimmed message, line by
/// line, and the help line last.
pub fn display_lines(message: &str) -> (lines: Vec<String>)
    ensures
        views_of(lines@) == display_of(message@),
{
    let trimmed = trim_text(message);
    let mut lines = split_text(trimmed.as_str());
    let hint = String::from_str("press 'q' to quit");
    proof {
        assert(views_of(lines@.push(hint)) =~= views_of(lines@).push(hint@));
    }
    lines.push(hint);
    lines
}

/// Rendering never loses the help line: whatever the message, even the empty
/// one, the display content is non-empty and ends with the quit-hint line.
pub proof fn lemma_display_has_hint(message: Seq<char>)
    ensures
        display_of(message).len() >= 2,
        display_of(message).last() == quit_hint(),
{
    lemma_split_lines_len(spec_trim(message));
}

} // verus!

