//! An item of a card's checklist: a title, done or not.
//!
//! An item is written as a mark of four bytes and its title behind it. The
//! mark `[x] ` says that the item is done; any other mark says that it is
//! not.
use vstd::prelude::*;
use vstd::string::StrSliceExecFns;
use vstd::string::StringExecFns;
use vstd::utf8::decode_utf8;
use vstd::utf8::encode_utf8;
use vstd::utf8::is_char_boundary;

verus! {

/// The number of bytes that the mark of an item takes.
pub const MARK_LENGTH: usize = 4;

/// Whether a character has the property White_Space of Unicode: it is a
/// tab, a line feed, a vertical tab, a form feed, a carriage return, a
/// space, the next-line mark, a no-break space, the Ogham space mark, one of
/// the spaces from the en quad to the hair space, a line or paragraph
/// separator, a narrow no-break space, a medium mathematical space or an
/// ideographic space.
pub open spec fn is_whitespace(c: char) -> bool {
    let code = c as u32;
    ||| 0x0009 <= code <= 0x000d
    ||| code == 0x0020
    ||| code == 0x0085
    ||| code == 0x00a0
    ||| code == 0x1680
    ||| 0x2000 <= code <= 0x200a
    ||| code == 0x2028
    ||| code == 0x2029
    ||| code == 0x202f
    ||| code == 0x205f
    ||| code == 0x3000
}

/// `char::is_whitespace` of the standard library says whether a character
/// has the property White_Space of Unicode.
pub assume_specification[ char::is_whitespace ](c: char) -> (answer: bool)
    ensures
        answer == is_whitespace(c),
;

/// The number of whitespace characters that a text begins with.
pub open spec fn leading_whitespace(text: Seq<char>) -> nat
    decreases text.len(),
{
    if text.len() > 0 && is_whitespace(text[0]) {
        1 + leading_whitespace(text.drop_first())
    } else {
        0
    }
}

/// A text without the whitespace that it begins with.
pub open spec fn trimmed_start(text: Seq<char>) -> Seq<char> {
    text.skip(leading_whitespace(text) as int)
}

/// The bytes of the mark that says that an item is done.
pub open spec fn done_mark() -> Seq<u8> {
    seq![0x5b, 0x78, 0x5d, 0x20]
}

/// What a checklist item is: its title as text, and whether it is done.
pub struct CheckView {
    pub title: Seq<char>,
    pub done: bool,
}

impl CheckView {
    /// Whether a text, after the whitespace that it begins with, holds a
    /// mark: four bytes at least, of which the fifth, if there is one, begins
    /// a character.
    pub open spec fn has_mark(text: Seq<char>) -> bool {
        is_char_boundary(encode_utf8(trimmed_start(text)), MARK_LENGTH as int)
    }

    /// The item that a text with a mark says: done if the mark is that of a
    /// done item, under the title that stands behind the mark.
    pub open spec fn parsed(text: Seq<char>) -> CheckView {
        let bytes = encode_utf8(trimmed_start(text));
        CheckView {
            title: decode_utf8(bytes.skip(MARK_LENGTH as int)),
            done: bytes.take(MARK_LENGTH as int) == done_mark(),
        }
    }

    /// The text that says an item: its mark, then its title.
    pub open spec fn written(self) -> Seq<char> {
        (if self.done {
            seq!['[', 'x', ']', ' ']
        } else {
            seq!['[', ' ', ']', ' ']
        }) + self.title
    }
}

/// An item of a checklist.
#[derive(Debug)]
pub struct Check {
    pub title: String,
    pub done: bool,
}

impl View for Check {
    type V = CheckView;

    open spec fn view(&self) -> CheckView {
        CheckView { title: self.title@, done: self.done }
    }
}

impl Clone for Check {
    fn clone(&self) -> (copy: Check)
        ensures
            copy@ == self@,
    {
        Check { title: self.title.clone(), done: self.done }
    }
}

/// A text has `count` whitespace characters at its start if those are
/// whitespace and what follows them, if anything, is none.
pub proof fn lemma_leading_whitespace(text: Seq<char>, count: int)
    requires
        0 <= count <= text.len(),
        forall|i: int| 0 <= i < count ==> is_whitespace(text[i]),
        count < text.len() ==> !is_whitespace(text[count]),
    ensures
        leading_whitespace(text) == count,
    decreases text.len(),
{
    if count > 0 {
        lemma_leading_whitespace(text.drop_first(), count - 1);
    }
}

/// The text without the whitespace that it begins with.
pub fn trim_start(text: &str) -> (trimmed: &str)
    ensures
        trimmed@ == trimmed_start(text@),
{
    let len = text.unicode_len();
    let mut count: usize = 0;
    let mut counting = true;
    for c in it: text.chars()
        invariant
            len == text@.len(),
            it.seq() == text@,
            count <= it.index(),
            forall|i: int| 0 <= i < count ==> is_whitespace(text@[i]),
            counting ==> count == it.index(),
            !counting ==> count < text@.len() && !is_whitespace(text@[count as int]),
    {
        if counting && c.is_whitespace() {
            count = count + 1;
        } else {
            counting = false;
        }
    }
    proof {
        lemma_leading_whitespace(text@, count as int);
    }
    text.substring_char(count, len)
}

impl Check {
    /// An item with the given title, done or not.
    pub fn new(title: &str, done: bool) -> (check: Check)
        ensures
            check@ == (CheckView { title: title@, done }),
    {
        Check { title: String::from_str(title), done }
    }

    /// An item without a title that is not done.
    pub fn empty() -> (check: Check)
        ensures
            check@ == (CheckView { title: Seq::empty(), done: false }),
    {
        Check { title: String::new(), done: false }
    }

    /// The item that a text says. Whitespace at the start of the text is
    /// passed over; the four bytes that follow are the mark, and the rest is
    /// the title.
    pub fn from(value: &str) -> (check: Check)
        requires
            CheckView::has_mark(value@),
        ensures
            check@ == CheckView::parsed(value@),
    {
        let text = trim_start(value);
        let (mark, title) = text.split_at(MARK_LENGTH);
        let marked = mark.as_bytes();
        proof {
            vstd::utf8::encode_utf8_valid_utf8(text@);
            vstd::utf8::encode_utf8_decode_utf8(title@);
        }
        let done = marked[0] == 0x5b && marked[1] == 0x78 && marked[2] == 0x5d && marked[3] == 0x20;
        assert(done == (marked@ =~= done_mark()));
        Check { title: String::from_str(title), done }
    }

    /// The item that a text says, or `None` for a text without a mark.
    pub fn parse(value: &str) -> (check: Option<Check>)
        ensures
            check is Some <==> CheckView::has_mark(value@),
            check matches Some(found) ==> found@ == CheckView::parsed(value@),
    {
        let text = trim_start(value);
        if text.is_char_boundary(MARK_LENGTH) {
            Some(Check::from(value))
        } else {
            None
        }
    }

    /// The text that says the item: its mark, then its title.
    pub fn to_string(&self) -> (text: String)
        ensures
            text@ == self@.written(),
    {
        proof {
            reveal_strlit("[x] ");
            reveal_strlit("[ ] ");
        }
        let mut text = String::from_str(if self.done { "[x] " } else { "[ ] " });
        text.append(self.title.as_str());
        text
    }
}

/// The bytes of two texts, one behind the other, are the bytes of the first
/// and then those of the second.
pub proof fn lemma_encode_add(first: Seq<char>, second: Seq<char>)
    ensures
        encode_utf8(first + second) == encode_utf8(first) + encode_utf8(second),
    decreases first.len(),
{
    if first.len() > 0 {
        assert((first + second).drop_first() =~= first.drop_first() + second);
        lemma_encode_add(first.drop_first(), second);
    }
}

/// The text that says an item says that item: it holds a mark, and read as
/// an item it gives the title and whether the item is done.
pub proof fn lemma_written_parsed(check: CheckView)
    ensures
        CheckView::has_mark(check.written()),
        CheckView::parsed(check.written()) == check,
{
    let mark: Seq<char> = if check.done {
        seq!['[', 'x', ']', ' ']
    } else {
        seq!['[', ' ', ']', ' ']
    };
    let text = check.written();
    let bytes = encode_utf8(text);
    let behind = encode_utf8(check.title);
    assert(trimmed_start(text) =~= text);
    lemma_encode_add(mark, check.title);
    vstd::utf8::is_ascii_chars_encode_utf8(mark);
    vstd::utf8::encode_utf8_valid_utf8(text);
    vstd::utf8::encode_utf8_valid_utf8(check.title);
    vstd::utf8::encode_utf8_decode_utf8(check.title);
    assert(bytes.skip(4) =~= behind);
    if check.done {
        assert(bytes.take(4) =~= done_mark());
    }
    if behind.len() == 0 {
        vstd::utf8::is_char_boundary_start_end_of_seq(bytes);
    } else {
        vstd::utf8::is_char_boundary_iff_not_is_continuation_byte(bytes, 4);
    }
}

} // verus!
