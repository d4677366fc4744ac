//! A source text prepared for scanning: its characters, and for every
//! character position the byte offset that spans report.

use vstd::prelude::*;
use vstd::string::*;

verus! {

/// The number of bytes that the UTF-8 encoding of `c` takes.
pub open spec fn spec_utf8_width(c: char) -> nat {
    let v = c as u32;
    if v < 0x80 {
        1
    } else if v < 0x800 {
        2
    } else if v < 0x10000 {
        3
    } else {
        4
    }
}

pub fn utf8_width(c: char) -> (width: u32)
    ensures
        width == spec_utf8_width(c),
{
    let v: u32 = c as u32;
    if v < 0x80 {
        1
    } else if v < 0x800 {
        2
    } else if v < 0x10000 {
        3
    } else {
        4
    }
}

/// The number of bytes that the UTF-8 encoding of `text` takes.
pub open spec fn utf8_len(text: Seq<char>) -> nat
    decreases text.len(),
{
    if text.len() == 0 {
        0
    } else {
        utf8_len(text.drop_last()) + spec_utf8_width(text.last())
    }
}

/// A text of `text` starting at byte offset `base` ends at an offset that a
/// span can hold.
pub open spec fn fits_in_span(text: Seq<char>, base: u32) -> bool {
    base + utf8_len(text) <= u32::MAX
}

/// The byte offset of the character position `index` of a text that starts
/// at byte offset `base`.
pub open spec fn offset_at(text: Seq<char>, base: u32, index: int) -> int {
    base + utf8_len(text.take(index))
}

pub proof fn lemma_utf8_len_step(text: Seq<char>, index: int)
    requires
        0 <= index < text.len(),
    ensures
        utf8_len(text.take(index + 1)) == utf8_len(text.take(index)) + spec_utf8_width(
            text[index],
        ),
{
    assert(text.take(index + 1).drop_last() =~= text.take(index));
}

/// Byte offsets grow with the character position and stay within the text.
pub proof fn lemma_offset_monotonic(text: Seq<char>, i: int, j: int)
    requires
        0 <= i <= j <= text.len(),
    ensures
        utf8_len(text.take(i)) <= utf8_len(text.take(j)),
        utf8_len(text.take(j)) - utf8_len(text.take(i)) >= j - i,
    decreases j - i,
{
    if i < j {
        lemma_offset_monotonic(text, i, j - 1);
        lemma_utf8_len_step(text, j - 1);
    }
}

/// The characters of `text`, in order.
pub fn chars_of(text: &str) -> (chars: Vec<char>)
    ensures
        chars@ == text@,
{
    let mut chars: Vec<char> = Vec::new();
    for c in it: text.chars()
        invariant
            chars@ == it.seq().take(it.index()),
    {
        chars.push(c);
    }
    chars
}

/// Whether `text`, placed at byte offset `base`, ends at an offset that a
/// span can hold.
pub fn text_fits(text: &str, base: u32) -> (fits: bool)
    ensures
        fits == fits_in_span(text@, base),
{
    let chars = chars_of(text);
    let mut total: u32 = base;
    let mut i: usize = 0;
    while i < chars.len()
        invariant
            i <= chars.len(),
            chars@ == text@,
            total == offset_at(chars@, base, i as int),
        decreases chars.len() - i,
    {
        let width = utf8_width(chars[i]);
        proof {
            lemma_utf8_len_step(chars@, i as int);
            lemma_offset_monotonic(chars@, i as int + 1, chars.len() as int);
            assert(chars@.take(chars.len() as int) =~= chars@);
        }
        if total > u32::MAX - width {
            return false;
        }
        total = total + width;
        i += 1;
    }
    proof {
        assert(chars@.take(chars.len() as int) =~= chars@);
    }
    true
}

/// A text with the byte offset of each of its character positions.
pub struct Source<'a> {
    pub text: &'a str,
    pub base: u32,
    pub chars: Vec<char>,
    pub offsets: Vec<u32>,
}

impl<'a> Source<'a> {
    /// The characters are those of the text, and `offsets[i]` is the byte
    /// offset of character position `i`, for every position up to the end.
    pub open spec fn wf(&self) -> bool {
        &&& self.chars@ == self.text@
        &&& self.offsets.len() == self.chars.len() + 1
        &&& fits_in_span(self.chars@, self.base)
        &&& forall|i: int|
            0 <= i <= self.chars.len() ==> #[trigger] self.offsets[i] as int == offset_at(
                self.chars@,
                self.base,
                i,
            )
    }

    pub fn new(text: &'a str, base: u32) -> (source: Source<'a>)
        requires
            fits_in_span(text@, base),
        ensures
            source.wf(),
            source.text == text,
            source.base == base,
    {
        let chars = chars_of(text);
        let mut offsets: Vec<u32> = Vec::new();
        offsets.push(base);
        proof {
            assert(chars@.take(0) =~= Seq::<char>::empty());
            assert(chars@.take(chars.len() as int) =~= chars@);
        }
        let mut i: usize = 0;
        while i < chars.len()
            invariant
                i <= chars.len(),
                chars@ == text@,
                offsets.len() == i + 1,
                fits_in_span(chars@, base),
                forall|j: int|
                    0 <= j <= i ==> #[trigger] offsets[j] as int == offset_at(chars@, base, j),
            decreases chars.len() - i,
        {
            let width = utf8_width(chars[i]);
            proof {
                lemma_utf8_len_step(chars@, i as int);
                lemma_offset_monotonic(chars@, i as int + 1, chars.len() as int);
                assert(chars@.take(chars.len() as int) =~= chars@);
            }
            let next: u32 = offsets[i] + width;
            offsets.push(next);
            i += 1;
        }
        Source { text, base, chars, offsets }
    }

    /// The number of characters.
    pub fn len(&self) -> (len: usize)
        ensures
            len == self.chars@.len(),
    {
        self.chars.len()
    }

    /// The byte offset of character position `index`.
    pub fn offset(&self, index: usize) -> (offset: u32)
        requires
            self.wf(),
            index <= self.chars@.len(),
        ensures
            offset as int == offset_at(self.chars@, self.base, index as int),
    {
        self.offsets[index]
    }

    /// The characters from position `from` up to position `to`, as a string.
    pub fn slice(&self, from: usize, to: usize) -> (piece: String)
        requires
            self.wf(),
            from <= to <= self.chars@.len(),
        ensures
            piece@ == self.chars@.subrange(from as int, to as int),
    {
        String::from_str(self.text.substring_char(from, to))
    }
}

} // verus!

verus! {

/// Whether two texts hold the same characters.
pub fn texts_equal(left: &str, right: &str) -> (same: bool)
    ensures
        same == (left@ == right@),
{
    let a = chars_of(left);
    let b = chars_of(right);
    if a.len() != b.len() {
        return false;
    }
    let mut i: usize = 0;
    while i < a.len()
        invariant
            i <= a.len(),
            a.len() == b.len(),
            a@ == left@,
            b@ == right@,
            forall|j: int| 0 <= j < i ==> a[j] == b[j],
        decreases a.len() - i,
    {
        if a[i] != b[i] {
            return false;
        }
        i += 1;
    }
    proof {
        assert(a@ =~= b@);
    }
    true
}

} // verus!

verus! {

/// The first place at or after `from` where `names` holds `name`.
pub open spec fn spec_position(names: Seq<Seq<char>>, name: Seq<char>, from: int) -> Option<int>
    decreases names.len() - from,
{
    if from < 0 || from >= names.len() {
        None
    } else if names[from] == name {
        Some(from)
    } else {
        spec_position(names, name, from + 1)
    }
}

/// What `spec_position` finds is the first place that holds the name, and
/// it finds nothing only where no place at or after `from` holds it.
pub proof fn law_position_is_the_first(names: Seq<Seq<char>>, name: Seq<char>, from: int)
    requires
        0 <= from,
    ensures
        match spec_position(names, name, from) {
            Some(at) => from <= at < names.len() && names[at] == name && forall|k: int|
                from <= k < at ==> names[k] != name,
            None => forall|k: int| from <= k < names.len() ==> names[k] != name,
        },
    decreases names.len() - from,
{
    if from < names.len() && names[from] != name {
        law_position_is_the_first(names, name, from + 1);
    }
}

} // verus!

verus! {

/// Whether `text` holds the character `wanted`.
pub fn text_contains(text: &str, wanted: char) -> (found: bool)
    ensures
        found == text@.contains(wanted),
{
    let chars = chars_of(text);
    let mut i: usize = 0;
    while i < chars.len()
        invariant
            i <= chars.len(),
            chars@ == text@,
            forall|j: int| 0 <= j < i ==> chars[j] != wanted,
        decreases chars.len() - i,
    {
        if chars[i] == wanted {
            assert(text@[i as int] == wanted);
            return true;
        }
        i += 1;
    }
    false
}

} // verus!

verus! {

/// How one value stands to another in an order.
#[derive(Clone, Copy, Debug, PartialEq, Eq, Structural)]
pub enum Order {
    Before,
    Same,
    After,
}

/// How the text `left` stands to the text `right` in the order of
/// dictionaries: the first character in which they differ decides, and a
/// text comes before every text that it begins.
pub open spec fn text_order(left: Seq<char>, right: Seq<char>) -> Order
    decreases left.len(),
{
    if left.len() == 0 {
        if right.len() == 0 {
            Order::Same
        } else {
            Order::Before
        }
    } else if right.len() == 0 {
        Order::After
    } else if left[0] < right[0] {
        Order::Before
    } else if left[0] > right[0] {
        Order::After
    } else {
        text_order(left.skip(1), right.skip(1))
    }
}

/// Two texts stand as the same exactly where they are the same.
pub proof fn law_text_order_same(left: Seq<char>, right: Seq<char>)
    ensures
        text_order(left, right) == Order::Same <==> left == right,
    decreases left.len(),
{
    if left.len() > 0 && right.len() > 0 {
        law_text_order_same(left.skip(1), right.skip(1));
        if left[0] == right[0] {
            if left.skip(1) == right.skip(1) {
                assert(left =~= seq![left[0]] + left.skip(1));
                assert(right =~= seq![right[0]] + right.skip(1));
            }
        }
    } else if left.len() == 0 && right.len() == 0 {
        assert(left =~= right);
    }
}

/// Says how `left` stands to `right` in the order of dictionaries.
pub fn compare_texts(left: &str, right: &str) -> (order: Order)
    ensures
        order == text_order(left@, right@),
{
    let a = chars_of(left);
    let b = chars_of(right);
    let mut i: usize = 0;
    proof {
        assert(a@.skip(0) =~= a@);
        assert(b@.skip(0) =~= b@);
    }
    loop
        invariant
            i <= a.len(),
            i <= b.len(),
            a@ == left@,
            b@ == right@,
            text_order(left@, right@) == text_order(a@.skip(i as int), b@.skip(i as int)),
        decreases a.len() - i,
    {
        if i >= a.len() {
            return if i >= b.len() {
                Order::Same
            } else {
                Order::Before
            };
        }
        if i >= b.len() {
            return Order::After;
        }
        if a[i] < b[i] {
            return Order::Before;
        }
        if a[i] > b[i] {
            return Order::After;
        }
        proof {
            assert(a@.skip(i as int).skip(1) =~= a@.skip(i as int + 1));
            assert(b@.skip(i as int).skip(1) =~= b@.skip(i as int + 1));
        }
        i += 1;
    }
}

/// A text that stands before a second, which stands before a third,
/// stands before the third.
pub proof fn lemma_text_order_transitive(first: Seq<char>, second: Seq<char>, third: Seq<char>)
    requires
        text_order(first, second) == Order::Before,
        text_order(second, third) == Order::Before,
    ensures
        text_order(first, third) == Order::Before,
    decreases first.len(),
{
    if first.len() > 0 && second.len() > 0 && third.len() > 0 {
        if first[0] == second[0] && second[0] == third[0] {
            lemma_text_order_transitive(first.skip(1), second.skip(1), third.skip(1));
        }
    }
}

/// A text stands after another exactly where the other stands before it.
pub proof fn lemma_text_order_flip(left: Seq<char>, right: Seq<char>)
    ensures
        text_order(left, right) == Order::After <==> text_order(right, left) == Order::Before,
        text_order(left, right) == Order::Same <==> text_order(right, left) == Order::Same,
    decreases left.len(),
{
    if left.len() > 0 && right.len() > 0 && left[0] == right[0] {
        lemma_text_order_flip(left.skip(1), right.skip(1));
    }
}

} // verus!
