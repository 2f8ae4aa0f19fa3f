use vstd::prelude::*;
use vstd::utf8::{char_is_scalar, encode_scalar, encode_utf8};

use super::state::InputMode;

verus! {

broadcast use vstd::string::group_string_axioms;

/// The characters of `s`, in order.
pub fn chars_of(s: &str) -> (v: Vec<char>)
    ensures
        v@ == s@,
{
    let mut v: Vec<char> = Vec::new();
    for c in it: s.chars()
        invariant
            v@ == it.history(),
    {
        v.push(c);
    }
    v
}

/// Collects characters into a `String` (std's `FromIterator<&char>` for `String`).
/// Claimed: the string holds exactly the given characters, in order.
#[verifier::external_body]
fn string_from_chars(v: &Vec<char>) -> (s: String)
    ensures
        s@ == v@,
{
    v.iter().collect()
}

/// `n` capped at `len`.
pub open spec fn clamp(n: int, len: int) -> int {
    if n < len {
        n
    } else {
        len
    }
}

/// `v` with `s` put in before the character at `index` (at the end when
/// `index` lies past the last character).
pub open spec fn insert_at(v: Seq<char>, index: int, s: Seq<char>) -> Seq<char> {
    let p = clamp(index, v.len() as int);
    v.take(p) + s + v.skip(p)
}

/// `v` without the character just before position `index`; nothing is
/// removed at position 0 or when that character lies past the end.
pub open spec fn remove_before(v: Seq<char>, index: int) -> Seq<char> {
    if index <= 0 {
        v
    } else {
        v.take(clamp(index - 1, v.len() as int)) + v.skip(clamp(index, v.len() as int))
    }
}

/// The cursor position after moving a cursor at `index` by `offset`: never
/// before the start, never past the last character.  The index is read as
/// an `isize` first, as a machine cast does.
pub open spec fn moved_cursor(index: usize, offset: isize, len: nat) -> int {
    let target = (index as isize) + offset;
    let lower = if target < 0 {
        0
    } else {
        target
    };
    clamp(lower, len as int)
}

/// The UTF-8 encoding of a concatenation is the concatenation of the encodings.
pub proof fn lemma_encode_utf8_concat(a: Seq<char>, b: Seq<char>)
    ensures
        encode_utf8(a + b) == encode_utf8(a) + encode_utf8(b),
    decreases a.len(),
{
    if a.len() == 0 {
        assert(a + b =~= b);
        assert(encode_utf8(a) =~= Seq::<u8>::empty());
        assert(encode_utf8(a) + encode_utf8(b) =~= encode_utf8(b));
    } else {
        lemma_encode_utf8_concat(a.drop_first(), b);
        assert((a + b).drop_first() =~= a.drop_first() + b);
        assert(encode_utf8(a + b) =~= encode_scalar((a + b)[0] as u32) + encode_utf8(
            a.drop_first() + b,
        ));
        assert(encode_utf8(a + b) =~= encode_utf8(a) + encode_utf8(b));
    }
}

/// The UTF-8 encoding of a single character is that character's encoding.
proof fn lemma_encode_utf8_single(c: char)
    ensures
        encode_utf8(seq![c]) == encode_scalar(c as u32),
{
    let s = seq![c];
    assert(s.drop_first() =~= Seq::<char>::empty());
    assert(encode_utf8(Seq::<char>::empty()) =~= Seq::<u8>::empty());
    assert(encode_utf8(s) == encode_scalar(s[0] as u32) + encode_utf8(s.drop_first()));
    assert(encode_scalar(c as u32) + Seq::<u8>::empty() =~= encode_scalar(c as u32));
}

/// The number of UTF-8 bytes of `c`.
fn utf8_width(c: char) -> (w: usize)
    ensures
        w == encode_scalar(c as u32).len(),
{
    proof {
        char_is_scalar(c);
    }
    let u = c as u32;
    if u <= 0x7f {
        1
    } else if u <= 0x7ff {
        2
    } else if u <= 0xffff {
        3
    } else {
        4
    }
}

/// # Input
/// A one-line text field with a cursor that counts characters.
/// ```
///  ┌─────────────────────────────────┐
///  │${value}/${placeholder} │        │
///  └─────────────────────────────────┘
/// ```
#[derive(Debug, Clone)]
pub struct Input {
    pub mode: InputMode,
    pub value: String,
    pub placeholder: String,
    /// cursor position, in characters
    pub char_index: usize,
}

impl Default for Input {
    fn default() -> (r: Self)
        ensures
            r.mode == InputMode::Normal,
            r.value@ == Seq::<char>::empty(),
            r.placeholder@ == Seq::<char>::empty(),
            r.char_index == 0,
    {
        Input {
            mode: InputMode::Normal,
            value: String::new(),
            placeholder: String::new(),
            char_index: 0,
        }
    }
}

impl Input {
    /// An empty field in normal mode with the cursor at the start.
    pub fn new() -> (r: Self)
        ensures
            r.mode == InputMode::Normal,
            r.value@ == Seq::<char>::empty(),
            r.placeholder@ == Seq::<char>::empty(),
            r.char_index == 0,
    {
        Self::default()
    }

    pub fn mode(self, mode: InputMode) -> (r: Self)
        ensures
            r.mode == mode,
            r.value == self.value,
            r.placeholder == self.placeholder,
            r.char_index == self.char_index,
    {
        let mut s = self;
        s.mode = mode;
        s
    }

    /// Sets the text and puts the cursor after its last character.
    pub fn value(self, value: String) -> (r: Self)
        ensures
            r.value == value,
            r.char_index == value@.len(),
            r.mode == self.mode,
            r.placeholder == self.placeholder,
    {
        let mut s = self;
        s.value = value;
        s.move_cursor_end();
        s
    }

    pub fn placeholder(self, placeholder: String) -> (r: Self)
        ensures
            r.placeholder == placeholder,
            r.value == self.value,
            r.mode == self.mode,
            r.char_index == self.char_index,
    {
        let mut s = self;
        s.placeholder = placeholder;
        s
    }

    /// Takes `char_index` as the cursor when the text is not empty and the
    /// index is not before its end; otherwise leaves the cursor as it is.
    pub fn char_index(self, char_index: usize) -> (r: Self)
        ensures
            r.char_index == (if self.value@.len() != 0 && self.value@.len() <= char_index {
                char_index
            } else {
                self.char_index
            }),
            r.value == self.value,
            r.mode == self.mode,
            r.placeholder == self.placeholder,
    {
        let mut s = self;
        let byte_length = s.byte_length();
        if byte_length != 0 && byte_length <= char_index {
            s.char_index = char_index;
        }
        s
    }

    /// Empties the text and puts the cursor at the start.
    pub fn reset(&mut self)
        ensures
            final(self).value@ == Seq::<char>::empty(),
            final(self).char_index == 0,
            final(self).mode == old(self).mode,
            final(self).placeholder == old(self).placeholder,
    {
        self.value = String::new();
        self.char_index = 0;
    }

    /// Moves the cursor by `offset` characters, as `moved_cursor` says.
    pub fn move_cursor(&mut self, offset: isize)
        requires
            isize::MIN <= (old(self).char_index as isize) + offset <= isize::MAX,
        ensures
            final(self).char_index == moved_cursor(old(self).char_index, offset, old(self).value@.len()),
            final(self).value == old(self).value,
            final(self).mode == old(self).mode,
            final(self).placeholder == old(self).placeholder,
    {
        #[verifier::truncate]
        let base = self.char_index as isize;
        let target = base + offset;
        let lower: usize = if target < 0 {
            0
        } else {
            target as usize
        };
        let len = self.byte_length();
        self.char_index = if lower < len {
            lower
        } else {
            len
        };
    }

    /// Puts the cursor after the last character.
    pub fn move_cursor_end(&mut self)
        ensures
            final(self).char_index == old(self).value@.len(),
            final(self).value == old(self).value,
            final(self).mode == old(self).mode,
            final(self).placeholder == old(self).placeholder,
    {
        self.char_index = self.byte_length();
    }

    /// The number of characters of the text.
    pub fn byte_length(&self) -> (n: usize)
        ensures
            n == self.value@.len(),
    {
        let chars = chars_of(self.value.as_str());
        chars.len()
    }

    /// The byte offset in the UTF-8 text of the character under the cursor,
    /// or the text's byte length when the cursor lies past the end.
    pub fn byte_index(&self) -> (b: usize)
        requires
            encode_utf8(self.value@).len() <= usize::MAX,
        ensures
            b == encode_utf8(self.value@.take(clamp(self.char_index as int, self.value@.len() as int))).len(),
    {
        let chars = chars_of(self.value.as_str());
        let ghost v = self.value@;
        let p = if self.char_index < chars.len() {
            self.char_index
        } else {
            chars.len()
        };
        proof {
            assert(v =~= v.take(p as int) + v.skip(p as int));
            lemma_encode_utf8_concat(v.take(p as int), v.skip(p as int));
        }
        let mut i: usize = 0;
        let mut total: usize = 0;
        while i < p
            invariant
                chars@ == v,
                p <= v.len(),
                i <= p,
                total == encode_utf8(v.take(i as int)).len(),
                encode_utf8(v.take(p as int)).len() <= usize::MAX,
            decreases p - i,
        {
            proof {
                assert(v.take(i + 1) =~= v.take(i as int) + seq![v[i as int]]);
                lemma_encode_utf8_concat(v.take(i as int), seq![v[i as int]]);
                lemma_encode_utf8_single(v[i as int]);
                assert(v.take(p as int) =~= v.take(i + 1) + v.skip(i + 1).take(p - i - 1));
                lemma_encode_utf8_concat(v.take(i + 1), v.skip(i + 1).take(p - i - 1));
            }
            total = total + utf8_width(chars[i]);
            i = i + 1;
        }
        total
    }

    /// Puts `s` in at the cursor and moves the cursor past it.
    pub fn input(&mut self, s: &str)
        requires
            old(self).char_index + s@.len() <= usize::MAX,
        ensures
            final(self).value@ == insert_at(old(self).value@, old(self).char_index as int, s@),
            final(self).char_index == old(self).char_index + s@.len(),
            final(self).mode == old(self).mode,
            final(self).placeholder == old(self).placeholder,
    {
        let cur = chars_of(self.value.as_str());
        let add = chars_of(s);
        let p = if self.char_index < cur.len() {
            self.char_index
        } else {
            cur.len()
        };
        let mut out: Vec<char> = Vec::new();
        let mut i: usize = 0;
        while i < p
            invariant
                p <= cur.len(),
                i <= p,
                out@ == cur@.take(i as int),
            decreases p - i,
        {
            out.push(cur[i]);
            i = i + 1;
            assert(out@ =~= cur@.take(i as int));
        }
        let mut j: usize = 0;
        while j < add.len()
            invariant
                j <= add.len(),
                out@ == cur@.take(p as int) + add@.take(j as int),
            decreases add.len() - j,
        {
            out.push(add[j]);
            j = j + 1;
            assert(out@ =~= cur@.take(p as int) + add@.take(j as int));
        }
        let mut k: usize = p;
        while k < cur.len()
            invariant
                p <= k <= cur.len(),
                out@ == cur@.take(p as int) + add@ + cur@.subrange(p as int, k as int),
            decreases cur.len() - k,
        {
            out.push(cur[k]);
            k = k + 1;
            assert(out@ =~= cur@.take(p as int) + add@ + cur@.subrange(p as int, k as int));
        }
        assert(add@.take(add@.len() as int) =~= add@);
        assert(cur@.subrange(p as int, cur@.len() as int) =~= cur@.skip(p as int));
        self.value = string_from_chars(&out);
        self.char_index = self.char_index + add.len();
    }

    /// Removes the character before the cursor and moves the cursor back by one.
    pub fn delete(&mut self)
        requires
            old(self).char_index == 0 || (old(self).char_index as isize) - 1 >= isize::MIN,
        ensures
            final(self).value@ == remove_before(old(self).value@, old(self).char_index as int),
            old(self).char_index == 0 ==> final(self).char_index == 0,
            old(self).char_index != 0 ==> final(self).char_index == moved_cursor(
                old(self).char_index,
                -1isize,
                final(self).value@.len(),
            ),
            (final(self).value@, final(self).char_index) == after_delete(old(self).value@, old(self).char_index),
            final(self).mode == old(self).mode,
            final(self).placeholder == old(self).placeholder,
    {
        if self.char_index == 0 {
            return ;
        }
        let cur = chars_of(self.value.as_str());
        let d = self.char_index - 1;
        let left = if d < cur.len() {
            d
        } else {
            cur.len()
        };
        let right = if self.char_index < cur.len() {
            self.char_index
        } else {
            cur.len()
        };
        let mut out: Vec<char> = Vec::new();
        let mut i: usize = 0;
        while i < left
            invariant
                left <= cur.len(),
                i <= left,
                out@ == cur@.take(i as int),
            decreases left - i,
        {
            out.push(cur[i]);
            i = i + 1;
            assert(out@ =~= cur@.take(i as int));
        }
        let mut k: usize = right;
        while k < cur.len()
            invariant
                right <= k <= cur.len(),
                out@ == cur@.take(left as int) + cur@.subrange(right as int, k as int),
            decreases cur.len() - k,
        {
            out.push(cur[k]);
            k = k + 1;
            assert(out@ =~= cur@.take(left as int) + cur@.subrange(right as int, k as int));
        }
        assert(cur@.subrange(right as int, cur@.len() as int) =~= cur@.skip(right as int));
        self.value = string_from_chars(&out);
        self.move_cursor(-1);
    }
}

/// Typing keeps a cursor that lies within the text within the text: the
/// text grows by what was typed and the cursor moves past it.
pub proof fn lemma_input_cursor_in_text(v: Seq<char>, index: int, s: Seq<char>)
    requires
        0 <= index <= v.len(),
    ensures
        insert_at(v, index, s).len() == v.len() + s.len(),
        index + s.len() <= insert_at(v, index, s).len(),
        insert_at(v, index, s).subrange(index, index + s.len()) == s,
{
    assert(insert_at(v, index, s).subrange(index, index + s.len()) =~= s);
}

/// Deleting keeps a cursor that lies within the text within the text.
pub proof fn lemma_delete_cursor_in_text(v: Seq<char>, index: usize)
    requires
        1 <= index <= v.len(),
        index <= isize::MAX,
    ensures
        remove_before(v, index as int).len() == v.len() - 1,
        moved_cursor(index, -1isize, remove_before(v, index as int).len()) == index - 1,
{
    assert((index as isize) == index as int);
}

/// Deleting right after typing one character takes that character out
/// again and puts the cursor back where it was.
pub proof fn lemma_delete_undoes_input(v: Seq<char>, index: usize, c: char)
    requires
        index <= v.len(),
        index + 1 <= isize::MAX,
    ensures
        remove_before(insert_at(v, index as int, seq![c]), index + 1) == v,
        moved_cursor((index + 1) as usize, -1isize, v.len()) == index,
{
    let w = insert_at(v, index as int, seq![c]);
    assert(w.take(index as int) =~= v.take(index as int));
    assert(w.skip(index + 1) =~= v.skip(index as int));
    assert(v.take(index as int) + v.skip(index as int) =~= v);
    assert(((index + 1) as usize as isize) == index + 1);
}


/// The text and cursor after one `delete` on text `v` with the cursor at `i`.
pub open spec fn after_delete(v: Seq<char>, i: usize) -> (Seq<char>, usize) {
    let w = remove_before(v, i as int);
    (w, if i == 0 {
        0usize
    } else {
        moved_cursor(i, -1isize, w.len()) as usize
    })
}

/// The text and cursor after `n` calls of `delete`.
pub open spec fn after_deletes(v: Seq<char>, i: usize, n: nat) -> (Seq<char>, usize)
    decreases n,
{
    if n == 0 {
        (v, i)
    } else {
        let p = after_deletes(v, i, (n - 1) as nat);
        after_delete(p.0, p.1)
    }
}

/// Deleting `j` times after typing `s` at `k` takes the last `j` typed
/// characters out again.
proof fn lemma_deletes_partway(v: Seq<char>, k: usize, s: Seq<char>, j: nat)
    requires
        k <= v.len(),
        k + s.len() <= isize::MAX,
        j <= s.len(),
    ensures
        after_deletes(insert_at(v, k as int, s), (k + s.len()) as usize, j).0 == v.take(k as int)
            + s.take(s.len() - j) + v.skip(k as int),
        after_deletes(insert_at(v, k as int, s), (k + s.len()) as usize, j).1 == k + s.len() - j,
    decreases j,
{
    let start = insert_at(v, k as int, s);
    if j == 0 {
        assert(s.take(s.len() as int) =~= s);
        assert(start =~= v.take(k as int) + s.take(s.len() - j) + v.skip(k as int));
    } else {
        lemma_deletes_partway(v, k, s, (j - 1) as nat);
        let p = after_deletes(start, (k + s.len()) as usize, (j - 1) as nat);
        let w = p.0;
        let i = p.1;
        assert(i == k + s.len() - j + 1);
        assert(w.len() == v.len() + s.len() - j + 1);
        lemma_delete_cursor_in_text(w, i);
        let after = remove_before(w, i as int);
        assert(after =~= v.take(k as int) + s.take(s.len() - j) + v.skip(k as int));
    }
}

/// Typing `s` and then deleting as many characters gives back the text
/// and the cursor one started with.
pub proof fn lemma_deletes_undo_input(v: Seq<char>, k: usize, s: Seq<char>)
    requires
        k <= v.len(),
        k + s.len() <= isize::MAX,
    ensures
        after_deletes(insert_at(v, k as int, s), (k + s.len()) as usize, s.len()) == (v, k),
{
    lemma_deletes_partway(v, k, s, s.len());
    assert(v.take(k as int) + s.take(0) + v.skip(k as int) =~= v);
}

} // verus!
