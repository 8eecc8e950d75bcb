use vstd::prelude::*;

use crate::text::{chars_of, string_from_chars};
use crate::tui::keys::Key;

verus! {

/// The text with the cursor mark inserted at the cursor.
pub open spec fn visual(v: (Seq<char>, nat)) -> Seq<char> {
    v.0.take(v.1 as int) + seq![cursor_mark()] + v.0.skip(v.1 as int)
}

/// A one-line text field with a cursor between characters.
#[derive(Debug)]
pub struct TextInput {
    value: String,
    cursor: usize,
}

impl Clone for TextInput {
    fn clone(&self) -> (r: Self)
        ensures
            r@ == self@,
    {
        proof {
            use_type_invariant(self);
        }
        TextInput { value: self.value.clone(), cursor: self.cursor }
    }
}

/// The cursor mark that `visualize` shows.
pub open spec fn cursor_mark() -> char {
    '▏'
}

/// What a key does to a field holding `v` with the cursor before the
/// character at `c`: the new text, the new cursor, and whether the key was
/// taken. A character is inserted at the cursor; Backspace removes the
/// character before the cursor and Delete the one after it; the arrows move
/// the cursor by one, Home and End to the ends; a key that cannot act is not
/// taken and changes nothing.
pub open spec fn key_effect(v: Seq<char>, c: nat, key: Key) -> (Seq<char>, nat, bool) {
    match key {
        Key::Char(ch) => (v.take(c as int) + seq![ch] + v.skip(c as int), c + 1, true),
        Key::Backspace => if c == 0 {
            (v, c, false)
        } else {
            (v.take(c - 1) + v.skip(c as int), (c - 1) as nat, true)
        },
        Key::Delete => if c >= v.len() {
            (v, c, false)
        } else {
            (v.take(c as int) + v.skip(c + 1 as int), c, true)
        },
        Key::Left => if c == 0 {
            (v, c, false)
        } else {
            (v, (c - 1) as nat, true)
        },
        Key::Right => if c >= v.len() {
            (v, c, false)
        } else {
            (v, c + 1, true)
        },
        Key::Home => (v, 0, true),
        Key::End => (v, v.len(), true),
        _ => (v, c, false),
    }
}

impl View for TextInput {
    type V = (Seq<char>, nat);

    closed spec fn view(&self) -> (Seq<char>, nat) {
        (self.value@, self.cursor as nat)
    }
}

impl TextInput {
    #[verifier::type_invariant]
    closed spec fn inv(self) -> bool {
        self.cursor <= self.value@.len()
    }

    /// A field holding `value`, with the cursor at its end.
    pub fn new(value: String) -> (t: Self)
        ensures
            t@ == (value@, value@.len()),
    {
        let n = chars_of(value.as_str()).len();
        TextInput { value, cursor: n }
    }

    /// The text of the field.
    pub fn value(&self) -> (s: &str)
        ensures
            s@ == self@.0,
    {
        self.value.as_str()
    }

    /// The text with the cursor mark at the cursor.
    pub fn visualize(&self) -> (s: String)
        ensures
            s@ == visual(self@),
    {
        proof {
            use_type_invariant(self);
        }
        let cs = chars_of(self.value.as_str());
        let mut out: Vec<char> = Vec::new();
        let mut i: usize = 0;
        while i < cs.len()
            invariant
                i <= cs@.len(),
                cs@ == self.value@,
                self.cursor <= cs@.len(),
                i <= self.cursor ==> out@ == cs@.take(i as int),
                i > self.cursor ==> out@ == cs@.take(self.cursor as int) + seq![cursor_mark()]
                    + cs@.subrange(self.cursor as int, i as int),
            decreases cs@.len() - i,
        {
            if i == self.cursor {
                out.push('▏');
            }
            out.push(cs[i]);
            i = i + 1;
            assert(out@ =~= (if i <= self.cursor {
                cs@.take(i as int)
            } else {
                cs@.take(self.cursor as int) + seq![cursor_mark()] + cs@.subrange(self.cursor as int, i as int)
            }));
        }
        if self.cursor == cs.len() {
            out.push('▏');
            assert(cs@.take(self.cursor as int) =~= cs@);
        }
        assert(cs@.subrange(self.cursor as int, cs@.len() as int) =~= cs@.skip(self.cursor as int));
        assert(cs@.skip(cs@.len() as int) =~= Seq::<char>::empty());
        assert(out@ =~= cs@.take(self.cursor as int) + seq![cursor_mark()] + cs@.skip(self.cursor as int));
        string_from_chars(out.as_slice())
    }

    /// Where the cursor stands, in characters from the start.
    pub fn cursor(&self) -> (c: usize)
        ensures
            c == self@.1,
            c <= self@.0.len(),
    {
        proof {
            use_type_invariant(self);
        }
        self.cursor
    }

    /// Replaces the text and puts the cursor at its end.
    pub fn set(&mut self, value: String)
        ensures
            final(self)@ == (value@, value@.len()),
    {
        let n = chars_of(value.as_str()).len();
        *self = TextInput { value, cursor: n };
    }

    /// Applies a key; says whether the key was taken.
    pub fn handle_key(&mut self, key: Key) -> (taken: bool)
        requires
            old(self)@.0.len() < usize::MAX,
        ensures
            (final(self)@.0, final(self)@.1, taken) == key_effect(old(self)@.0, old(self)@.1, key),
    {
        proof {
            use_type_invariant(&*self);
        }
        let cs = chars_of(self.value.as_str());
        let c = self.cursor;
        match key {
            Key::Char(ch) => {
                let mut out: Vec<char> = Vec::new();
                let mut i: usize = 0;
                while i < c
                    invariant
                        i <= c <= cs@.len(),
                        out@ == cs@.take(i as int),
                    decreases c - i,
                {
                    out.push(cs[i]);
                    i = i + 1;
                    assert(out@ =~= cs@.take(i as int));
                }
                out.push(ch);
                let mut j: usize = c;
                while j < cs.len()
                    invariant
                        c <= j <= cs@.len(),
                        out@ == cs@.take(c as int) + seq![ch] + cs@.subrange(c as int, j as int),
                    decreases cs@.len() - j,
                {
                    out.push(cs[j]);
                    j = j + 1;
                    assert(out@ =~= cs@.take(c as int) + seq![ch] + cs@.subrange(c as int, j as int));
                }
                assert(cs@.subrange(c as int, cs@.len() as int) =~= cs@.skip(c as int));
                *self = TextInput { value: string_from_chars(out.as_slice()), cursor: c + 1 };
                true
            },
            Key::Backspace => {
                if c == 0 {
                    return false;
                }
                *self = TextInput { value: remove_at(&cs, c - 1), cursor: c - 1 };
                true
            },
            Key::Delete => {
                if c >= cs.len() {
                    return false;
                }
                *self = TextInput { value: remove_at(&cs, c), cursor: c };
                true
            },
            Key::Left => {
                if c == 0 {
                    return false;
                }
                self.cursor = c - 1;
                true
            },
            Key::Right => {
                if c >= cs.len() {
                    return false;
                }
                self.cursor = c + 1;
                true
            },
            Key::Home => {
                self.cursor = 0;
                true
            },
            Key::End => {
                self.cursor = cs.len();
                true
            },
            _ => false,
        }
    }
}

/// The text of `cs` without the character at `k`.
fn remove_at(cs: &Vec<char>, k: usize) -> (s: String)
    requires
        k < cs@.len(),
    ensures
        s@ == cs@.take(k as int) + cs@.skip(k + 1),
{
    let mut out: Vec<char> = Vec::new();
    let mut i: usize = 0;
    while i < cs.len()
        invariant
            i <= cs@.len(),
            k < cs@.len(),
            i <= k ==> out@ == cs@.take(i as int),
            i > k ==> out@ == cs@.take(k as int) + cs@.subrange(k + 1, i as int),
        decreases cs@.len() - i,
    {
        if i != k {
            out.push(cs[i]);
        }
        i = i + 1;
        assert(out@ =~= (if i <= k {
            cs@.take(i as int)
        } else {
            cs@.take(k as int) + cs@.subrange(k + 1, i as int)
        }));
    }
    assert(cs@.subrange(k + 1, cs@.len() as int) =~= cs@.skip(k + 1));
    string_from_chars(out.as_slice())
}

/// Typing a character and then Backspace leaves the field as it was.
pub proof fn lemma_insert_then_backspace(v: Seq<char>, c: nat, ch: char)
    requires
        c <= v.len(),
    ensures
        ({
            let (v1, c1, t1) = key_effect(v, c, Key::Char(ch));
            let (v2, c2, t2) = key_effect(v1, c1, Key::Backspace);
            t1 && t2 && v2 == v && c2 == c
        }),
{
    let v1 = v.take(c as int) + seq![ch] + v.skip(c as int);
    assert(v1.take(c as int) =~= v.take(c as int));
    assert(v1.skip(c + 1 as int) =~= v.skip(c as int));
    assert(v1.take(c as int) + v1.skip(c + 1 as int) =~= v);
}

/// Every key keeps the cursor within the text.
pub proof fn lemma_key_keeps_cursor(v: Seq<char>, c: nat, key: Key)
    requires
        c <= v.len(),
    ensures
        ({
            let (v1, c1, t) = key_effect(v, c, key);
            c1 <= v1.len()
        }),
{
}

} // verus!
