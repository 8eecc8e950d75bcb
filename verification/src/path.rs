use vstd::prelude::*;

use crate::text::{chars_of, split_at_char, split_chars, string_from_chars, views};

verus! {

/// A segment that a sync path may not hold: empty, `.` or `..`.
pub open spec fn is_bad_segment(seg: Seq<char>) -> bool {
    seg.len() == 0 || seg == seq!['.'] || seg == seq!['.', '.']
}

/// `seg` is the first bad segment of `segs`.
pub open spec fn is_first_bad_segment(segs: Seq<Seq<char>>, seg: Seq<char>) -> bool {
    exists|i: int|
        0 <= i < segs.len() && segs[i] == seg && is_bad_segment(seg) && forall|j: int|
            0 <= j < i ==> !is_bad_segment(#[trigger] segs[j])
}

/// A valid data-root-relative path: non-empty, no leading `/`, no backslash,
/// and no empty, `.` or `..` segment between the `/` separators.
pub open spec fn valid_sync_path(s: Seq<char>) -> bool {
    &&& s.len() > 0
    &&& s[0] != '/'
    &&& !s.contains('\\')
    &&& forall|i: int|
        0 <= i < split_at_char(s, '/').len() ==> !is_bad_segment(
            #[trigger] split_at_char(s, '/')[i],
        )
}

/// A validated, data-root-relative file path used on the wire.
#[derive(Debug, PartialEq, Eq, Hash)]
pub struct SyncPath(String);

impl Clone for SyncPath {
    fn clone(&self) -> (r: Self)
        ensures
            r@ == self@,
    {
        proof {
            use_type_invariant(self);
        }
        SyncPath(self.0.clone())
    }
}

impl View for SyncPath {
    type V = Seq<char>;

    closed spec fn view(&self) -> Seq<char> {
        self.0@
    }
}

impl SyncPath {
    #[verifier::type_invariant]
    closed spec fn inv(self) -> bool {
        valid_sync_path(self.0@)
    }

    pub fn new(raw: &str) -> (r: Result<SyncPath, SyncPathError>)
        ensures
            r is Ok <==> valid_sync_path(raw@),
            r matches Ok(p) ==> p@ == raw@,
            r matches Err(e) ==> e.describes(raw@),
    {
        let value = raw.to_owned();
        match validate_sync_path(&value) {
            Ok(()) => Ok(SyncPath(value)),
            Err(e) => Err(e),
        }
    }

    pub fn as_str(&self) -> (s: &str)
        ensures
            s@ == self@,
    {
        self.0.as_str()
    }

    /// The path as an owned string.
    pub fn to_string(&self) -> (s: String)
        ensures
            s@ == self@,
    {
        self.0.clone()
    }

    /// Gives up the path, keeping its text.
    pub fn into_string(self) -> (s: String)
        ensures
            s@ == self@,
    {
        self.0
    }
}

#[derive(Debug)]
pub enum SyncPathError {
    Empty,
    LeadingSlash,
    Backslash,
    InvalidComponent(String),
}

impl SyncPathError {
    /// The error is the one reported for the invalid path `s`: the checks run in
    /// the order empty, leading slash, backslash, then segments from the left.
    pub open spec fn describes(&self, s: Seq<char>) -> bool {
        match self {
            SyncPathError::Empty => s.len() == 0,
            SyncPathError::LeadingSlash => s.len() > 0 && s[0] == '/',
            SyncPathError::Backslash => s.len() > 0 && s[0] != '/' && s.contains('\\'),
            SyncPathError::InvalidComponent(seg) => {
                &&& s.len() > 0
                &&& s[0] != '/'
                &&& !s.contains('\\')
                &&& is_first_bad_segment(split_at_char(s, '/'), seg@)
            },
        }
    }

    /// The message that the error shows.
    pub open spec fn text(&self) -> Seq<char> {
        match self {
            SyncPathError::Empty => "path is empty"@,
            SyncPathError::LeadingSlash => "path must not start with '/'"@,
            SyncPathError::Backslash => "path must use '/' separators, found backslash"@,
            SyncPathError::InvalidComponent(seg) => "path contains invalid component: \""@ + seg@ + "\""@,
        }
    }

    pub fn message(&self) -> (s: String)
        ensures
            s@ == self.text(),
    {
        match self {
            SyncPathError::Empty => "path is empty".to_string(),
            SyncPathError::LeadingSlash => "path must not start with '/'".to_string(),
            SyncPathError::Backslash => "path must use '/' separators, found backslash".to_string(),
            SyncPathError::InvalidComponent(seg) => {
                let mut m = "path contains invalid component: \"".to_string();
                m.append(seg.as_str());
                m.append("\"");
                m
            },
        }
    }
}

fn is_bad_segment_exec(seg: &Vec<char>) -> (b: bool)
    ensures
        b == is_bad_segment(seg@),
{
    if seg.len() == 0 {
        true
    } else if seg.len() == 1 {
        assert(seg@ == seq!['.'] <==> seg@[0] == '.') by {
            if seg@[0] == '.' {
                assert(seg@ =~= seq!['.']);
            }
        }
        seg[0] == '.'
    } else if seg.len() == 2 {
        assert(seg@ == seq!['.', '.'] <==> (seg@[0] == '.' && seg@[1] == '.')) by {
            if seg@[0] == '.' && seg@[1] == '.' {
                assert(seg@ =~= seq!['.', '.']);
            }
        }
        seg[0] == '.' && seg[1] == '.'
    } else {
        assert(seg@ != seq!['.'] && seg@ != seq!['.', '.']) by {
            assert(seq!['.'].len() == 1);
            assert(seq!['.', '.'].len() == 2);
        }
        false
    }
}

fn validate_sync_path(value: &String) -> (r: Result<(), SyncPathError>)
    ensures
        r is Ok <==> valid_sync_path(value@),
        r matches Err(e) ==> e.describes(value@),
{
    let cs = chars_of(value.as_str());
    if cs.len() == 0 {
        return Err(SyncPathError::Empty);
    }
    if cs[0] == '/' {
        return Err(SyncPathError::LeadingSlash);
    }
    let mut i: usize = 0;
    while i < cs.len()
        invariant
            i <= cs@.len(),
            cs@ == value@,
            cs@.len() > 0,
            cs@[0] != '/',
            forall|j: int| 0 <= j < i ==> cs@[j] != '\\',
        decreases cs@.len() - i,
    {
        if cs[i] == '\\' {
            assert(value@[i as int] == '\\');
            return Err(SyncPathError::Backslash);
        }
        i = i + 1;
    }
    assert(!cs@.contains('\\'));
    let segs = split_chars(&cs, '/');
    let mut k: usize = 0;
    while k < segs.len()
        invariant
            k <= segs@.len(),
            views(segs@) == split_at_char(cs@, '/'),
            cs@ == value@,
            cs@.len() > 0,
            cs@[0] != '/',
            !cs@.contains('\\'),
            forall|j: int| 0 <= j < k ==> !is_bad_segment(#[trigger] views(segs@)[j]),
        decreases segs@.len() - k,
    {
        if is_bad_segment_exec(&segs[k]) {
            let seg = string_from_chars(segs[k].as_slice());
            assert(views(segs@)[k as int] == segs@[k as int]@);
            return Err(SyncPathError::InvalidComponent(seg));
        }
        k = k + 1;
    }
    Ok(())
}

} // verus!
