use vstd::prelude::*;

verus! {

/// A key the terminal interface reacts to.
#[derive(Debug, Clone, Copy, PartialEq, Eq, Structural)]
pub enum Key {
    Char(char),
    Enter,
    Esc,
    Up,
    Down,
    Left,
    Right,
    Tab,
    BackTab,
    Backspace,
    Delete,
    Home,
    End,
    Other,
}

/// The entry after `i` in a menu of `len` entries, wrapping to the first.
pub open spec fn menu_after(i: int, len: int) -> int {
    (i + 1) % len
}

/// The entry before `i` in a menu of `len` entries, wrapping to the last.
pub open spec fn menu_before(i: int, len: int) -> int {
    (i + len - 1) % len
}

/// Moves a menu selection down, wrapping.
pub fn menu_next(i: usize, len: usize) -> (r: usize)
    requires
        0 < len,
        i < len,
    ensures
        r == menu_after(i as int, len as int),
        r < len,
{
    if i + 1 == len {
        assert((i + 1) % (len as int) == 0) by (nonlinear_arith)
            requires
                i + 1 == len,
        ;
        0
    } else {
        assert((i + 1) % (len as int) == i + 1) by (nonlinear_arith)
            requires
                i + 1 < len,
        ;
        i + 1
    }
}

/// Moves a menu selection up, wrapping.
pub fn menu_prev(i: usize, len: usize) -> (r: usize)
    requires
        0 < len,
        i < len,
    ensures
        r == menu_before(i as int, len as int),
        r < len,
{
    if i == 0 {
        assert((len - 1) % (len as int) == len - 1) by (nonlinear_arith)
            requires
                len > 0,
        ;
        len - 1
    } else {
        assert((i + len - 1) % (len as int) == i - 1) by (nonlinear_arith)
            requires
                0 < i < len,
        ;
        i - 1
    }
}

/// Moving down then up, or up then down, comes back to the same entry.
pub proof fn lemma_menu_round_trip(i: int, len: int)
    requires
        0 <= i < len,
    ensures
        menu_before(menu_after(i, len), len) == i,
        menu_after(menu_before(i, len), len) == i,
{
    if i + 1 < len {
        assert((i + 1) % len == i + 1) by (nonlinear_arith)
            requires
                0 <= i,
                i + 1 < len,
        ;
        assert((i + 1 + len - 1) % len == i) by (nonlinear_arith)
            requires
                0 <= i < len,
        ;
    } else {
        assert((i + 1) % len == 0) by (nonlinear_arith)
            requires
                i + 1 == len,
                len > 0,
        ;
        assert((0 + len - 1) % len == i) by (nonlinear_arith)
            requires
                i + 1 == len,
                i >= 0,
        ;
    }
    if i == 0 {
        assert((i + len - 1) % len == len - 1) by (nonlinear_arith)
            requires
                i == 0,
                len > 0,
        ;
        assert((len - 1 + 1) % len == 0) by (nonlinear_arith)
            requires
                len > 0,
        ;
    } else {
        assert((i + len - 1) % len == i - 1) by (nonlinear_arith)
            requires
                0 < i < len,
        ;
        assert((i - 1 + 1) % len == i) by (nonlinear_arith)
            requires
                0 < i < len,
        ;
    }
}

} // verus!
