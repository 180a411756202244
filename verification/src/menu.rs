//! Menus: a list of items with one of them active.

use vstd::prelude::*;

verus! {

/// One entry of a menu: the text shown and the id reported on selection.
#[derive(Copy, Clone, Debug)]
pub struct MenuItem<'a> {
    pub label: &'a str,
    pub id: &'a str,
}

/// A menu with a title, its items and the index of the active item.
#[derive(Debug)]
pub struct Menu<'a> {
    pub title: &'a str,
    pub items: Vec<MenuItem<'a>>,
    pub active_index: usize,
    pub is_visible: bool,
}

/// One frame's menu input.
#[derive(Copy, Clone, Debug)]
pub struct MenuInput {
    pub up: bool,
    pub down: bool,
    pub select: bool,
}

/// The index that is active after the given keys were pressed on a menu of
/// `len` items with item `active` active: one up, one down, both or
/// neither, wrapping around at either end.
pub open spec fn moved_index(active: int, len: int, up: bool, down: bool) -> int {
    (active + (if down {
        1int
    } else {
        0
    }) - (if up {
        1int
    } else {
        0
    })) % len
}

impl<'a> Menu<'a> {
    /// A hidden menu with its first item active.
    pub fn new(title: &'a str, items: Vec<MenuItem<'a>>) -> (menu: Self)
        ensures
            menu.title == title,
            menu.items == items,
            menu.active_index == 0,
            !menu.is_visible,
    {
        Self { title, items, active_index: 0, is_visible: false }
    }

    /// Takes one frame's input. A hidden menu ignores it. A visible menu
    /// returns the id of the active item on `select`, and otherwise moves
    /// the active index.
    ///
    /// A visible menu has to have an item, and the active index has to be
    /// one of its items when `select` is pressed.
    pub fn update(&mut self, input: MenuInput) -> (selected: Option<&'a str>)
        requires
            old(self).is_visible ==> old(self).items@.len() > 0,
            old(self).is_visible && input.select ==> old(self).active_index < old(self).items@.len(),
        ensures
            final(self).title == old(self).title,
            final(self).items == old(self).items,
            final(self).is_visible == old(self).is_visible,
            selected == (if old(self).is_visible && input.select {
                Some(old(self).items@[old(self).active_index as int].id)
            } else {
                None
            }),
            final(self).active_index == (if old(self).is_visible && !input.select {
                moved_index(
                    old(self).active_index as int,
                    old(self).items@.len() as int,
                    input.up,
                    input.down,
                )
            } else {
                old(self).active_index as int
            }),
    {
        if !self.is_visible {
            return None;
        }
        if input.select {
            return Some(self.items[self.active_index].id);
        }
        let len = self.items.len();
        let current = self.active_index % len;
        let next_index = if input.up && !input.down {
            if current == 0 {
                len - 1
            } else {
                current - 1
            }
        } else if input.down && !input.up {
            if current == len - 1 {
                0
            } else {
                current + 1
            }
        } else {
            current
        };
        proof {
            lemma_moved_index(self.active_index as int, len as int, input.up, input.down);
        }
        self.active_index = next_index;
        None
    }
}

/// Moving the index by one, with wrap-around, in terms of its remainder.
proof fn lemma_moved_index(active: int, len: int, up: bool, down: bool)
    requires
        0 <= active,
        0 < len,
    ensures
        moved_index(active, len, up, down) == (if up && !down {
            if active % len == 0 {
                len - 1
            } else {
                active % len - 1
            }
        } else if down && !up {
            if active % len == len - 1 {
                0
            } else {
                active % len + 1
            }
        } else {
            active % len
        }),
{
    let q = active / len;
    let r = active % len;
    assert(active == q * len + r && 0 <= r < len) by (nonlinear_arith)
        requires
            q == active / len,
            r == active % len,
            0 < len,
            0 <= active,
    ;
    if up && !down {
        if r == 0 {
            assert((active - 1) % len == len - 1) by (nonlinear_arith)
                requires
                    active == q * len,
                    0 < len,
            ;
        } else {
            assert((active - 1) % len == r - 1) by (nonlinear_arith)
                requires
                    active == q * len + r,
                    0 < r < len,
            ;
        }
    } else if down && !up {
        if r == len - 1 {
            assert((active + 1) % len == 0) by (nonlinear_arith)
                requires
                    active == q * len + len - 1,
                    0 < len,
            ;
        } else {
            assert((active + 1) % len == r + 1) by (nonlinear_arith)
                requires
                    active == q * len + r,
                    0 <= r < len - 1,
            ;
        }
    }
}

} // verus!
