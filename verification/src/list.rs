//! A list with one selected position, as the file list and the task list
//! both are.

use vstd::prelude::*;
use crate::error::KeyError;
use crate::key::Key;
use vstd::arithmetic::div_mod::lemma_add_mod_noop;
use vstd::arithmetic::div_mod::lemma_small_mod;

verus! {

/// The selection after a step down: it wraps from the last item to the
/// first.  No selection stays none, and in an empty list nothing is
/// selected.
pub open spec fn next_index(index: Option<usize>, len: nat) -> Option<usize> {
    match index {
        None => None,
        Some(i) => if len == 0 {
            None
        } else {
            Some(((i + 1) % (len as int)) as usize)
        },
    }
}

/// The selection after a step up: it wraps from the first item to the last.
pub open spec fn prev_index(index: Option<usize>, len: nat) -> Option<usize> {
    match index {
        None => None,
        Some(i) => if i == 0 {
            if len == 0 {
                None
            } else {
                Some((len - 1) as usize)
            }
        } else {
            Some((i - 1) as usize)
        },
    }
}

/// The first position, if there is one.
pub open spec fn first_index(len: nat) -> Option<usize> {
    if len == 0 {
        None
    } else {
        Some(0)
    }
}

/// The last position, if there is one.
pub open spec fn last_index(len: nat) -> Option<usize> {
    if len == 0 {
        None
    } else {
        Some((len - 1) as usize)
    }
}

/// The position that counts as selected: the stored one, or the first when
/// none is stored; none when that position is not in the list.
pub open spec fn selected_index(index: Option<usize>, len: nat) -> Option<usize> {
    let i = match index {
        Some(i) => i,
        None => 0usize,
    };
    if i < len {
        Some(i)
    } else {
        None
    }
}

/// A step of the selection.
#[derive(Clone, Copy, Debug, PartialEq, Eq, Structural)]
pub enum ListOp {
    Next,
    Prev,
    First,
    Last,
}

/// The step that a key asks for, if it asks for one.
pub open spec fn list_op(key: Key) -> Option<ListOp> {
    match key {
        Key::Down => Some(ListOp::Next),
        Key::Up => Some(ListOp::Prev),
        Key::Home => Some(ListOp::First),
        Key::End => Some(ListOp::Last),
        Key::Char(c) => if c == 'j' {
            Some(ListOp::Next)
        } else if c == 'k' {
            Some(ListOp::Prev)
        } else if c == 'g' {
            Some(ListOp::First)
        } else if c == 'G' {
            Some(ListOp::Last)
        } else {
            None
        },
        Key::Ctrl(c) => if c == 'n' {
            Some(ListOp::Next)
        } else if c == 'p' {
            Some(ListOp::Prev)
        } else {
            None
        },
        _ => None,
    }
}

/// The selection after a step.
pub open spec fn moved(index: Option<usize>, len: nat, op: ListOp) -> Option<usize> {
    match op {
        ListOp::Next => next_index(index, len),
        ListOp::Prev => prev_index(index, len),
        ListOp::First => first_index(len),
        ListOp::Last => last_index(len),
    }
}

/// The step that a key asks for, if it asks for one.
pub fn list_op_of(key: Key) -> (r: Option<ListOp>)
    ensures
        r == list_op(key),
{
    match key {
        Key::Down => Some(ListOp::Next),
        Key::Up => Some(ListOp::Prev),
        Key::Home => Some(ListOp::First),
        Key::End => Some(ListOp::Last),
        Key::Char(c) => if c == 'j' {
            Some(ListOp::Next)
        } else if c == 'k' {
            Some(ListOp::Prev)
        } else if c == 'g' {
            Some(ListOp::First)
        } else if c == 'G' {
            Some(ListOp::Last)
        } else {
            None
        },
        Key::Ctrl(c) => if c == 'n' {
            Some(ListOp::Next)
        } else if c == 'p' {
            Some(ListOp::Prev)
        } else {
            None
        },
        _ => None,
    }
}

/// A list of items of which one may be selected.  The type says what its
/// items and its selection are; the trait moves the selection.
pub trait ListExt: Sized {
    type Item;

    /// The stored selection.
    spec fn index(&self) -> Option<usize>;

    /// The items.
    spec fn list(&self) -> Seq<Self::Item>;

    /// This value with another selection and nothing else changed.
    spec fn with_index(self, index: Option<usize>) -> Self;

    fn get_index(&self) -> (r: Option<usize>)
        ensures
            r == self.index(),
    ;

    fn get_list(&self) -> (r: &[Self::Item])
        ensures
            r@ == self.list(),
    ;

    fn select(&mut self, index: Option<usize>)
        ensures
            *final(self) == old(self).with_index(index),
    ;

    /// The selected item.
    fn selected(&self) -> (r: Option<&Self::Item>)
        ensures
            match selected_index(self.index(), self.list().len()) {
                Some(i) => r == Some(&self.list()[i as int]),
                None => r is None,
            },
    {
        let list = self.get_list();
        let i = match self.get_index() {
            Some(i) => i,
            None => 0,
        };
        if i < list.len() {
            Some(&list[i])
        } else {
            None
        }
    }

    fn select_first(&mut self)
        ensures
            *final(self) == old(self).with_index(first_index(old(self).list().len())),
    {
        let index = if self.get_list().len() == 0 {
            None
        } else {
            Some(0)
        };
        self.select(index);
    }

    fn select_last(&mut self)
        ensures
            *final(self) == old(self).with_index(last_index(old(self).list().len())),
    {
        let len = self.get_list().len();
        let index = if len == 0 {
            None
        } else {
            Some(len - 1)
        };
        self.select(index);
    }

    fn select_next(&mut self)
        ensures
            *final(self) == old(self).with_index(
                next_index(old(self).index(), old(self).list().len()),
            ),
    {
        let len = self.get_list().len();
        let index = match self.get_index() {
            None => None,
            Some(i) => if len == 0 {
                None
            } else {
                proof {
                    lemma_add_mod_noop(i as int, 1, len as int);
                    if len > 1 {
                        lemma_small_mod(1, len as nat);
                    }
                }
                Some((i % len + 1) % len)
            },
        };
        self.select(index);
    }

    fn select_prev(&mut self)
        ensures
            *final(self) == old(self).with_index(
                prev_index(old(self).index(), old(self).list().len()),
            ),
    {
        let len = self.get_list().len();
        let index = match self.get_index() {
            None => None,
            Some(i) => if i == 0 {
                if len == 0 {
                    None
                } else {
                    Some(len - 1)
                }
            } else {
                Some(i - 1)
            },
        };
        self.select(index);
    }

    /// Moves the selection as the key asks, or fails on a key that asks
    /// for no move.
    fn on_list_key(&mut self, key: Key) -> (r: Result<(), KeyError>)
        ensures
            match list_op(key) {
                Some(op) => r is Ok && *final(self) == old(self).with_index(
                    moved(old(self).index(), old(self).list().len(), op),
                ),
                None => r == Err::<(), KeyError>(KeyError::Unknown(key)) && *final(self) == *old(self),
            },
    {
        match list_op_of(key) {
            Some(ListOp::Next) => self.select_next(),
            Some(ListOp::Prev) => self.select_prev(),
            Some(ListOp::First) => self.select_first(),
            Some(ListOp::Last) => self.select_last(),
            None => {
                return Err(KeyError::Unknown(key));
            },
        }
        Ok(())
    }
}

} // verus!
