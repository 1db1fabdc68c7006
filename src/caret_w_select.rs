//! A text caret with an optional selection, and how shift-movement grows
//! or shrinks the selection.
use vstd::prelude::*;

verus! {

/// A position in a text: a line and a column, both counted from zero.
#[derive(Debug, Clone, Copy, PartialEq, Eq, Structural)]
pub struct TextPos {
    pub line: usize,
    pub column: usize,
}

/// Whether `a` comes strictly before `b`: by line, then by column.
pub open spec fn before(a: TextPos, b: TextPos) -> bool {
    a.line < b.line || (a.line == b.line && a.column < b.column)
}

impl TextPos {
    /// Whether `self` comes strictly before `other`.
    pub fn is_before(&self, other: &TextPos) -> (r: bool)
        ensures
            r == before(*self, *other),
    {
        self.line < other.line || (self.line == other.line && self.column < other.column)
    }
}

/// A selected range of text, from `start_pos` to `end_pos`.
#[derive(Debug, Clone, Copy, PartialEq, Eq, Structural)]
pub struct Selection {
    pub start_pos: TextPos,
    pub end_pos: TextPos,
}

/// Errors of the text operations.
#[derive(Debug, Clone, Copy, PartialEq, Eq, Structural)]
pub enum UIError {
    /// A selection would end before it starts.
    InvalidSelection { start_pos: TextPos, end_pos: TextPos },
}

/// The keyboard modifiers held down during a key press.
#[derive(Debug, Clone, Copy, PartialEq, Eq, Structural, Default)]
pub struct Modifiers {
    pub shift: bool,
    pub ctrl: bool,
    pub alt: bool,
    pub logo: bool,
}

/// The selection from `start_pos` to `end_pos`, refused when it would end
/// before it starts.
pub fn validate_selection(start_pos: TextPos, end_pos: TextPos) -> (r: Result<Selection, UIError>)
    ensures
        r == if before(end_pos, start_pos) {
            Err::<Selection, UIError>(UIError::InvalidSelection { start_pos, end_pos })
        } else {
            Ok(Selection { start_pos, end_pos })
        },
{
    if end_pos.is_before(&start_pos) {
        Err(UIError::InvalidSelection { start_pos, end_pos })
    } else {
        Ok(Selection { start_pos, end_pos })
    }
}

/// The selection between two positions: none when they are equal.
pub open spec fn some_selection(start_pos: TextPos, end_pos: TextPos) -> Result<
    Option<Selection>,
    UIError,
> {
    if start_pos == end_pos {
        Ok(None)
    } else if before(end_pos, start_pos) {
        Err(UIError::InvalidSelection { start_pos, end_pos })
    } else {
        Ok(Some(Selection { start_pos, end_pos }))
    }
}

fn mk_some_sel(start_pos: TextPos, end_pos: TextPos) -> (r: Result<Option<Selection>, UIError>)
    ensures
        r == some_selection(start_pos, end_pos),
{
    if start_pos == end_pos {
        Ok(None)
    } else {
        match validate_selection(start_pos, end_pos) {
            Ok(sel) => Ok(Some(sel)),
            Err(e) => Err(e),
        }
    }
}

/// The selection after the caret moves from `caret` to `new_pos` with
/// shift held, given the selection `sel` before the move. The end of the
/// old selection away from the caret stays put and the moving end follows
/// the caret.
pub open spec fn shift_selection(caret: TextPos, sel: Option<Selection>, new_pos: TextPos) -> Result<
    Option<Selection>,
    UIError,
> {
    if new_pos == caret {
        Ok(sel)
    } else {
        match sel {
            None => if before(new_pos, caret) {
                some_selection(new_pos, caret)
            } else {
                some_selection(caret, new_pos)
            },
            Some(s) => if before(new_pos, s.start_pos) {
                // past the start: the new selection reaches back from the
                // end that stays
                if before(s.start_pos, caret) {
                    some_selection(new_pos, s.start_pos)
                } else {
                    some_selection(new_pos, s.end_pos)
                }
            } else if before(s.end_pos, new_pos) {
                if before(caret, s.end_pos) {
                    some_selection(s.end_pos, new_pos)
                } else {
                    some_selection(s.start_pos, new_pos)
                }
            } else if before(caret, new_pos) {
                some_selection(new_pos, s.end_pos)
            } else {
                some_selection(s.start_pos, new_pos)
            },
        }
    }
}

/// A caret, and the selection that it may carry.
#[derive(Debug, Clone, Copy, PartialEq, Eq, Structural)]
pub struct CaretWSelect {
    pub caret_pos: TextPos,
    pub selection_opt: Option<Selection>,
}

impl Default for CaretWSelect {
    fn default() -> (r: Self)
        ensures
            r.caret_pos == (TextPos { line: 0, column: 0 }),
            r.selection_opt is None,
    {
        CaretWSelect { caret_pos: TextPos { line: 0, column: 0 }, selection_opt: None }
    }
}

impl CaretWSelect {
    pub fn new(caret_pos: TextPos, selection_opt: Option<Selection>) -> (r: Self)
        ensures
            r.caret_pos == caret_pos,
            r.selection_opt == selection_opt,
    {
        CaretWSelect { caret_pos, selection_opt }
    }

    /// Moves the caret to `new_pos`. Without shift the selection is dropped;
    /// with shift it follows `shift_selection`. When that is refused, the
    /// caret does not move.
    pub fn move_caret_w_mods(&mut self, new_pos: TextPos, mods: &Modifiers) -> (r: Result<
        (),
        UIError,
    >)
        ensures
            !mods.shift ==> r is Ok && *final(self) == (CaretWSelect {
                caret_pos: new_pos,
                selection_opt: None,
            }),
            mods.shift ==> match shift_selection(
                old(self).caret_pos,
                old(self).selection_opt,
                new_pos,
            ) {
                Ok(sel) => r is Ok && *final(self) == (CaretWSelect {
                    caret_pos: new_pos,
                    selection_opt: sel,
                }),
                Err(e) => r == Err::<(), UIError>(e) && *final(self) == *old(self),
            },
    {
        let old_caret_pos = self.caret_pos;
        let valid_sel_opt = if mods.shift {
            if new_pos != old_caret_pos {
                match self.selection_opt {
                    Some(old_sel) => {
                        if new_pos.is_before(&old_sel.start_pos) {
                            if old_sel.start_pos.is_before(&old_caret_pos) {
                                mk_some_sel(new_pos, old_sel.start_pos)
                            } else {
                                mk_some_sel(new_pos, old_sel.end_pos)
                            }
                        } else if old_sel.end_pos.is_before(&new_pos) {
                            if old_caret_pos.is_before(&old_sel.end_pos) {
                                mk_some_sel(old_sel.end_pos, new_pos)
                            } else {
                                mk_some_sel(old_sel.start_pos, new_pos)
                            }
                        } else if old_caret_pos.is_before(&new_pos) {
                            mk_some_sel(new_pos, old_sel.end_pos)
                        } else {
                            mk_some_sel(old_sel.start_pos, new_pos)
                        }
                    },
                    None => {
                        if new_pos.is_before(&old_caret_pos) {
                            mk_some_sel(new_pos, old_caret_pos)
                        } else {
                            mk_some_sel(old_caret_pos, new_pos)
                        }
                    },
                }
            } else {
                Ok(self.selection_opt)
            }
        } else {
            Ok(None)
        };
        match valid_sel_opt {
            Ok(sel) => {
                self.caret_pos = new_pos;
                self.selection_opt = sel;
                Ok(())
            },
            Err(e) => Err(e),
        }
    }
}

} // verus!
