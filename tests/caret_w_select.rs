use wasm_codegen::caret_w_select::{validate_selection, CaretWSelect, Modifiers, Selection, TextPos, UIError};
use wasm_codegen::solved_types::{Solved, SolvedAtom, VarId};

fn pos(line: usize, column: usize) -> TextPos {
    TextPos { line, column }
}

fn sel(a: TextPos, b: TextPos) -> Option<Selection> {
    Some(Selection { start_pos: a, end_pos: b })
}

fn shift() -> Modifiers {
    Modifiers { shift: true, ..Modifiers::default() }
}

#[test]
fn default_caret_is_at_origin() {
    let c = CaretWSelect::default();
    assert_eq!(c.caret_pos, pos(0, 0));
    assert_eq!(c.selection_opt, None);
}

#[test]
fn move_without_shift_drops_selection() {
    let mut c = CaretWSelect::new(pos(0, 3), sel(pos(0, 1), pos(0, 3)));
    c.move_caret_w_mods(pos(1, 0), &Modifiers::default()).unwrap();
    assert_eq!(c, CaretWSelect::new(pos(1, 0), None));
}

#[test]
fn shift_move_starts_selection() {
    let mut c = CaretWSelect::new(pos(0, 2), None);
    c.move_caret_w_mods(pos(0, 5), &shift()).unwrap();
    assert_eq!(c.selection_opt, sel(pos(0, 2), pos(0, 5)));
    let mut d = CaretWSelect::new(pos(2, 2), None);
    d.move_caret_w_mods(pos(1, 7), &shift()).unwrap();
    assert_eq!(d.selection_opt, sel(pos(1, 7), pos(2, 2)));
}

#[test]
fn shift_move_in_place_keeps_selection() {
    let mut c = CaretWSelect::new(pos(0, 4), sel(pos(0, 1), pos(0, 4)));
    c.move_caret_w_mods(pos(0, 4), &shift()).unwrap();
    assert_eq!(c.selection_opt, sel(pos(0, 1), pos(0, 4)));
}

#[test]
fn shift_move_grows_and_shrinks_selection() {
    // caret at the end, move further right: grows
    let mut c = CaretWSelect::new(pos(0, 4), sel(pos(0, 1), pos(0, 4)));
    c.move_caret_w_mods(pos(0, 6), &shift()).unwrap();
    assert_eq!(c.selection_opt, sel(pos(0, 1), pos(0, 6)));
    // move back left inside: shrinks from the end
    c.move_caret_w_mods(pos(0, 3), &shift()).unwrap();
    assert_eq!(c.selection_opt, sel(pos(0, 1), pos(0, 3)));
    // move left past the start: the anchor stays at the start
    c.move_caret_w_mods(pos(0, 0), &shift()).unwrap();
    assert_eq!(c.selection_opt, sel(pos(0, 0), pos(0, 1)));
    // move back onto the anchor: selection disappears
    c.move_caret_w_mods(pos(0, 1), &shift()).unwrap();
    assert_eq!(c.selection_opt, None);
    assert_eq!(c.caret_pos, pos(0, 1));
}

#[test]
fn shift_move_from_start_past_end() {
    let mut c = CaretWSelect::new(pos(0, 1), sel(pos(0, 1), pos(0, 4)));
    c.move_caret_w_mods(pos(1, 0), &shift()).unwrap();
    assert_eq!(c.selection_opt, sel(pos(0, 4), pos(1, 0)));
}

#[test]
fn invalid_selection_is_refused() {
    assert_eq!(
        validate_selection(pos(1, 0), pos(0, 5)),
        Err(UIError::InvalidSelection { start_pos: pos(1, 0), end_pos: pos(0, 5) })
    );
    assert_eq!(
        validate_selection(pos(0, 2), pos(0, 5)),
        Ok(Selection { start_pos: pos(0, 2), end_pos: pos(0, 5) })
    );
    let mut c = CaretWSelect::new(pos(0, 1), sel(pos(0, 8), pos(0, 2)));
    let before = c;
    assert_eq!(
        c.move_caret_w_mods(pos(0, 5), &shift()),
        Err(UIError::InvalidSelection { start_pos: pos(0, 5), end_pos: pos(0, 2) })
    );
    assert_eq!(c, before);
}

#[test]
fn solved_wraps_its_value() {
    let s = Solved(vec![SolvedAtom::Zero, SolvedAtom::Variable(VarId(3))]);
    assert_eq!(s.inner().len(), 2);
    assert_eq!(s.into_inner()[1], SolvedAtom::Variable(VarId(3)));
}
