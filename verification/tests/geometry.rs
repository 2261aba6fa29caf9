//! Tests for the popup's drawn layout: the fixed-size box centered in the
//! area the host hands out.

use goto_line::keys::{KeyCode, KeyConfig, KeyEvent};
use goto_line::popup::GotoLinePopup;
use goto_line::ui::{centered_rect_absolute, Rect};

fn config() -> KeyConfig {
    KeyConfig {
        exit_popup: KeyEvent { code: KeyCode::Esc, modifiers: 0 },
        enter: KeyEvent { code: KeyCode::Enter, modifiers: 0 },
    }
}

#[test]
fn centered_in_a_standard_terminal() {
    let area = Rect { x: 0, y: 0, width: 80, height: 24 };
    let c = centered_rect_absolute(15, 3, area);
    assert_eq!(c, Rect { x: 32, y: 10, width: 15, height: 3 });
}

#[test]
fn centered_within_an_offset_region() {
    let area = Rect { x: 5, y: 5, width: 20, height: 10 };
    let c = centered_rect_absolute(15, 3, area);
    assert_eq!(c, Rect { x: 7, y: 8, width: 15, height: 3 });
}

#[test]
fn clipped_to_a_small_region() {
    let area = Rect { x: 0, y: 0, width: 10, height: 2 };
    let c = centered_rect_absolute(15, 3, area);
    assert_eq!(c, Rect { x: 0, y: 0, width: 10, height: 2 });
}

#[test]
fn hidden_popup_draws_nothing() {
    let popup: GotoLinePopup<u32> = GotoLinePopup::new(config());
    let area = Rect { x: 0, y: 0, width: 80, height: 24 };
    assert_eq!(popup.draw_area(area), None);
}

#[test]
fn visible_popup_draws_the_centered_box() {
    let mut popup: GotoLinePopup<u32> = GotoLinePopup::new(config());
    popup.open(None);
    let area = Rect { x: 0, y: 0, width: 80, height: 24 };
    assert_eq!(
        popup.draw_area(area),
        Some(Rect { x: 32, y: 10, width: 15, height: 3 })
    );
}
