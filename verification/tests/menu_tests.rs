use bloxide::menu::{Menu, MenuInput, MenuItem};

fn items() -> Vec<MenuItem<'static>> {
    vec![
        MenuItem { label: "New Game", id: "new_game" },
        MenuItem { label: "Main Menu", id: "back_to_main_menu" },
        MenuItem { label: "Quit", id: "quit" },
    ]
}

fn press(up: bool, down: bool, select: bool) -> MenuInput {
    MenuInput { up, down, select }
}

#[test]
fn new_menu_is_hidden_with_its_first_item_active() {
    let menu = Menu::new("PAUSED", items());
    assert_eq!(menu.title, "PAUSED");
    assert_eq!(menu.items.len(), 3);
    assert_eq!(menu.items[2].label, "Quit");
    assert_eq!(menu.active_index, 0);
    assert!(!menu.is_visible);
}

#[test]
fn hidden_menu_ignores_input() {
    let mut menu = Menu::new("PAUSED", items());
    assert_eq!(menu.update(press(false, true, false)), None);
    assert_eq!(menu.update(press(false, false, true)), None);
    assert_eq!(menu.active_index, 0);
    let mut empty = Menu::new("EMPTY", Vec::new());
    assert_eq!(empty.update(press(true, true, true)), None);
}

#[test]
fn select_returns_the_id_of_the_active_item() {
    let mut menu = Menu::new("PAUSED", items());
    menu.is_visible = true;
    assert_eq!(menu.update(press(false, false, true)), Some("new_game"));
    menu.update(press(false, true, false));
    assert_eq!(menu.update(press(false, false, true)), Some("back_to_main_menu"));
    assert_eq!(menu.update(press(true, true, true)), Some("back_to_main_menu"));
    assert_eq!(menu.active_index, 1);
}

#[test]
fn down_and_up_move_the_active_index_and_wrap() {
    let mut menu = Menu::new("PAUSED", items());
    menu.is_visible = true;
    assert_eq!(menu.update(press(false, true, false)), None);
    assert_eq!(menu.active_index, 1);
    menu.update(press(false, true, false));
    assert_eq!(menu.active_index, 2);
    menu.update(press(false, true, false));
    assert_eq!(menu.active_index, 0);
    menu.update(press(true, false, false));
    assert_eq!(menu.active_index, 2);
    menu.update(press(true, false, false));
    assert_eq!(menu.active_index, 1);
}

#[test]
fn up_and_down_together_cancel() {
    let mut menu = Menu::new("PAUSED", items());
    menu.is_visible = true;
    menu.active_index = 2;
    menu.update(press(true, true, false));
    assert_eq!(menu.active_index, 2);
    menu.update(press(false, false, false));
    assert_eq!(menu.active_index, 2);
}

#[test]
fn an_index_past_the_items_is_brought_back() {
    let mut menu = Menu::new("PAUSED", items());
    menu.is_visible = true;
    menu.active_index = 7;
    menu.update(press(false, false, false));
    assert_eq!(menu.active_index, 1);
    menu.active_index = 7;
    menu.update(press(false, true, false));
    assert_eq!(menu.active_index, 2);
    menu.active_index = 6;
    menu.update(press(true, false, false));
    assert_eq!(menu.active_index, 2);
    menu.active_index = usize::MAX;
    menu.update(press(false, true, false));
    assert_eq!(menu.active_index, (usize::MAX % 3 + 1) % 3);
}

#[test]
fn menu_with_one_item_stays_on_it() {
    let mut menu = Menu::new("ONE", vec![MenuItem { label: "Only", id: "only" }]);
    menu.is_visible = true;
    menu.update(press(false, true, false));
    assert_eq!(menu.active_index, 0);
    menu.update(press(true, false, false));
    assert_eq!(menu.active_index, 0);
    assert_eq!(menu.update(press(false, false, true)), Some("only"));
}
