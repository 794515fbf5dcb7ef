use spectrusty_tutorial::menus::{
    AppMenu, KeyMod, Menu, MenuItem, MENU_KEY_ALT, MENU_KEY_CTRL, MENU_KEY_SHIFT,
};

const KEY_F1: usize = 10;
const KEY_F2: usize = 11;
const KEY_F3: usize = 12;
const KEY_INSERT: usize = 60;

fn item(id: usize, key: usize, modifier: usize) -> MenuItem {
    MenuItem { id, key: Some(key), modifier, enabled: true, sub_menu: None }
}

fn sub_menu(items: Vec<MenuItem>) -> MenuItem {
    MenuItem {
        id: 0,
        key: Some(KEY_INSERT),
        modifier: 0,
        enabled: true,
        sub_menu: Some(Box::new(Menu { items })),
    }
}

fn menus() -> Vec<Menu> {
    vec![
        Menu {
            items: vec![
                item(1, KEY_F1, 0),
                item(2, KEY_F2, 0),
                sub_menu(vec![
                    item(10, KEY_F1, MENU_KEY_SHIFT | MENU_KEY_ALT),
                    sub_menu(vec![item(11, KEY_F2, MENU_KEY_SHIFT | MENU_KEY_ALT)]),
                    item(12, KEY_F3, MENU_KEY_SHIFT | MENU_KEY_ALT),
                ]),
                MenuItem { id: 3, key: None, modifier: 0, enabled: true, sub_menu: None },
                MenuItem { id: 4, key: Some(KEY_F3), modifier: 0, enabled: false, sub_menu: None },
            ],
        },
        Menu { items: Vec::new() },
        Menu { items: vec![item(201, KEY_F1, MENU_KEY_ALT), item(5, KEY_F2, 0)] },
    ]
}

#[test]
fn modifier_bits_are_those_of_the_window_library() {
    assert_eq!(MENU_KEY_SHIFT, minifb::MENU_KEY_SHIFT);
    assert_eq!(MENU_KEY_CTRL, minifb::MENU_KEY_CTRL);
    assert_eq!(MENU_KEY_ALT, minifb::MENU_KEY_ALT);
    assert_eq!(AppMenu::modifier(false, false, false), 0);
    assert_eq!(AppMenu::modifier(true, false, false), 4);
    assert_eq!(AppMenu::modifier(false, true, false), 8);
    assert_eq!(AppMenu::modifier(false, false, true), 16);
    assert_eq!(AppMenu::modifier(true, true, true), 28);
    assert_eq!(AppMenu::modifier(true, false, true), minifb::MENU_KEY_SHIFT | minifb::MENU_KEY_ALT);
}

#[test]
fn shortcuts_are_taken_from_all_menus() {
    let menu = AppMenu::new(&menus());
    assert_eq!(menu.get(KeyMod(KEY_F1, 0)), Some(1));
    assert_eq!(menu.get(KeyMod(KEY_F1, MENU_KEY_SHIFT | MENU_KEY_ALT)), Some(10));
    assert_eq!(menu.get(KeyMod(KEY_F2, MENU_KEY_SHIFT | MENU_KEY_ALT)), Some(11));
    assert_eq!(menu.get(KeyMod(KEY_F3, MENU_KEY_SHIFT | MENU_KEY_ALT)), Some(12));
    assert_eq!(menu.get(KeyMod(KEY_F1, MENU_KEY_ALT)), Some(201));
    assert_eq!(menu.get(KeyMod(KEY_F1, MENU_KEY_SHIFT)), None);
}

#[test]
fn a_later_shortcut_takes_the_place_of_an_earlier_one() {
    let menu = AppMenu::new(&menus());
    assert_eq!(menu.get(KeyMod(KEY_F2, 0)), Some(5));
}

#[test]
fn items_that_open_menus_or_cannot_be_chosen_have_no_shortcut() {
    let menu = AppMenu::new(&menus());
    assert_eq!(menu.get(KeyMod(KEY_INSERT, 0)), None);
    assert_eq!(menu.get(KeyMod(KEY_F3, 0)), None);
}

#[test]
fn no_menus_no_shortcuts() {
    let menu = AppMenu::new(&Vec::new());
    assert_eq!(menu.get(KeyMod(KEY_F1, 0)), None);
    assert_eq!(menu.is_menu_pressed(&vec![KEY_F1, KEY_F2], false, false, false), None);
}

#[test]
fn the_first_pressed_shortcut_is_chosen() {
    let menu = AppMenu::new(&menus());
    assert_eq!(menu.is_menu_pressed(&Vec::new(), false, false, false), None);
    assert_eq!(menu.is_menu_pressed(&vec![KEY_F1], false, false, false), Some(1));
    assert_eq!(menu.is_menu_pressed(&vec![KEY_F2, KEY_F1], false, false, false), Some(5));
    assert_eq!(menu.is_menu_pressed(&vec![KEY_F3, KEY_F1], false, false, false), Some(1));
    assert_eq!(menu.is_menu_pressed(&vec![KEY_F3, KEY_INSERT], false, false, false), None);
}

#[test]
fn modifiers_have_to_match() {
    let menu = AppMenu::new(&menus());
    assert_eq!(menu.is_menu_pressed(&vec![KEY_F1], true, false, true), Some(10));
    assert_eq!(menu.is_menu_pressed(&vec![KEY_F1], false, false, true), Some(201));
    assert_eq!(menu.is_menu_pressed(&vec![KEY_F1], true, false, false), None);
    assert_eq!(menu.is_menu_pressed(&vec![KEY_F1], false, true, false), None);
    assert_eq!(menu.is_menu_pressed(&vec![KEY_F3, KEY_F2], true, false, true), Some(12));
}

#[test]
fn modifiers_are_named() {
    assert_eq!(KeyMod(KEY_F1, 0).modifier_text(), "");
    assert_eq!(KeyMod(KEY_F1, MENU_KEY_SHIFT).modifier_text(), "+SHIFT");
    assert_eq!(KeyMod(KEY_F1, MENU_KEY_CTRL).modifier_text(), "+CTRL");
    assert_eq!(KeyMod(KEY_F1, MENU_KEY_ALT).modifier_text(), "+ALT");
    assert_eq!(KeyMod(KEY_F1, 28).modifier_text(), "+SHIFT+CTRL+ALT");
    assert_eq!(KeyMod(KEY_F1, 3).modifier_text(), "");
    assert_eq!(KeyMod(KEY_F1, 21).modifier_text(), "+SHIFT+ALT");
}
