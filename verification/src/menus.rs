//! Menu shortcuts, for platforms whose windows have no menus of their own.
//!
//! The host hands over the menus of its window: for each item its id, its
//! shortcut key and the modifier keys that go with it. From then on it asks,
//! for the keys just pressed, which item they stand for.
use vstd::prelude::*;
use vstd::string::*;
use std::collections::HashMap;

verus! {

/// A key with the modifier keys held down with it: the key's code, and the
/// modifiers as a set of bits.
#[derive(Debug, Clone, Copy, PartialEq, Eq, Hash, Structural)]
pub struct KeyMod(pub usize, pub usize);

/// An item of a menu.
pub struct MenuItem {
    /// The id that is reported when the item is chosen.
    pub id: usize,
    /// The code of the shortcut key, if the item has one.
    pub key: Option<usize>,
    /// The modifier keys that go with the shortcut key.
    pub modifier: usize,
    /// Whether the item can be chosen.
    pub enabled: bool,
    /// The menu that the item opens, if it opens one.
    pub sub_menu: Option<Box<Menu>>,
}

/// A menu.
pub struct Menu {
    pub items: Vec<MenuItem>,
}

/// The shortcuts of a window's menus.
pub struct AppMenu {
    /// The menu item for each shortcut, the shortcut told by its number.
    keys: HashMap<u128, usize>,
}

/// `MENU_KEY_SHIFT` of minifb: the bit that stands for the shift key in the
/// modifiers of a menu item.
#[verifier::external_body]
fn menu_key_shift() -> (bit: usize)
    ensures
        bit == 4,
{
    minifb::MENU_KEY_SHIFT
}

/// `MENU_KEY_CTRL` of minifb: the bit that stands for the control key in the
/// modifiers of a menu item.
#[verifier::external_body]
fn menu_key_ctrl() -> (bit: usize)
    ensures
        bit == 8,
{
    minifb::MENU_KEY_CTRL
}

/// `MENU_KEY_ALT` of minifb: the bit that stands for the alt key in the
/// modifiers of a menu item.
#[verifier::external_body]
fn menu_key_alt() -> (bit: usize)
    ensures
        bit == 16,
{
    minifb::MENU_KEY_ALT
}

/// The bit of the shift key in a set of modifiers.
pub const MENU_KEY_SHIFT: usize = 4;

/// The bit of the control key in a set of modifiers.
pub const MENU_KEY_CTRL: usize = 8;

/// The bit of the alt key in a set of modifiers.
pub const MENU_KEY_ALT: usize = 16;

/// The modifiers that stand for the keys held down.
pub open spec fn spec_modifier(shift: bool, ctrl: bool, alt: bool) -> usize {
    (if shift {
        MENU_KEY_SHIFT
    } else {
        0usize
    }) | (if ctrl {
        MENU_KEY_CTRL
    } else {
        0usize
    }) | (if alt {
        MENU_KEY_ALT
    } else {
        0usize
    })
}

/// The shortcuts `keys` with the one of `item` and of all that it opens.
/// An item that opens a menu has no shortcut of its own; nor has one that
/// cannot be chosen or has no key. A later shortcut on the same key with the
/// same modifiers takes the place of an earlier one.
pub open spec fn spec_populate_item(item: MenuItem, keys: Map<KeyMod, usize>) -> Map<KeyMod, usize>
    decreases item,
{
    match item.sub_menu {
        Some(menu) => spec_populate_items(menu.items@, keys),
        None => match item.key {
            Some(key) => if item.enabled {
                keys.insert(KeyMod(key, item.modifier), item.id)
            } else {
                keys
            },
            None => keys,
        },
    }
}

/// The shortcuts `keys` with those of `items`, taken in their order.
pub open spec fn spec_populate_items(items: Seq<MenuItem>, keys: Map<KeyMod, usize>) -> Map<
    KeyMod,
    usize,
>
    decreases items,
{
    if items.len() == 0 {
        keys
    } else {
        spec_populate_item(items.last(), spec_populate_items(items.drop_last(), keys))
    }
}

/// The shortcuts `keys` with those of `menus`, taken in their order.
pub open spec fn spec_populate_menus(menus: Seq<Menu>, keys: Map<KeyMod, usize>) -> Map<
    KeyMod,
    usize,
>
    decreases menus.len(),
{
    if menus.len() == 0 {
        keys
    } else {
        spec_populate_items(menus.last().items@, spec_populate_menus(menus.drop_last(), keys))
    }
}

/// The number that stands for a key with its modifiers in the table of
/// shortcuts: the key's code in the upper half, the modifiers in the lower.
pub closed spec fn spec_key_number(key: KeyMod) -> u128 {
    (key.0 * 0x1_0000_0000_0000_0000 + key.1) as u128
}

/// Two keys with their modifiers have the same number only if they are the
/// same.
proof fn lemma_key_numbers_differ(a: KeyMod, b: KeyMod)
    ensures
        spec_key_number(a) == a.0 * 0x1_0000_0000_0000_0000 + a.1,
        spec_key_number(a) == spec_key_number(b) ==> a == b,
{
}

/// The item that the first of the keys `pressed` with a shortcut stands for,
/// with `modifier` held down.
pub open spec fn spec_first_bound(keys: Map<KeyMod, usize>, pressed: Seq<usize>, modifier: usize) -> Option<
    usize,
>
    decreases pressed.len(),
{
    if pressed.len() == 0 {
        None
    } else if keys.dom().contains(KeyMod(pressed[0], modifier)) {
        Some(keys[KeyMod(pressed[0], modifier)])
    } else {
        spec_first_bound(keys, pressed.drop_first(), modifier)
    }
}

/// The names of the modifier keys in `modifier`, each after a plus sign.
pub open spec fn spec_modifier_text(modifier: usize) -> Seq<char> {
    (if modifier & MENU_KEY_SHIFT != 0 {
        "+SHIFT"@
    } else {
        ""@
    }) + (if modifier & MENU_KEY_CTRL != 0 {
        "+CTRL"@
    } else {
        ""@
    }) + (if modifier & MENU_KEY_ALT != 0 {
        "+ALT"@
    } else {
        ""@
    })
}

impl KeyMod {
    /// The names of the modifier keys that go with the key, each after a
    /// plus sign.
    pub fn modifier_text(&self) -> (text: String)
        ensures
            text@ == spec_modifier_text(self.1),
    {
        let mut text: String = String::from_str(
            if self.1 & menu_key_shift() != 0 {
                "+SHIFT"
            } else {
                ""
            },
        );
        text.append(
            if self.1 & menu_key_ctrl() != 0 {
                "+CTRL"
            } else {
                ""
            },
        );
        text.append(
            if self.1 & menu_key_alt() != 0 {
                "+ALT"
            } else {
                ""
            },
        );
        text
    }
}

impl View for AppMenu {
    type V = Map<KeyMod, usize>;

    /// The menu item that each shortcut stands for.
    closed spec fn view(&self) -> Map<KeyMod, usize> {
        Map::new(
            |key: KeyMod| self.keys@.contains_key(spec_key_number(key)),
            |key: KeyMod| self.keys@[spec_key_number(key)],
        )
    }
}

impl AppMenu {
    fn key_number(key: KeyMod) -> (number: u128)
        ensures
            number == spec_key_number(key),
    {
        proof {
            lemma_key_numbers_differ(key, key);
        }
        (key.0 as u128) * 0x1_0000_0000_0000_0000 + (key.1 as u128)
    }

    fn empty() -> (menu: AppMenu)
        ensures
            menu@ == Map::<KeyMod, usize>::empty(),
    {
        let menu = AppMenu { keys: HashMap::new() };
        assert(menu@ =~= Map::<KeyMod, usize>::empty());
        menu
    }

    fn insert(&mut self, key: KeyMod, id: usize)
        ensures
            final(self)@ == old(self)@.insert(key, id),
    {
        broadcast use vstd::std_specs::hash::group_hash_axioms;

        let number: u128 = AppMenu::key_number(key);
        let _ = self.keys.insert(number, id);
        proof {
            assert forall|other: KeyMod| spec_key_number(other) == number implies other == key by {
                lemma_key_numbers_differ(other, key);
            }
            assert(self@ =~= old(self)@.insert(key, id));
        }
    }

    fn populate_item(&mut self, item: &MenuItem)
        ensures
            final(self)@ == spec_populate_item(*item, old(self)@),
        decreases item,
    {
        match &item.sub_menu {
            Some(menu) => {
                self.populate_items(&menu.items);
            },
            None => match item.key {
                Some(key) => {
                    if item.enabled {
                        self.insert(KeyMod(key, item.modifier), item.id);
                    }
                },
                None => {},
            },
        }
    }

    fn populate_items(&mut self, items: &Vec<MenuItem>)
        ensures
            final(self)@ == spec_populate_items(items@, old(self)@),
        decreases items@,
    {
        let mut i: usize = 0;
        while i < items.len()
            invariant
                i <= items.len(),
                self@ == spec_populate_items(items@.take(i as int), old(self)@),
            decreases items.len() - i,
        {
            self.populate_item(&items[i]);
            proof {
                let upto = items@.take(i + 1);
                assert(upto.drop_last() == items@.take(i as int));
                assert(upto.last() == items@[i as int]);
            }
            i = i + 1;
        }
        assert(items@.take(i as int) == items@);
    }

    /// The shortcuts of `menus`: for every item that can be chosen, has a
    /// shortcut key and opens no menu, its key and modifiers stand for its
    /// id. The items of the menus that items open are taken in too. Where
    /// two items share key and modifiers the later one is meant.
    pub fn new(menus: &Vec<Menu>) -> (menu: AppMenu)
        ensures
            menu@ == spec_populate_menus(menus@, Map::empty()),
    {
        let mut menu: AppMenu = AppMenu::empty();
        let mut i: usize = 0;
        while i < menus.len()
            invariant
                i <= menus.len(),
                menu@ == spec_populate_menus(menus@.take(i as int), Map::empty()),
            decreases menus.len() - i,
        {
            menu.populate_items(&menus[i].items);
            proof {
                let upto = menus@.take(i + 1);
                assert(upto.drop_last() == menus@.take(i as int));
                assert(upto.last() == menus@[i as int]);
            }
            i = i + 1;
        }
        assert(menus@.take(i as int) == menus@);
        menu
    }

    /// The item that the shortcut `key` stands for.
    pub fn get(&self, key: KeyMod) -> (id: Option<usize>)
        ensures
            id == (if self@.dom().contains(key) {
                Some(self@[key])
            } else {
                None
            }),
    {
        broadcast use vstd::std_specs::hash::group_hash_axioms;

        let number: u128 = AppMenu::key_number(key);
        match self.keys.get(&number) {
            Some(id) => Some(*id),
            None => None,
        }
    }

    /// The modifiers that stand for the keys held down.
    pub fn modifier(shift: bool, ctrl: bool, alt: bool) -> (modifier: usize)
        ensures
            modifier == spec_modifier(shift, ctrl, alt),
    {
        let mut modifier: usize = 0;
        if shift {
            modifier = modifier | menu_key_shift();
        }
        if ctrl {
            modifier = modifier | menu_key_ctrl();
        }
        if alt {
            modifier = modifier | menu_key_alt();
        }
        assert(0usize | 4usize == 4usize) by (bit_vector);
        assert(forall|m: usize| #![auto] m | 0usize == m) by (bit_vector);
        modifier
    }

    /// The menu item that the keys just pressed stand for: that of the first
    /// of `pressed` which, with the modifier keys held down, is a shortcut.
    /// `shift`, `ctrl` and `alt` tell whether one of the two keys of that
    /// name is down.
    pub fn is_menu_pressed(&self, pressed: &Vec<usize>, shift: bool, ctrl: bool, alt: bool) -> (id:
        Option<usize>)
        ensures
            id == spec_first_bound(self@, pressed@, spec_modifier(shift, ctrl, alt)),
    {
        let modifier: usize = AppMenu::modifier(shift, ctrl, alt);
        let mut i: usize = 0;
        assert(pressed@.skip(0) == pressed@);
        while i < pressed.len()
            invariant
                i <= pressed.len(),
                modifier == spec_modifier(shift, ctrl, alt),
                spec_first_bound(self@, pressed@, modifier) == spec_first_bound(
                    self@,
                    pressed@.skip(i as int),
                    modifier,
                ),
            decreases pressed.len() - i,
        {
            proof {
                let rest = pressed@.skip(i as int);
                assert(rest[0] == pressed@[i as int]);
                assert(rest.drop_first() == pressed@.skip(i + 1));
            }
            match self.get(KeyMod(pressed[i], modifier)) {
                Some(id) => {
                    return Some(id);
                },
                None => {},
            }
            i = i + 1;
        }
        None
    }
}

/// Without a key pressed no item is chosen, and a key that is no shortcut
/// chooses none.
pub proof fn lemma_unbound_keys_choose_nothing(
    keys: Map<KeyMod, usize>,
    pressed: Seq<usize>,
    modifier: usize,
)
    requires
        forall|i: int| 0 <= i < pressed.len() ==> !keys.dom().contains(KeyMod(pressed[i], modifier)),
    ensures
        spec_first_bound(keys, pressed, modifier) is None,
    decreases pressed.len(),
{
    if pressed.len() > 0 {
        assert(!keys.dom().contains(KeyMod(pressed[0], modifier)));
        assert forall|i: int| 0 <= i < pressed.drop_first().len() implies !keys.dom().contains(
            KeyMod(pressed.drop_first()[i], modifier),
        ) by {
            assert(pressed.drop_first()[i] == pressed[i + 1]);
        }
        lemma_unbound_keys_choose_nothing(keys, pressed.drop_first(), modifier);
    }
}

} // verus!
