//! The restaurant form: resetting it, filling it from an entry, typing into
//! its fields, and keeping its list of menu entries.

use vstd::prelude::*;
use crate::api::{MenuItem, MenuItemView, Restaurant, RestaurantType, copy_menu, menu_views};
use crate::app::{App, AppView, Focus};
use crate::text::{optional_text, optional_trimmed, trim_text, trimmed, push_char, pop_char};

verus! {

/// The text of an optional string, or the empty text.
pub open spec fn text_or_empty(o: Option<String>) -> Seq<char> {
    match o {
        Some(s) => s@,
        None => Seq::empty(),
    }
}

fn string_or_empty(o: &Option<String>) -> (r: String)
    ensures
        r@ == text_or_empty(*o),
{
    match o {
        Some(s) => s.clone(),
        None => String::new(),
    }
}

/// `s` with its last character removed, if it has one.
pub open spec fn pop_text(s: Seq<char>) -> Seq<char> {
    if s.len() > 0 {
        s.drop_last()
    } else {
        s
    }
}

pub fn pop_quiet(s: &mut String)
    ensures
        final(s)@ == pop_text(old(s)@),
{
    let _ = pop_char(s);
}

impl AppView {
    /// The form emptied for a new entry: no texts, the first kind of
    /// restaurant, open from 08:00:00 to 22:00:00, no menu.
    pub open spec fn cleared_form(self) -> AppView {
        AppView {
            form_name: Seq::empty(),
            form_type: RestaurantType::FoodStall,
            form_cuisine_type: Seq::empty(),
            form_location: Seq::empty(),
            form_location_desc: Seq::empty(),
            form_location_lat: Seq::empty(),
            form_location_lng: Seq::empty(),
            form_location_address: Seq::empty(),
            form_location_city: Seq::empty(),
            form_location_state: Seq::empty(),
            form_location_zip: Seq::empty(),
            form_location_road1: Seq::empty(),
            form_location_road2: Seq::empty(),
            form_location_venue: Seq::empty(),
            form_location_stall: Seq::empty(),
            form_location_lot: Seq::empty(),
            form_open_time: "08:00:00"@,
            form_close_time: "22:00:00"@,
            form_open_status: true,
            form_description: Seq::empty(),
            form_menu_items: Seq::empty(),
            form_menu_item_name: Seq::empty(),
            form_menu_item_price: Seq::empty(),
            form_menu_item_description: Seq::empty(),
            form_menu_item_selected: None,
            form_menu_items_removed: Seq::empty(),
            ..self
        }
    }

    /// The form holding the entry `r`: its texts, with absent optional
    /// texts empty, and its menu; the menu inputs empty.
    pub open spec fn form_of(self, r: Restaurant) -> AppView {
        AppView {
            form_name: r.name@,
            form_type: r.restaurant_type,
            form_cuisine_type: r.cuisine_type@,
            form_location: r.location.formatted@,
            form_location_desc: text_or_empty(r.location.description),
            form_location_lat: text_or_empty(r.location.lat),
            form_location_lng: text_or_empty(r.location.lng),
            form_location_address: text_or_empty(r.location.address),
            form_location_city: text_or_empty(r.location.city),
            form_location_state: text_or_empty(r.location.state),
            form_location_zip: text_or_empty(r.location.zip_code),
            form_location_road1: text_or_empty(r.location.road_1),
            form_location_road2: text_or_empty(r.location.road_2),
            form_location_venue: text_or_empty(r.location.venue_name),
            form_location_stall: text_or_empty(r.location.stall_number),
            form_location_lot: text_or_empty(r.location.lot_name),
            form_open_time: r.open_time@,
            form_close_time: r.close_time@,
            form_open_status: r.open_status,
            form_description: text_or_empty(r.description),
            form_menu_items: menu_views(r.menu_items@),
            form_menu_item_name: Seq::empty(),
            form_menu_item_price: Seq::empty(),
            form_menu_item_description: Seq::empty(),
            form_menu_item_selected: None,
            form_menu_items_removed: Seq::empty(),
            ..self
        }
    }

    /// Types `c` into the focused text field of the form, if one has the
    /// focus.
    pub open spec fn form_typed(self, c: char) -> AppView {
        match self.focus {
            Focus::FormName => AppView { form_name: self.form_name.push(c), ..self },
            Focus::FormCuisineType => AppView { form_cuisine_type: self.form_cuisine_type.push(c), ..self },
            Focus::FormLocation => AppView { form_location: self.form_location.push(c), ..self },
            Focus::FormLocationDesc => AppView { form_location_desc: self.form_location_desc.push(c), ..self },
            Focus::FormLocationLat => AppView { form_location_lat: self.form_location_lat.push(c), ..self },
            Focus::FormLocationLng => AppView { form_location_lng: self.form_location_lng.push(c), ..self },
            Focus::FormLocationAddress => AppView {
                form_location_address: self.form_location_address.push(c),
                ..self
            },
            Focus::FormLocationCity => AppView { form_location_city: self.form_location_city.push(c), ..self },
            Focus::FormLocationState => AppView { form_location_state: self.form_location_state.push(c), ..self },
            Focus::FormLocationZip => AppView { form_location_zip: self.form_location_zip.push(c), ..self },
            Focus::FormLocationRoad1 => AppView { form_location_road1: self.form_location_road1.push(c), ..self },
            Focus::FormLocationRoad2 => AppView { form_location_road2: self.form_location_road2.push(c), ..self },
            Focus::FormLocationVenue => AppView { form_location_venue: self.form_location_venue.push(c), ..self },
            Focus::FormLocationStall => AppView { form_location_stall: self.form_location_stall.push(c), ..self },
            Focus::FormLocationLot => AppView { form_location_lot: self.form_location_lot.push(c), ..self },
            Focus::FormOpenTime => AppView { form_open_time: self.form_open_time.push(c), ..self },
            Focus::FormCloseTime => AppView { form_close_time: self.form_close_time.push(c), ..self },
            Focus::FormDescription => AppView { form_description: self.form_description.push(c), ..self },
            Focus::FormMenuItemName => AppView { form_menu_item_name: self.form_menu_item_name.push(c), ..self },
            Focus::FormMenuItemPrice => AppView {
                form_menu_item_price: self.form_menu_item_price.push(c),
                ..self
            },
            Focus::FormMenuItemDescription => AppView {
                form_menu_item_description: self.form_menu_item_description.push(c),
                ..self
            },
            _ => self,
        }
    }

    /// Erases the last character of the focused text field of the form.
    pub open spec fn form_erased(self) -> AppView {
        match self.focus {
            Focus::FormName => AppView { form_name: pop_text(self.form_name), ..self },
            Focus::FormCuisineType => AppView { form_cuisine_type: pop_text(self.form_cuisine_type), ..self },
            Focus::FormLocation => AppView { form_location: pop_text(self.form_location), ..self },
            Focus::FormLocationDesc => AppView { form_location_desc: pop_text(self.form_location_desc), ..self },
            Focus::FormLocationLat => AppView { form_location_lat: pop_text(self.form_location_lat), ..self },
            Focus::FormLocationLng => AppView { form_location_lng: pop_text(self.form_location_lng), ..self },
            Focus::FormLocationAddress => AppView {
                form_location_address: pop_text(self.form_location_address),
                ..self
            },
            Focus::FormLocationCity => AppView { form_location_city: pop_text(self.form_location_city), ..self },
            Focus::FormLocationState => AppView {
                form_location_state: pop_text(self.form_location_state),
                ..self
            },
            Focus::FormLocationZip => AppView { form_location_zip: pop_text(self.form_location_zip), ..self },
            Focus::FormLocationRoad1 => AppView {
                form_location_road1: pop_text(self.form_location_road1),
                ..self
            },
            Focus::FormLocationRoad2 => AppView {
                form_location_road2: pop_text(self.form_location_road2),
                ..self
            },
            Focus::FormLocationVenue => AppView {
                form_location_venue: pop_text(self.form_location_venue),
                ..self
            },
            Focus::FormLocationStall => AppView {
                form_location_stall: pop_text(self.form_location_stall),
                ..self
            },
            Focus::FormLocationLot => AppView { form_location_lot: pop_text(self.form_location_lot), ..self },
            Focus::FormOpenTime => AppView { form_open_time: pop_text(self.form_open_time), ..self },
            Focus::FormCloseTime => AppView { form_close_time: pop_text(self.form_close_time), ..self },
            Focus::FormDescription => AppView { form_description: pop_text(self.form_description), ..self },
            Focus::FormMenuItemName => AppView {
                form_menu_item_name: pop_text(self.form_menu_item_name),
                ..self
            },
            Focus::FormMenuItemPrice => AppView {
                form_menu_item_price: pop_text(self.form_menu_item_price),
                ..self
            },
            Focus::FormMenuItemDescription => AppView {
                form_menu_item_description: pop_text(self.form_menu_item_description),
                ..self
            },
            _ => self,
        }
    }
}

/// Resets the form for a new entry.
pub fn clear_form(app: &mut App)
    ensures
        final(app)@ == old(app)@.cleared_form(),
{
    app.form_name = String::new();
    app.form_type = RestaurantType::FoodStall;
    app.form_cuisine_type = String::new();
    app.form_location = String::new();
    app.form_location_desc = String::new();
    app.form_location_lat = String::new();
    app.form_location_lng = String::new();
    app.form_location_address = String::new();
    app.form_location_city = String::new();
    app.form_location_state = String::new();
    app.form_location_zip = String::new();
    app.form_location_road1 = String::new();
    app.form_location_road2 = String::new();
    app.form_location_venue = String::new();
    app.form_location_stall = String::new();
    app.form_location_lot = String::new();
    app.form_open_time = "08:00:00".to_string();
    app.form_close_time = "22:00:00".to_string();
    app.form_open_status = true;
    app.form_description = String::new();
    app.form_menu_items = Vec::new();
    app.form_menu_item_name = String::new();
    app.form_menu_item_price = String::new();
    app.form_menu_item_description = String::new();
    app.form_menu_item_selected = None;
    app.form_menu_items_removed = Vec::new();
    assert(app@ =~= old(app)@.cleared_form());
}

/// Fills the form with the entry `r`.
pub fn populate_form_from_restaurant(app: &mut App, r: &Restaurant)
    ensures
        final(app)@ == old(app)@.form_of(*r),
{
    app.form_name = r.name.clone();
    app.form_type = r.restaurant_type;
    app.form_cuisine_type = r.cuisine_type.clone();
    app.form_location = r.location.formatted.clone();
    app.form_location_desc = string_or_empty(&r.location.description);
    app.form_location_lat = string_or_empty(&r.location.lat);
    app.form_location_lng = string_or_empty(&r.location.lng);
    app.form_location_address = string_or_empty(&r.location.address);
    app.form_location_city = string_or_empty(&r.location.city);
    app.form_location_state = string_or_empty(&r.location.state);
    app.form_location_zip = string_or_empty(&r.location.zip_code);
    app.form_location_road1 = string_or_empty(&r.location.road_1);
    app.form_location_road2 = string_or_empty(&r.location.road_2);
    app.form_location_venue = string_or_empty(&r.location.venue_name);
    app.form_location_stall = string_or_empty(&r.location.stall_number);
    app.form_location_lot = string_or_empty(&r.location.lot_name);
    app.form_open_time = r.open_time.clone();
    app.form_close_time = r.close_time.clone();
    app.form_open_status = r.open_status;
    app.form_description = string_or_empty(&r.description);
    app.form_menu_items = copy_menu(&r.menu_items);
    app.form_menu_item_name = String::new();
    app.form_menu_item_price = String::new();
    app.form_menu_item_description = String::new();
    app.form_menu_item_selected = None;
    app.form_menu_items_removed = Vec::new();
    assert(app@ =~= old(app)@.form_of(*r));
}

/// Types `c` into the focused text field of the form.
pub fn form_type_char(app: &mut App, c: char)
    ensures
        final(app)@ == old(app)@.form_typed(c),
{
    match app.focus {
        Focus::FormName => push_char(&mut app.form_name, c),
        Focus::FormCuisineType => push_char(&mut app.form_cuisine_type, c),
        Focus::FormLocation => push_char(&mut app.form_location, c),
        Focus::FormLocationDesc => push_char(&mut app.form_location_desc, c),
        Focus::FormLocationLat => push_char(&mut app.form_location_lat, c),
        Focus::FormLocationLng => push_char(&mut app.form_location_lng, c),
        Focus::FormLocationAddress => push_char(&mut app.form_location_address, c),
        Focus::FormLocationCity => push_char(&mut app.form_location_city, c),
        Focus::FormLocationState => push_char(&mut app.form_location_state, c),
        Focus::FormLocationZip => push_char(&mut app.form_location_zip, c),
        Focus::FormLocationRoad1 => push_char(&mut app.form_location_road1, c),
        Focus::FormLocationRoad2 => push_char(&mut app.form_location_road2, c),
        Focus::FormLocationVenue => push_char(&mut app.form_location_venue, c),
        Focus::FormLocationStall => push_char(&mut app.form_location_stall, c),
        Focus::FormLocationLot => push_char(&mut app.form_location_lot, c),
        Focus::FormOpenTime => push_char(&mut app.form_open_time, c),
        Focus::FormCloseTime => push_char(&mut app.form_close_time, c),
        Focus::FormDescription => push_char(&mut app.form_description, c),
        Focus::FormMenuItemName => push_char(&mut app.form_menu_item_name, c),
        Focus::FormMenuItemPrice => push_char(&mut app.form_menu_item_price, c),
        Focus::FormMenuItemDescription => push_char(&mut app.form_menu_item_description, c),
        _ => {},
    }
}

/// Erases the last character of the focused text field of the form.
pub fn form_erase_char(app: &mut App)
    ensures
        final(app)@ == old(app)@.form_erased(),
{
    match app.focus {
        Focus::FormName => pop_quiet(&mut app.form_name),
        Focus::FormCuisineType => pop_quiet(&mut app.form_cuisine_type),
        Focus::FormLocation => pop_quiet(&mut app.form_location),
        Focus::FormLocationDesc => pop_quiet(&mut app.form_location_desc),
        Focus::FormLocationLat => pop_quiet(&mut app.form_location_lat),
        Focus::FormLocationLng => pop_quiet(&mut app.form_location_lng),
        Focus::FormLocationAddress => pop_quiet(&mut app.form_location_address),
        Focus::FormLocationCity => pop_quiet(&mut app.form_location_city),
        Focus::FormLocationState => pop_quiet(&mut app.form_location_state),
        Focus::FormLocationZip => pop_quiet(&mut app.form_location_zip),
        Focus::FormLocationRoad1 => pop_quiet(&mut app.form_location_road1),
        Focus::FormLocationRoad2 => pop_quiet(&mut app.form_location_road2),
        Focus::FormLocationVenue => pop_quiet(&mut app.form_location_venue),
        Focus::FormLocationStall => pop_quiet(&mut app.form_location_stall),
        Focus::FormLocationLot => pop_quiet(&mut app.form_location_lot),
        Focus::FormOpenTime => pop_quiet(&mut app.form_open_time),
        Focus::FormCloseTime => pop_quiet(&mut app.form_close_time),
        Focus::FormDescription => pop_quiet(&mut app.form_description),
        Focus::FormMenuItemName => pop_quiet(&mut app.form_menu_item_name),
        Focus::FormMenuItemPrice => pop_quiet(&mut app.form_menu_item_price),
        Focus::FormMenuItemDescription => pop_quiet(&mut app.form_menu_item_description),
        _ => {},
    }
}


/// The field that Tab moves to from `f` on the form: through every field in
/// order, from the menu list back to the name; from a field that is not on
/// the form, to the name.
pub open spec fn next_form_focus(f: Focus) -> Focus {
    match f {
        Focus::FormName => Focus::FormType,
        Focus::FormType => Focus::FormCuisineType,
        Focus::FormCuisineType => Focus::FormLocation,
        Focus::FormLocation => Focus::FormLocationDesc,
        Focus::FormLocationDesc => Focus::FormLocationLat,
        Focus::FormLocationLat => Focus::FormLocationLng,
        Focus::FormLocationLng => Focus::FormLocationAddress,
        Focus::FormLocationAddress => Focus::FormLocationCity,
        Focus::FormLocationCity => Focus::FormLocationState,
        Focus::FormLocationState => Focus::FormLocationZip,
        Focus::FormLocationZip => Focus::FormLocationRoad1,
        Focus::FormLocationRoad1 => Focus::FormLocationRoad2,
        Focus::FormLocationRoad2 => Focus::FormLocationVenue,
        Focus::FormLocationVenue => Focus::FormLocationStall,
        Focus::FormLocationStall => Focus::FormLocationLot,
        Focus::FormLocationLot => Focus::FormOpenTime,
        Focus::FormOpenTime => Focus::FormCloseTime,
        Focus::FormCloseTime => Focus::FormOpenStatus,
        Focus::FormOpenStatus => Focus::FormDescription,
        Focus::FormDescription => Focus::FormMenuItemName,
        Focus::FormMenuItemName => Focus::FormMenuItemPrice,
        Focus::FormMenuItemPrice => Focus::FormMenuItemDescription,
        Focus::FormMenuItemDescription => Focus::FormMenuList,
        Focus::FormMenuList => Focus::FormName,
        _ => Focus::FormName,
    }
}

pub fn form_focus_after(f: Focus) -> (r: Focus)
    ensures
        r == next_form_focus(f),
{
    match f {
        Focus::FormName => Focus::FormType,
        Focus::FormType => Focus::FormCuisineType,
        Focus::FormCuisineType => Focus::FormLocation,
        Focus::FormLocation => Focus::FormLocationDesc,
        Focus::FormLocationDesc => Focus::FormLocationLat,
        Focus::FormLocationLat => Focus::FormLocationLng,
        Focus::FormLocationLng => Focus::FormLocationAddress,
        Focus::FormLocationAddress => Focus::FormLocationCity,
        Focus::FormLocationCity => Focus::FormLocationState,
        Focus::FormLocationState => Focus::FormLocationZip,
        Focus::FormLocationZip => Focus::FormLocationRoad1,
        Focus::FormLocationRoad1 => Focus::FormLocationRoad2,
        Focus::FormLocationRoad2 => Focus::FormLocationVenue,
        Focus::FormLocationVenue => Focus::FormLocationStall,
        Focus::FormLocationStall => Focus::FormLocationLot,
        Focus::FormLocationLot => Focus::FormOpenTime,
        Focus::FormOpenTime => Focus::FormCloseTime,
        Focus::FormCloseTime => Focus::FormOpenStatus,
        Focus::FormOpenStatus => Focus::FormDescription,
        Focus::FormDescription => Focus::FormMenuItemName,
        Focus::FormMenuItemName => Focus::FormMenuItemPrice,
        Focus::FormMenuItemPrice => Focus::FormMenuItemDescription,
        Focus::FormMenuItemDescription => Focus::FormMenuList,
        Focus::FormMenuList => Focus::FormName,
        _ => Focus::FormName,
    }
}

/// The sort order of the menu entry added after `len` entries.
pub open spec fn sort_order_after(len: nat) -> i32 {
    (len + 1) as i32
}

fn sort_order_for(n: usize) -> (r: i32)
    ensures
        r == sort_order_after(n as nat),
{
    if n < usize::MAX {
        (n + 1) as i32
    } else {
        proof {
            let ghost w: u64 = n as u64;
            if n == 0xffff_ffff_ffff_ffff {
                assert(((w + 1) as i32) == 0i32) by (bit_vector)
                    requires
                        w == 0xffff_ffff_ffff_ffffu64,
                ;
            } else {
                assert(n == 0xffff_ffff);
                assert(((w + 1) as i32) == 0i32) by (bit_vector)
                    requires
                        w == 0xffff_ffffu64,
                ;
            }
        }
        0
    }
}

/// The selection in the menu list after moving up: the previous entry, or
/// the last one when nothing was selected.
pub open spec fn menu_select_up(sel: Option<usize>, len: nat) -> Option<usize> {
    if len == 0 {
        sel
    } else {
        match sel {
            Some(i) => if i > 0 {
                Some((i - 1) as usize)
            } else {
                Some(i)
            },
            None => Some((len - 1) as usize),
        }
    }
}

/// The selection in a list after moving down: the next entry, or the
/// first one when nothing was selected; it stays on the last entry.
pub open spec fn select_down(sel: Option<usize>, len: nat) -> Option<usize> {
    if len == 0 {
        sel
    } else {
        match sel {
            Some(i) => if i < len - 1 {
                Some((i + 1) as usize)
            } else {
                Some(i)
            },
            None => Some(0),
        }
    }
}

/// The selection in a list after moving up: the previous entry, or the
/// first one when nothing was selected.
pub open spec fn select_up(sel: Option<usize>, len: nat) -> Option<usize> {
    if len == 0 {
        sel
    } else {
        match sel {
            Some(i) => if i > 0 {
                Some((i - 1) as usize)
            } else {
                Some(i)
            },
            None => Some(0),
        }
    }
}

pub fn move_up(sel: Option<usize>, len: usize) -> (r: Option<usize>)
    ensures
        r == select_up(sel, len as nat),
{
    if len == 0 {
        sel
    } else {
        match sel {
            Some(i) => if i > 0 {
                Some(i - 1)
            } else {
                Some(i)
            },
            None => Some(0),
        }
    }
}

pub fn move_down(sel: Option<usize>, len: usize) -> (r: Option<usize>)
    ensures
        r == select_down(sel, len as nat),
{
    if len == 0 {
        sel
    } else {
        match sel {
            Some(i) => if i < len - 1 {
                Some(i + 1)
            } else {
                Some(i)
            },
            None => Some(0),
        }
    }
}

/// The menu selection is absent or names an entry of the menu.
pub open spec fn menu_selection_ok(v: AppView) -> bool {
    v.form_menu_item_selected matches Some(i) ==> i < v.form_menu_items.len()
}

impl AppView {
    /// The menu entry made from the menu inputs: not yet saved (id 0),
    /// available, placed after the current entries.
    pub open spec fn new_menu_entry(self) -> MenuItemView {
        MenuItemView {
            id: 0,
            restaurant_id: 0,
            name: trimmed(self.form_menu_item_name),
            description: optional_text(self.form_menu_item_description),
            price: optional_text(self.form_menu_item_price),
            is_sold_out: false,
            sort_order: sort_order_after(self.form_menu_items.len()),
        }
    }

    /// Adds the entry typed into the menu inputs and empties them; refused
    /// when the name is blank.
    pub open spec fn menu_item_added(self) -> AppView {
        if trimmed(self.form_menu_item_name).len() == 0 {
            self.with_status("Menu item name cannot be empty"@)
        } else {
            AppView {
                form_menu_items: self.form_menu_items.push(self.new_menu_entry()),
                form_menu_item_name: Seq::empty(),
                form_menu_item_price: Seq::empty(),
                form_menu_item_description: Seq::empty(),
                ..self
            }.with_status("Menu item added"@)
        }
    }

    /// Flips the sold-out mark of the selected menu entry.
    pub open spec fn menu_item_toggled(self) -> AppView {
        match self.form_menu_item_selected {
            Some(i) => if i < self.form_menu_items.len() {
                let it = self.form_menu_items[i as int];
                AppView {
                    form_menu_items: self.form_menu_items.update(
                        i as int,
                        MenuItemView { is_sold_out: !it.is_sold_out, ..it },
                    ),
                    ..self
                }.with_status("Menu item toggled"@)
            } else {
                self
            },
            None => self,
        }
    }

    /// Removes the selected menu entry, remembering its id when it is a
    /// saved one, and keeps the selection on the list.
    pub open spec fn menu_item_removed(self) -> AppView
        recommends
            menu_selection_ok(self),
    {
        match self.form_menu_item_selected {
            Some(i) => {
                let it = self.form_menu_items[i as int];
                let rest = self.form_menu_items.remove(i as int);
                let removed = if it.id > 0 {
                    self.form_menu_items_removed.push(it.id)
                } else {
                    self.form_menu_items_removed
                };
                let sel = if i >= rest.len() {
                    if rest.len() == 0 {
                        None
                    } else {
                        Some((rest.len() - 1) as usize)
                    }
                } else {
                    Some(i)
                };
                AppView {
                    form_menu_items: rest,
                    form_menu_items_removed: removed,
                    form_menu_item_selected: sel,
                    ..self
                }.with_status("Menu item removed"@)
            },
            None => self,
        }
    }
}

/// Adds the entry typed into the menu inputs (see `menu_item_added`).
pub fn add_menu_item(app: &mut App)
    ensures
        final(app)@ == old(app)@.menu_item_added(),
{
    let name = trim_text(app.form_menu_item_name.as_str());
    if name.as_str().is_empty() {
        app.set_status("Menu item name cannot be empty");
        return;
    }
    let price = optional_trimmed(app.form_menu_item_price.as_str());
    let description = optional_trimmed(app.form_menu_item_description.as_str());
    let order = sort_order_for(app.form_menu_items.len());
    let item = MenuItem {
        id: 0,
        restaurant_id: 0,
        name,
        description,
        price,
        is_sold_out: false,
        sort_order: order,
    };
    let ghost before = app.form_menu_items@;
    app.form_menu_items.push(item);
    assert(menu_views(app.form_menu_items@) =~= menu_views(before).push(item@));
    app.form_menu_item_name = String::new();
    app.form_menu_item_price = String::new();
    app.form_menu_item_description = String::new();
    app.set_status("Menu item added");
}

/// Flips the sold-out mark of the selected menu entry.
pub fn toggle_menu_item(app: &mut App)
    ensures
        final(app)@ == old(app)@.menu_item_toggled(),
{
    match app.form_menu_item_selected {
        Some(idx) => {
            if idx < app.form_menu_items.len() {
                let mut item = app.form_menu_items[idx].duplicate();
                item.is_sold_out = !item.is_sold_out;
                let ghost before = app.form_menu_items@;
                app.form_menu_items.set(idx, item);
                assert(menu_views(app.form_menu_items@) =~= menu_views(before).update(idx as int, item@));
                app.set_status("Menu item toggled");
            }
        },
        None => {},
    }
}

/// Removes the selected menu entry (see `menu_item_removed`).
pub fn remove_menu_item(app: &mut App)
    requires
        menu_selection_ok(old(app)@),
    ensures
        final(app)@ == old(app)@.menu_item_removed(),
{
    match app.form_menu_item_selected {
        Some(idx) => {
            let id = app.form_menu_items[idx].id;
            if id > 0 {
                app.form_menu_items_removed.push(id);
            }
            let ghost before = app.form_menu_items@;
            let _ = app.form_menu_items.remove(idx);
            assert(menu_views(app.form_menu_items@) =~= menu_views(before).remove(idx as int));
            let n = app.form_menu_items.len();
            if idx >= n {
                app.form_menu_item_selected = if n == 0 {
                    None
                } else {
                    Some(n - 1)
                };
            }
            app.set_status("Menu item removed");
        },
        None => {},
    }
}

} // verus!
