//! The key-driven state machine. Each handler takes the state and a key
//! press and gives the next state and a `Command`: nothing, quit, or an API
//! call whose reply `on_reply` turns into the next state and command. A
//! transport that makes each call and feeds back its reply until the
//! command is no longer a call reproduces one key press of the program.

use vstd::prelude::*;
use crate::api::{ApiClient, Restaurant, UserRole};
use crate::app::{AfterFetch, App, AppView, ApiCall, Command, Focus, ListKind, Pending, Screen};
use crate::form::{
    add_menu_item, clear_form, form_erase_char, form_focus_after, form_type_char, menu_select_up, menu_selection_ok,
    move_down, move_up, next_form_focus, pop_quiet, pop_text, populate_form_from_restaurant, remove_menu_item,
    select_down, select_up, toggle_menu_item,
};
use vstd::utf8::encode_utf8;
use crate::text::push_char;

verus! {

#[derive(Clone, Copy, Debug, PartialEq, Eq, Structural)]
pub enum KeyCode {
    Char(char),
    Tab,
    Backspace,
    Enter,
    Esc,
    Up,
    Down,
    /// Any other key; no screen reacts to it.
    Other,
}

/// Whether Control was held.
#[allow(non_camel_case_types)]
#[derive(Clone, Copy, Debug, PartialEq, Eq, Structural)]
pub enum KeyModifiers {
    NONE,
    CONTROL,
}

#[derive(Clone, Copy, Debug, PartialEq, Eq, Structural)]
pub struct KeyEvent {
    pub code: KeyCode,
    pub modifiers: KeyModifiers,
}

impl KeyEvent {
    pub fn new(code: KeyCode, modifiers: KeyModifiers) -> (r: KeyEvent)
        ensures
            r.code == code,
            r.modifiers == modifiers,
    {
        KeyEvent { code, modifiers }
    }

    pub open spec fn is_ctrl(self, c: char) -> bool {
        self.modifiers == KeyModifiers::CONTROL && self.code == KeyCode::Char(c)
    }
}

/// Moves to `screen` with the focus on `focus`, clearing the sign-in inputs
/// and the status line.
pub open spec fn switch_sign_in(v: AppView, screen: Screen, focus: Focus) -> AppView {
    AppView {
        screen,
        focus,
        input_username: Seq::empty(),
        input_password: Seq::empty(),
        status_message: None,
        ..v
    }
}

fn do_switch_sign_in(app: &mut App, screen: Screen, focus: Focus)
    ensures
        final(app)@ == switch_sign_in(old(app)@, screen, focus),
{
    app.screen = screen;
    app.focus = focus;
    app.input_username = String::new();
    app.input_password = String::new();
    app.clear_status();
}

/// Types `c` into the username or password input when `user` or `pass`
/// has the focus, after clearing the status line.
pub open spec fn type_credential(v: AppView, c: char, user: Focus, pass: Focus) -> AppView {
    let w = v.without_status();
    if v.focus == user {
        AppView { input_username: w.input_username.push(c), ..w }
    } else if v.focus == pass {
        AppView { input_password: w.input_password.push(c), ..w }
    } else {
        w
    }
}

fn do_type_credential(app: &mut App, c: char, user: Focus, pass: Focus)
    ensures
        final(app)@ == type_credential(old(app)@, c, user, pass),
{
    app.clear_status();
    if app.focus == user {
        push_char(&mut app.input_username, c);
    } else if app.focus == pass {
        push_char(&mut app.input_password, c);
    }
}

/// Erases the last character of the focused username or password input.
pub open spec fn erase_credential(v: AppView, user: Focus, pass: Focus) -> AppView {
    if v.focus == user {
        AppView { input_username: pop_text(v.input_username), ..v }
    } else if v.focus == pass {
        AppView { input_password: pop_text(v.input_password), ..v }
    } else {
        v
    }
}

fn do_erase_credential(app: &mut App, user: Focus, pass: Focus)
    ensures
        final(app)@ == erase_credential(old(app)@, user, pass),
{
    if app.focus == user {
        pop_quiet(&mut app.input_username);
    } else if app.focus == pass {
        pop_quiet(&mut app.input_password);
    }
}

/// Sets the status line, records `pending` and asks for `call`.
pub open spec fn start_call(v: AppView, msg: Seq<char>, pending: Pending, call: ApiCall) -> (AppView, Command) {
    (AppView { pending: Some(pending), ..v.with_status(msg) }, Command::Call(call))
}

fn do_start_call(app: &mut App, msg: &str, pending: Pending, call: ApiCall) -> (r: Command)
    ensures
        (final(app)@, r) == start_call(old(app)@, msg@, pending, call),
{
    app.set_status(msg);
    app.pending = Some(pending);
    Command::Call(call)
}

/// The sign-in screen.
pub open spec fn login_keys(v: AppView, key: KeyEvent) -> (AppView, Command) {
    if key.is_ctrl('s') {
        (switch_sign_in(v, Screen::Signup, Focus::SignupUsername), Command::Idle)
    } else if key.is_ctrl('r') {
        (switch_sign_in(v, Screen::ResetPassword, Focus::ResetUsername), Command::Idle)
    } else {
        match key.code {
            KeyCode::Tab => {
                let f = if v.focus == Focus::LoginUsername {
                    Focus::LoginPassword
                } else {
                    Focus::LoginUsername
                };
                (AppView { focus: f, ..v }, Command::Idle)
            },
            KeyCode::Char(c) => (
                type_credential(v, c, Focus::LoginUsername, Focus::LoginPassword),
                Command::Idle,
            ),
            KeyCode::Backspace => (
                erase_credential(v, Focus::LoginUsername, Focus::LoginPassword),
                Command::Idle,
            ),
            KeyCode::Enter => start_call(v, "Signing in..."@, Pending::Login, ApiCall::Login),
            _ => (v, Command::Idle),
        }
    }
}

pub fn handle_login_keys(app: &mut App, key: KeyEvent) -> (r: Command)
    ensures
        (final(app)@, r) == login_keys(old(app)@, key),
{
    if key.modifiers == KeyModifiers::CONTROL && key.code == KeyCode::Char('s') {
        do_switch_sign_in(app, Screen::Signup, Focus::SignupUsername);
        return Command::Idle;
    }
    if key.modifiers == KeyModifiers::CONTROL && key.code == KeyCode::Char('r') {
        do_switch_sign_in(app, Screen::ResetPassword, Focus::ResetUsername);
        return Command::Idle;
    }
    match key.code {
        KeyCode::Tab => {
            app.focus = if app.focus == Focus::LoginUsername {
                Focus::LoginPassword
            } else {
                Focus::LoginUsername
            };
            Command::Idle
        },
        KeyCode::Char(c) => {
            do_type_credential(app, c, Focus::LoginUsername, Focus::LoginPassword);
            Command::Idle
        },
        KeyCode::Backspace => {
            do_erase_credential(app, Focus::LoginUsername, Focus::LoginPassword);
            Command::Idle
        },
        KeyCode::Enter => do_start_call(app, "Signing in...", Pending::Login, ApiCall::Login),
        _ => Command::Idle,
    }
}

/// The sign-up screen.
pub open spec fn signup_keys(v: AppView, key: KeyEvent) -> (AppView, Command) {
    match key.code {
        KeyCode::Tab => {
            let f = if v.focus == Focus::SignupUsername {
                Focus::SignupPassword
            } else if v.focus == Focus::SignupPassword {
                Focus::SignupRole
            } else {
                Focus::SignupUsername
            };
            (AppView { focus: f, ..v }, Command::Idle)
        },
        KeyCode::Char(c) => if c == ' ' && v.focus == Focus::SignupRole {
            (AppView { input_role: v.input_role.spec_next(), ..v }, Command::Idle)
        } else {
            (type_credential(v, c, Focus::SignupUsername, Focus::SignupPassword), Command::Idle)
        },
        KeyCode::Esc => (switch_sign_in(v, Screen::Login, Focus::LoginUsername), Command::Idle),
        KeyCode::Backspace => (
            erase_credential(v, Focus::SignupUsername, Focus::SignupPassword),
            Command::Idle,
        ),
        KeyCode::Enter => start_call(v, "Registering..."@, Pending::Signup, ApiCall::Signup),
        _ => (v, Command::Idle),
    }
}

pub fn handle_signup_keys(app: &mut App, key: KeyEvent) -> (r: Command)
    ensures
        (final(app)@, r) == signup_keys(old(app)@, key),
{
    match key.code {
        KeyCode::Tab => {
            app.focus = if app.focus == Focus::SignupUsername {
                Focus::SignupPassword
            } else if app.focus == Focus::SignupPassword {
                Focus::SignupRole
            } else {
                Focus::SignupUsername
            };
            Command::Idle
        },
        KeyCode::Char(c) => {
            if c == ' ' && app.focus == Focus::SignupRole {
                app.input_role = app.input_role.next();
            } else {
                do_type_credential(app, c, Focus::SignupUsername, Focus::SignupPassword);
            }
            Command::Idle
        },
        KeyCode::Esc => {
            do_switch_sign_in(app, Screen::Login, Focus::LoginUsername);
            Command::Idle
        },
        KeyCode::Backspace => {
            do_erase_credential(app, Focus::SignupUsername, Focus::SignupPassword);
            Command::Idle
        },
        KeyCode::Enter => do_start_call(app, "Registering...", Pending::Signup, ApiCall::Signup),
        _ => Command::Idle,
    }
}

/// The password-reset screen.
pub open spec fn reset_keys(v: AppView, key: KeyEvent) -> (AppView, Command) {
    match key.code {
        KeyCode::Tab => {
            let f = if v.focus == Focus::ResetUsername {
                Focus::ResetPassword
            } else {
                Focus::ResetUsername
            };
            (AppView { focus: f, ..v }, Command::Idle)
        },
        KeyCode::Esc => (switch_sign_in(v, Screen::Login, Focus::LoginUsername), Command::Idle),
        KeyCode::Char(c) => (
            type_credential(v, c, Focus::ResetUsername, Focus::ResetPassword),
            Command::Idle,
        ),
        KeyCode::Backspace => (
            erase_credential(v, Focus::ResetUsername, Focus::ResetPassword),
            Command::Idle,
        ),
        KeyCode::Enter => start_call(
            v,
            "Updating password..."@,
            Pending::ResetPassword,
            ApiCall::ResetPassword,
        ),
        _ => (v, Command::Idle),
    }
}

pub fn handle_reset_keys(app: &mut App, key: KeyEvent) -> (r: Command)
    ensures
        (final(app)@, r) == reset_keys(old(app)@, key),
{
    match key.code {
        KeyCode::Tab => {
            app.focus = if app.focus == Focus::ResetUsername {
                Focus::ResetPassword
            } else {
                Focus::ResetUsername
            };
            Command::Idle
        },
        KeyCode::Esc => {
            do_switch_sign_in(app, Screen::Login, Focus::LoginUsername);
            Command::Idle
        },
        KeyCode::Char(c) => {
            do_type_credential(app, c, Focus::ResetUsername, Focus::ResetPassword);
            Command::Idle
        },
        KeyCode::Backspace => {
            do_erase_credential(app, Focus::ResetUsername, Focus::ResetPassword);
            Command::Idle
        },
        KeyCode::Enter => do_start_call(
            app,
            "Updating password...",
            Pending::ResetPassword,
            ApiCall::ResetPassword,
        ),
        _ => Command::Idle,
    }
}


/// The entry of `list` that `sel` points at, if it points into the list.
pub open spec fn selected_entry(list: Seq<Restaurant>, sel: Option<usize>) -> Option<Restaurant> {
    match sel {
        Some(i) => if i < list.len() {
            Some(list[i as int])
        } else {
            None
        },
        None => None,
    }
}

/// Opens the form, emptied, for a new entry.
pub open spec fn new_entry_form(v: AppView) -> AppView {
    AppView {
        screen: Screen::AddRestaurant,
        focus: Focus::FormName,
        editing_restaurant_id: None,
        ..v
    }.cleared_form().without_status()
}

fn open_new_entry_form(app: &mut App)
    ensures
        final(app)@ == new_entry_form(old(app)@),
{
    app.screen = Screen::AddRestaurant;
    app.focus = Focus::FormName;
    app.editing_restaurant_id = None;
    clear_form(app);
    app.clear_status();
}

/// Opens the form on the entry `r` to edit it.
pub open spec fn edit_entry_form(v: AppView, r: Restaurant) -> AppView {
    AppView {
        screen: Screen::EditRestaurant,
        focus: Focus::FormName,
        editing_restaurant_id: Some(r.id),
        ..v
    }.form_of(r).without_status()
}

fn open_edit_form(app: &mut App, list: ListKind, idx: usize)
    requires
        list == ListKind::Restaurants ==> idx < old(app).restaurants.len(),
        list == ListKind::MyRestaurants ==> idx < old(app).my_restaurants.len(),
        list != ListKind::Favorites,
    ensures
        final(app)@ == edit_entry_form(
            old(app)@,
            if list == ListKind::Restaurants {
                old(app).restaurants@[idx as int]
            } else {
                old(app).my_restaurants@[idx as int]
            },
        ),
{
    let r = if list == ListKind::Restaurants {
        app.restaurants[idx].duplicate()
    } else {
        app.my_restaurants[idx].duplicate()
    };
    app.screen = Screen::EditRestaurant;
    app.focus = Focus::FormName;
    app.editing_restaurant_id = Some(r.id);
    populate_form_from_restaurant(app, &r);
    app.clear_status();
}

/// Moves to another screen and focus, then starts fetching `list`.
pub open spec fn go_and_fetch(v: AppView, screen: Screen, focus: Focus, list: ListKind, after: AfterFetch) -> (AppView, Command) {
    AppView { screen, focus, ..v }.begin_fetch(list, after)
}

fn do_go_and_fetch(app: &mut App, screen: Screen, focus: Focus, list: ListKind, after: AfterFetch) -> (r: Command)
    ensures
        (final(app)@, r) == go_and_fetch(old(app)@, screen, focus, list, after),
{
    app.screen = screen;
    app.focus = focus;
    app.fetch_list(list, after)
}

/// A letter typed on the restaurant list, outside the search field.
pub open spec fn dashboard_char(v: AppView, c: char) -> (AppView, Command) {
    let role = v.api_client.role;
    let sel = v.selected_restaurant_index;
    let chosen = selected_entry(v.restaurants, sel);
    if c == 's' {
        (AppView { focus: Focus::SearchInput, ..v.without_status() }, Command::Idle)
    } else if c == 'm' && role == Some(UserRole::Customer) {
        go_and_fetch(v, Screen::MyRestaurants, Focus::MyRestaurantsList, ListKind::MyRestaurants, AfterFetch::Clear)
    } else if c == 'f' && role == Some(UserRole::Consumer) {
        match chosen {
            Some(r) => start_call(
                v,
                "Adding favorite..."@,
                Pending::AddFavorite,
                ApiCall::AddFavorite { restaurant_id: r.id },
            ),
            None => if sel is None {
                (v.with_status("Please select a restaurant to favorite"@), Command::Idle)
            } else {
                (v, Command::Idle)
            },
        }
    } else if c == 'v' && role == Some(UserRole::Consumer) {
        go_and_fetch(v, Screen::FavoritesView, Focus::FavoritesList, ListKind::Favorites, AfterFetch::Clear)
    } else if c == 'a' && role == Some(UserRole::Admin) {
        (new_entry_form(v), Command::Idle)
    } else if c == 'e' && role == Some(UserRole::Admin) {
        match chosen {
            Some(r) => (edit_entry_form(v, r), Command::Idle),
            None => if sel is None {
                (v.with_status("Please select a restaurant to edit"@), Command::Idle)
            } else {
                (v, Command::Idle)
            },
        }
    } else if c == 't' && role == Some(UserRole::Admin) {
        match chosen {
            Some(r) => start_call(
                v,
                "Toggling status..."@,
                Pending::ToggleStatus { list: ListKind::Restaurants },
                ApiCall::UpdateRestaurantStatus { id: r.id, open_status: !r.open_status },
            ),
            None => (v, Command::Idle),
        }
    } else if c == 'd' && role == Some(UserRole::Admin) {
        match chosen {
            Some(r) => start_call(
                v,
                "Deleting entry..."@,
                Pending::DeleteRestaurant { list: ListKind::Restaurants },
                ApiCall::DeleteRestaurant { id: r.id },
            ),
            None => (v, Command::Idle),
        }
    } else if c == 'r' && role == Some(UserRole::Admin) {
        match chosen {
            Some(r) => start_call(
                v,
                "Updating approval status..."@,
                Pending::Approve,
                ApiCall::ApproveRestaurant { id: r.id, is_approved: !r.is_approved },
            ),
            None => if sel is None {
                (v.with_status("Please select a restaurant to approve"@), Command::Idle)
            } else {
                (v, Command::Idle)
            },
        }
    } else {
        (v, Command::Idle)
    }
}

/// The restaurant list: searching, moving the selection, and the actions
/// each role has on the selected entry.
pub open spec fn dashboard_keys(v: AppView, key: KeyEvent) -> (AppView, Command) {
    if v.focus == Focus::SearchInput && (key.code is Char || key.code is Backspace || key.code is Tab
        || key.code is Enter || key.code is Esc) {
        match key.code {
            KeyCode::Char(c) => AppView { search_query: v.search_query.push(c), ..v }.begin_fetch(
                ListKind::Restaurants,
                AfterFetch::Keep,
            ),
            KeyCode::Backspace => AppView { search_query: pop_text(v.search_query), ..v }.begin_fetch(
                ListKind::Restaurants,
                AfterFetch::Keep,
            ),
            _ => (AppView { focus: Focus::RestaurantList, ..v }, Command::Idle),
        }
    } else {
        match key.code {
            KeyCode::Tab => {
                let f = if v.focus == Focus::SearchInput {
                    Focus::RestaurantList
                } else if v.focus == Focus::RestaurantList {
                    Focus::DetailPane
                } else if v.focus == Focus::DetailPane {
                    Focus::SearchInput
                } else {
                    Focus::RestaurantList
                };
                (AppView { focus: f, ..v }, Command::Idle)
            },
            KeyCode::Char(c) => dashboard_char(v, c),
            KeyCode::Up => (
                AppView {
                    selected_restaurant_index: select_up(v.selected_restaurant_index, v.restaurants.len()),
                    ..v
                },
                Command::Idle,
            ),
            KeyCode::Down => (
                AppView {
                    selected_restaurant_index: select_down(v.selected_restaurant_index, v.restaurants.len()),
                    ..v
                },
                Command::Idle,
            ),
            _ => (v, Command::Idle),
        }
    }
}

fn handle_dashboard_char(app: &mut App, c: char) -> (r: Command)
    ensures
        (final(app)@, r) == dashboard_char(old(app)@, c),
{
    let role = app.api_client.role;
    let sel = app.selected_restaurant_index;
    let n = app.restaurants.len();
    if c == 's' {
        app.clear_status();
        app.focus = Focus::SearchInput;
        Command::Idle
    } else if c == 'm' && role == Some(UserRole::Customer) {
        do_go_and_fetch(app, Screen::MyRestaurants, Focus::MyRestaurantsList, ListKind::MyRestaurants, AfterFetch::Clear)
    } else if c == 'f' && role == Some(UserRole::Consumer) {
        match sel {
            Some(i) => if i < n {
                let id = app.restaurants[i].id;
                do_start_call(app, "Adding favorite...", Pending::AddFavorite, ApiCall::AddFavorite { restaurant_id: id })
            } else {
                Command::Idle
            },
            None => {
                app.set_status("Please select a restaurant to favorite");
                Command::Idle
            },
        }
    } else if c == 'v' && role == Some(UserRole::Consumer) {
        do_go_and_fetch(app, Screen::FavoritesView, Focus::FavoritesList, ListKind::Favorites, AfterFetch::Clear)
    } else if c == 'a' && role == Some(UserRole::Admin) {
        open_new_entry_form(app);
        Command::Idle
    } else if c == 'e' && role == Some(UserRole::Admin) {
        match sel {
            Some(i) => {
                if i < n {
                    open_edit_form(app, ListKind::Restaurants, i);
                }
                Command::Idle
            },
            None => {
                app.set_status("Please select a restaurant to edit");
                Command::Idle
            },
        }
    } else if c == 't' && role == Some(UserRole::Admin) {
        match sel {
            Some(i) => if i < n {
                let id = app.restaurants[i].id;
                let open = app.restaurants[i].open_status;
                do_start_call(
                    app,
                    "Toggling status...",
                    Pending::ToggleStatus { list: ListKind::Restaurants },
                    ApiCall::UpdateRestaurantStatus { id, open_status: !open },
                )
            } else {
                Command::Idle
            },
            None => Command::Idle,
        }
    } else if c == 'd' && role == Some(UserRole::Admin) {
        match sel {
            Some(i) => if i < n {
                let id = app.restaurants[i].id;
                do_start_call(
                    app,
                    "Deleting entry...",
                    Pending::DeleteRestaurant { list: ListKind::Restaurants },
                    ApiCall::DeleteRestaurant { id },
                )
            } else {
                Command::Idle
            },
            None => Command::Idle,
        }
    } else if c == 'r' && role == Some(UserRole::Admin) {
        match sel {
            Some(i) => if i < n {
                let id = app.restaurants[i].id;
                let approved = app.restaurants[i].is_approved;
                do_start_call(
                    app,
                    "Updating approval status...",
                    Pending::Approve,
                    ApiCall::ApproveRestaurant { id, is_approved: !approved },
                )
            } else {
                Command::Idle
            },
            None => {
                app.set_status("Please select a restaurant to approve");
                Command::Idle
            },
        }
    } else {
        Command::Idle
    }
}

pub fn handle_dashboard_keys(app: &mut App, key: KeyEvent) -> (r: Command)
    ensures
        (final(app)@, r) == dashboard_keys(old(app)@, key),
{
    if app.focus == Focus::SearchInput {
        match key.code {
            KeyCode::Char(c) => {
                push_char(&mut app.search_query, c);
                return app.fetch_restaurants();
            },
            KeyCode::Backspace => {
                pop_quiet(&mut app.search_query);
                return app.fetch_restaurants();
            },
            KeyCode::Tab | KeyCode::Enter | KeyCode::Esc => {
                app.focus = Focus::RestaurantList;
                return Command::Idle;
            },
            _ => {},
        }
    }
    match key.code {
        KeyCode::Tab => {
            app.focus = if app.focus == Focus::SearchInput {
                Focus::RestaurantList
            } else if app.focus == Focus::RestaurantList {
                Focus::DetailPane
            } else if app.focus == Focus::DetailPane {
                Focus::SearchInput
            } else {
                Focus::RestaurantList
            };
            Command::Idle
        },
        KeyCode::Char(c) => handle_dashboard_char(app, c),
        KeyCode::Up => {
            app.selected_restaurant_index = move_up(app.selected_restaurant_index, app.restaurants.len());
            Command::Idle
        },
        KeyCode::Down => {
            app.selected_restaurant_index = move_down(app.selected_restaurant_index, app.restaurants.len());
            Command::Idle
        },
        _ => Command::Idle,
    }
}

/// The customer's own restaurants: moving the selection when the list has
/// the focus, and adding, editing, opening/closing and deleting entries.
pub open spec fn my_restaurants_keys(v: AppView, key: KeyEvent) -> (AppView, Command) {
    let sel = v.selected_my_restaurant_index;
    let chosen = selected_entry(v.my_restaurants, sel);
    if v.focus == Focus::MyRestaurantsList && key.code == KeyCode::Up {
        (AppView { selected_my_restaurant_index: select_up(sel, v.my_restaurants.len()), ..v }, Command::Idle)
    } else if v.focus == Focus::MyRestaurantsList && key.code == KeyCode::Down {
        (AppView { selected_my_restaurant_index: select_down(sel, v.my_restaurants.len()), ..v }, Command::Idle)
    } else {
        match key.code {
            KeyCode::Tab => {
                let f = if v.focus == Focus::MyRestaurantsList {
                    Focus::MyRestaurantsDetail
                } else {
                    Focus::MyRestaurantsList
                };
                (AppView { focus: f, ..v }, Command::Idle)
            },
            KeyCode::Esc => (
                AppView { screen: Screen::Dashboard, focus: Focus::RestaurantList, ..v.without_status() },
                Command::Idle,
            ),
            KeyCode::Char(c) => if c == 'a' {
                (new_entry_form(v), Command::Idle)
            } else if c == 'e' {
                match chosen {
                    Some(r) => (edit_entry_form(v, r), Command::Idle),
                    None => if sel is None {
                        (v.with_status("Please select a restaurant to edit"@), Command::Idle)
                    } else {
                        (v, Command::Idle)
                    },
                }
            } else if c == 't' {
                match chosen {
                    Some(r) => start_call(
                        v,
                        "Toggling status..."@,
                        Pending::ToggleStatus { list: ListKind::MyRestaurants },
                        ApiCall::UpdateRestaurantStatus { id: r.id, open_status: !r.open_status },
                    ),
                    None => (v, Command::Idle),
                }
            } else if c == 'd' {
                match chosen {
                    Some(r) => start_call(
                        v,
                        "Deleting entry..."@,
                        Pending::DeleteRestaurant { list: ListKind::MyRestaurants },
                        ApiCall::DeleteRestaurant { id: r.id },
                    ),
                    None => (v, Command::Idle),
                }
            } else {
                (v, Command::Idle)
            },
            _ => (v, Command::Idle),
        }
    }
}

pub fn handle_my_restaurants_keys(app: &mut App, key: KeyEvent) -> (r: Command)
    ensures
        (final(app)@, r) == my_restaurants_keys(old(app)@, key),
{
    let sel = app.selected_my_restaurant_index;
    let n = app.my_restaurants.len();
    if app.focus == Focus::MyRestaurantsList {
        match key.code {
            KeyCode::Up => {
                app.selected_my_restaurant_index = move_up(sel, n);
                return Command::Idle;
            },
            KeyCode::Down => {
                app.selected_my_restaurant_index = move_down(sel, n);
                return Command::Idle;
            },
            _ => {},
        }
    }
    match key.code {
        KeyCode::Tab => {
            app.focus = if app.focus == Focus::MyRestaurantsList {
                Focus::MyRestaurantsDetail
            } else {
                Focus::MyRestaurantsList
            };
            Command::Idle
        },
        KeyCode::Esc => {
            app.screen = Screen::Dashboard;
            app.focus = Focus::RestaurantList;
            app.clear_status();
            Command::Idle
        },
        KeyCode::Char(c) => {
            if c == 'a' {
                open_new_entry_form(app);
                Command::Idle
            } else if c == 'e' {
                match sel {
                    Some(i) => {
                        if i < n {
                            open_edit_form(app, ListKind::MyRestaurants, i);
                        }
                        Command::Idle
                    },
                    None => {
                        app.set_status("Please select a restaurant to edit");
                        Command::Idle
                    },
                }
            } else if c == 't' {
                match sel {
                    Some(i) => if i < n {
                        let id = app.my_restaurants[i].id;
                        let open = app.my_restaurants[i].open_status;
                        do_start_call(
                            app,
                            "Toggling status...",
                            Pending::ToggleStatus { list: ListKind::MyRestaurants },
                            ApiCall::UpdateRestaurantStatus { id, open_status: !open },
                        )
                    } else {
                        Command::Idle
                    },
                    None => Command::Idle,
                }
            } else if c == 'd' {
                match sel {
                    Some(i) => if i < n {
                        let id = app.my_restaurants[i].id;
                        do_start_call(
                            app,
                            "Deleting entry...",
                            Pending::DeleteRestaurant { list: ListKind::MyRestaurants },
                            ApiCall::DeleteRestaurant { id },
                        )
                    } else {
                        Command::Idle
                    },
                    None => Command::Idle,
                }
            } else {
                Command::Idle
            }
        },
        _ => Command::Idle,
    }
}

/// The consumer's favorites: moving the selection when the list has the
/// focus, and removing the selected favorite.
pub open spec fn favorites_keys(v: AppView, key: KeyEvent) -> (AppView, Command) {
    let sel = v.selected_favorite_index;
    if v.focus == Focus::FavoritesList && key.code == KeyCode::Up {
        (AppView { selected_favorite_index: select_up(sel, v.favorites.len()), ..v }, Command::Idle)
    } else if v.focus == Focus::FavoritesList && key.code == KeyCode::Down {
        (AppView { selected_favorite_index: select_down(sel, v.favorites.len()), ..v }, Command::Idle)
    } else {
        match key.code {
            KeyCode::Tab => {
                let f = if v.focus == Focus::FavoritesList {
                    Focus::FavoritesDetail
                } else {
                    Focus::FavoritesList
                };
                (AppView { focus: f, ..v }, Command::Idle)
            },
            KeyCode::Esc => (
                AppView { screen: Screen::Dashboard, focus: Focus::RestaurantList, ..v.without_status() },
                Command::Idle,
            ),
            KeyCode::Char(c) => if c == 'd' {
                match sel {
                    Some(i) => if i < v.favorites.len() {
                        start_call(
                            v,
                            "Removing favorite..."@,
                            Pending::RemoveFavorite,
                            ApiCall::RemoveFavorite { favorite_id: v.favorites[i as int].id },
                        )
                    } else {
                        (v, Command::Idle)
                    },
                    None => (v.with_status("Please select a favorite to remove"@), Command::Idle),
                }
            } else {
                (v, Command::Idle)
            },
            _ => (v, Command::Idle),
        }
    }
}

pub fn handle_favorites_keys(app: &mut App, key: KeyEvent) -> (r: Command)
    ensures
        (final(app)@, r) == favorites_keys(old(app)@, key),
{
    let sel = app.selected_favorite_index;
    let n = app.favorites.len();
    if app.focus == Focus::FavoritesList {
        match key.code {
            KeyCode::Up => {
                app.selected_favorite_index = move_up(sel, n);
                return Command::Idle;
            },
            KeyCode::Down => {
                app.selected_favorite_index = move_down(sel, n);
                return Command::Idle;
            },
            _ => {},
        }
    }
    match key.code {
        KeyCode::Tab => {
            app.focus = if app.focus == Focus::FavoritesList {
                Focus::FavoritesDetail
            } else {
                Focus::FavoritesList
            };
            Command::Idle
        },
        KeyCode::Esc => {
            app.screen = Screen::Dashboard;
            app.focus = Focus::RestaurantList;
            app.clear_status();
            Command::Idle
        },
        KeyCode::Char(c) => {
            if c == 'd' {
                match sel {
                    Some(i) => if i < n {
                        let id = app.favorites[i].id;
                        do_start_call(app, "Removing favorite...", Pending::RemoveFavorite, ApiCall::RemoveFavorite { favorite_id: id })
                    } else {
                        Command::Idle
                    },
                    None => {
                        app.set_status("Please select a favorite to remove");
                        Command::Idle
                    },
                }
            } else {
                Command::Idle
            }
        },
        _ => Command::Idle,
    }
}


/// The length in bytes of the UTF-8 text, as `str::len` reports it.
pub open spec fn byte_len(s: Seq<char>) -> usize {
    encode_utf8(s).len() as usize
}

/// A key that makes the form remove the selected menu entry, which needs a
/// selection inside the menu.
pub open spec fn form_key_safe(v: AppView, key: KeyEvent) -> bool {
    key.code == KeyCode::Char('d') && v.focus == Focus::FormMenuList ==> menu_selection_ok(v)
}

/// A menu input (name, price or description of a new menu entry) has the
/// focus.
pub open spec fn on_menu_input(f: Focus) -> bool {
    f == Focus::FormMenuItemName || f == Focus::FormMenuItemPrice || f == Focus::FormMenuItemDescription
}

/// Leaves the form without saving: back to the customer's own list or to
/// the restaurant list.
pub open spec fn leave_form(v: AppView) -> AppView {
    if v.api_client.role == Some(UserRole::Customer) {
        AppView {
            screen: Screen::MyRestaurants,
            focus: Focus::MyRestaurantsList,
            editing_restaurant_id: None,
            ..v.without_status()
        }
    } else {
        AppView {
            screen: Screen::Dashboard,
            focus: Focus::RestaurantList,
            editing_restaurant_id: None,
            ..v.without_status()
        }
    }
}

/// The form is saved: refused unless both times are eight bytes long
/// (HH:MM:SS); a new entry is created, or submitted when a customer adds
/// it; an edited entry is updated.
pub open spec fn form_saved(v: AppView) -> (AppView, Command) {
    if byte_len(v.form_open_time) != 8 || byte_len(v.form_close_time) != 8 {
        (v.with_status("Validation error: Time format must be HH:MM:SS"@), Command::Idle)
    } else {
        let w = v.with_status("Saving restaurant entry..."@);
        match v.screen {
            Screen::AddRestaurant => {
                let customer = v.api_client.role == Some(UserRole::Customer);
                (
                    AppView { pending: Some(Pending::SaveNew { customer }), ..w },
                    Command::Call(
                        if customer {
                            ApiCall::SubmitRestaurant
                        } else {
                            ApiCall::CreateRestaurant
                        },
                    ),
                )
            },
            Screen::EditRestaurant => match v.editing_restaurant_id {
                Some(id) => (
                    AppView { pending: Some(Pending::SaveEdit { restaurant_id: id }), ..w },
                    Command::Call(ApiCall::UpdateRestaurant { id }),
                ),
                None => (w, Command::Idle),
            },
            _ => (w, Command::Idle),
        }
    }
}

/// The restaurant form: moving between fields, typing, cycling the type,
/// switching open/closed, keeping the menu, leaving and saving.
pub open spec fn form_keys(v: AppView, key: KeyEvent) -> (AppView, Command) {
    let on_list = v.focus == Focus::FormMenuList;
    match key.code {
        KeyCode::Tab => (AppView { focus: next_form_focus(v.focus), ..v }, Command::Idle),
        KeyCode::Char(c) => if c == ' ' {
            if v.focus == Focus::FormType {
                (AppView { form_type: v.form_type.spec_next(), ..v }, Command::Idle)
            } else if v.focus == Focus::FormOpenStatus {
                (AppView { form_open_status: !v.form_open_status, ..v }, Command::Idle)
            } else if v.focus == Focus::FormOpenTime || v.focus == Focus::FormCloseTime {
                (v, Command::Idle)
            } else {
                (v.form_typed(' '), Command::Idle)
            }
        } else if c == 'a' && (on_menu_input(v.focus) || on_list) {
            (v.menu_item_added(), Command::Idle)
        } else if c == 't' && on_list {
            (v.menu_item_toggled(), Command::Idle)
        } else if c == 'd' && on_list {
            (v.menu_item_removed(), Command::Idle)
        } else {
            (v.form_typed(c), Command::Idle)
        },
        KeyCode::Up => if on_list {
            (
                AppView {
                    form_menu_item_selected: menu_select_up(v.form_menu_item_selected, v.form_menu_items.len()),
                    ..v
                },
                Command::Idle,
            )
        } else {
            (v, Command::Idle)
        },
        KeyCode::Down => if on_list {
            (
                AppView {
                    form_menu_item_selected: select_down(v.form_menu_item_selected, v.form_menu_items.len()),
                    ..v
                },
                Command::Idle,
            )
        } else {
            (v, Command::Idle)
        },
        KeyCode::Backspace => (v.form_erased(), Command::Idle),
        KeyCode::Esc => (leave_form(v), Command::Idle),
        KeyCode::Enter => if on_menu_input(v.focus) {
            (v.menu_item_added(), Command::Idle)
        } else {
            form_saved(v)
        },
        KeyCode::Other => (v, Command::Idle),
    }
}

fn save_form(app: &mut App) -> (r: Command)
    ensures
        (final(app)@, r) == form_saved(old(app)@),
{
    if app.form_open_time.as_str().len() != 8 || app.form_close_time.as_str().len() != 8 {
        app.set_status("Validation error: Time format must be HH:MM:SS");
        return Command::Idle;
    }
    app.set_status("Saving restaurant entry...");
    match app.screen {
        Screen::AddRestaurant => {
            let customer = app.api_client.role == Some(UserRole::Customer);
            app.pending = Some(Pending::SaveNew { customer });
            if customer {
                Command::Call(ApiCall::SubmitRestaurant)
            } else {
                Command::Call(ApiCall::CreateRestaurant)
            }
        },
        Screen::EditRestaurant => match app.editing_restaurant_id {
            Some(id) => {
                app.pending = Some(Pending::SaveEdit { restaurant_id: id });
                Command::Call(ApiCall::UpdateRestaurant { id })
            },
            None => Command::Idle,
        },
        _ => Command::Idle,
    }
}

pub fn handle_form_keys(app: &mut App, key: KeyEvent) -> (r: Command)
    requires
        form_key_safe(old(app)@, key),
    ensures
        (final(app)@, r) == form_keys(old(app)@, key),
{
    let on_list = app.focus == Focus::FormMenuList;
    let on_input = app.focus == Focus::FormMenuItemName || app.focus == Focus::FormMenuItemPrice
        || app.focus == Focus::FormMenuItemDescription;
    match key.code {
        KeyCode::Tab => {
            app.focus = form_focus_after(app.focus);
            Command::Idle
        },
        KeyCode::Char(c) => {
            if c == ' ' {
                if app.focus == Focus::FormType {
                    app.form_type = app.form_type.next();
                } else if app.focus == Focus::FormOpenStatus {
                    app.form_open_status = !app.form_open_status;
                } else if app.focus == Focus::FormOpenTime || app.focus == Focus::FormCloseTime {
                } else {
                    form_type_char(app, ' ');
                }
            } else if c == 'a' && (on_input || on_list) {
                add_menu_item(app);
            } else if c == 't' && on_list {
                toggle_menu_item(app);
            } else if c == 'd' && on_list {
                remove_menu_item(app);
            } else {
                form_type_char(app, c);
            }
            Command::Idle
        },
        KeyCode::Up => {
            if on_list {
                let n = app.form_menu_items.len();
                app.form_menu_item_selected = match app.form_menu_item_selected {
                    Some(i) => if n == 0 {
                        Some(i)
                    } else if i > 0 {
                        Some(i - 1)
                    } else {
                        Some(i)
                    },
                    None => if n == 0 {
                        None
                    } else {
                        Some(n - 1)
                    },
                };
            }
            Command::Idle
        },
        KeyCode::Down => {
            if on_list {
                app.form_menu_item_selected = move_down(app.form_menu_item_selected, app.form_menu_items.len());
            }
            Command::Idle
        },
        KeyCode::Backspace => {
            form_erase_char(app);
            Command::Idle
        },
        KeyCode::Esc => {
            let customer = app.api_client.role == Some(UserRole::Customer);
            if customer {
                app.screen = Screen::MyRestaurants;
                app.focus = Focus::MyRestaurantsList;
            } else {
                app.screen = Screen::Dashboard;
                app.focus = Focus::RestaurantList;
            }
            app.editing_restaurant_id = None;
            app.clear_status();
            Command::Idle
        },
        KeyCode::Enter => {
            if on_input {
                add_menu_item(app);
                Command::Idle
            } else {
                save_form(app)
            }
        },
        KeyCode::Other => Command::Idle,
    }
}

/// The state after signing out: no session, the sign-in screen with empty
/// inputs, the customer's and consumer's lists forgotten.
pub open spec fn signed_out(v: AppView) -> AppView {
    AppView {
        api_client: ApiClient { base_url: v.api_client.base_url, token: None, username: None, role: None },
        screen: Screen::Login,
        focus: Focus::LoginUsername,
        input_username: Seq::empty(),
        input_password: Seq::empty(),
        my_restaurants: Seq::empty(),
        favorites: Seq::empty(),
        selected_my_restaurant_index: None,
        selected_favorite_index: None,
        status_message: Some("Logged out successfully"@),
        ..v
    }
}

/// A key press as the main loop takes it: Esc on the sign-in screen quits,
/// Control-L signs out from any screen, and any other key goes to the
/// current screen.
pub open spec fn event_keys(v: AppView, key: KeyEvent) -> (AppView, Command) {
    if v.screen == Screen::Login && key.code == KeyCode::Esc {
        (v, Command::Quit)
    } else if key.is_ctrl('l') {
        (signed_out(v), Command::Idle)
    } else {
        match v.screen {
            Screen::Login => login_keys(v, key),
            Screen::Signup => signup_keys(v, key),
            Screen::ResetPassword => reset_keys(v, key),
            Screen::Dashboard => dashboard_keys(v, key),
            Screen::AddRestaurant => form_keys(v, key),
            Screen::EditRestaurant => form_keys(v, key),
            Screen::MyRestaurants => my_restaurants_keys(v, key),
            Screen::FavoritesView => favorites_keys(v, key),
        }
    }
}

/// The key reaches the form only if the form can take it.
pub open spec fn event_safe(v: AppView, key: KeyEvent) -> bool {
    (v.screen == Screen::AddRestaurant || v.screen == Screen::EditRestaurant) && !key.is_ctrl('l')
        ==> form_key_safe(v, key)
}

pub fn handle_event(app: &mut App, key: KeyEvent) -> (r: Command)
    requires
        event_safe(old(app)@, key),
    ensures
        (final(app)@, r) == event_keys(old(app)@, key),
{
    if app.screen == Screen::Login && key.code == KeyCode::Esc {
        return Command::Quit;
    }
    if key.modifiers == KeyModifiers::CONTROL && key.code == KeyCode::Char('l') {
        app.api_client.logout();
        app.screen = Screen::Login;
        app.focus = Focus::LoginUsername;
        app.input_username = String::new();
        app.input_password = String::new();
        app.my_restaurants = Vec::new();
        app.favorites = Vec::new();
        app.selected_my_restaurant_index = None;
        app.selected_favorite_index = None;
        app.set_status("Logged out successfully");
        return Command::Idle;
    }
    match app.screen {
        Screen::Login => handle_login_keys(app, key),
        Screen::Signup => handle_signup_keys(app, key),
        Screen::ResetPassword => handle_reset_keys(app, key),
        Screen::Dashboard => handle_dashboard_keys(app, key),
        Screen::AddRestaurant | Screen::EditRestaurant => handle_form_keys(app, key),
        Screen::MyRestaurants => handle_my_restaurants_keys(app, key),
        Screen::FavoritesView => handle_favorites_keys(app, key),
    }
}

} // verus!
