use tui_client::api::{
    ApiClient, ApiError, FavoriteResponse, HttpMethod, Location, MenuItem, RequestBody, Restaurant,
    RestaurantType, TokenResponse, UserRole,
};
use tui_client::app::{ApiCall, App, Command, Focus, ListKind, Reply, Screen};
use tui_client::display::{
    address_text, description_text, favorite_label, footer_hint, header_user_info, hours_text,
    intersection_text, is_alert, search_box_text, venue_text,
};
use tui_client::form::{form_focus_after, move_down, move_up};
use tui_client::handlers::{handle_event, handle_form_keys, KeyCode, KeyEvent, KeyModifiers};
use tui_client::replies::on_reply;
use tui_client::text::{optional_trimmed, trim_text};

fn key(code: KeyCode) -> KeyEvent {
    KeyEvent::new(code, KeyModifiers::NONE)
}

fn ctrl(c: char) -> KeyEvent {
    KeyEvent::new(KeyCode::Char(c), KeyModifiers::CONTROL)
}

fn type_text(app: &mut App, s: &str) {
    for c in s.chars() {
        handle_event(app, key(KeyCode::Char(c)));
    }
}

fn location(id: i32) -> Location {
    Location {
        id,
        location_type: "street_address".to_string(),
        formatted: "Somewhere".to_string(),
        description: None,
        lat: None,
        lng: None,
        address: None,
        city: None,
        state: None,
        zip_code: None,
        road_1: None,
        road_2: None,
        venue_name: None,
        stall_number: None,
        lot_name: None,
    }
}

fn restaurant(id: i32, name: &str, open_status: bool, is_approved: bool) -> Restaurant {
    Restaurant {
        id,
        name: name.to_string(),
        restaurant_type: RestaurantType::BrickAndMortar,
        cuisine_type: "Thai".to_string(),
        location: location(id),
        open_time: "08:00:00".to_string(),
        close_time: "22:00:00".to_string(),
        open_status,
        description: None,
        is_approved,
        owner_id: None,
        menu_items: vec![],
    }
}

fn menu_item(id: i64, name: &str) -> MenuItem {
    MenuItem {
        id,
        restaurant_id: 5,
        name: name.to_string(),
        description: None,
        price: Some("4.5".to_string()),
        is_sold_out: false,
        sort_order: 1,
    }
}

fn signed_in(role: UserRole) -> App {
    let mut app = App::new("http://localhost:8000");
    app.api_client.set_token("tok".to_string(), "alice".to_string(), role);
    app.screen = Screen::Dashboard;
    app.focus = Focus::RestaurantList;
    app
}

fn token(role: UserRole) -> Reply {
    Reply::Token(TokenResponse {
        access_token: "abc".to_string(),
        token_type: "bearer".to_string(),
        role,
        username: "alice".to_string(),
    })
}

fn status(app: &App) -> String {
    app.status_message.clone().unwrap_or_default()
}

fn url_of(app: &App, call: ApiCall) -> String {
    app.request(call).expect("call has a request").url
}

// ---- cycles of the pickers ----

#[test]
fn role_cycle_returns_after_three_steps() {
    for role in [UserRole::Customer, UserRole::Admin, UserRole::Consumer] {
        assert_eq!(role.next().next().next(), role);
    }
    assert_eq!(UserRole::Customer.next(), UserRole::Admin);
    assert_eq!(UserRole::Admin.next(), UserRole::Consumer);
    assert_eq!(UserRole::Consumer.next(), UserRole::Customer);
}

#[test]
fn type_cycle_returns_after_four_steps() {
    for t in [
        RestaurantType::FoodStall,
        RestaurantType::FoodTruck,
        RestaurantType::FoodCart,
        RestaurantType::BrickAndMortar,
    ] {
        assert_eq!(t.next().next().next().next(), t);
    }
    assert_eq!(RestaurantType::FoodCart.as_str(), "Food Cart");
    assert_eq!(RestaurantType::BrickAndMortar.as_str(), "Brick and mortar Restaurant");
    assert_eq!(RestaurantType::FoodStall.location_kind_str(), "intersection");
    assert_eq!(RestaurantType::FoodTruck.location_kind_str(), "gps");
    assert_eq!(RestaurantType::FoodCart.location_kind_str(), "food_court");
    assert_eq!(RestaurantType::BrickAndMortar.location_kind_str(), "street_address");
}

#[test]
fn form_tab_visits_every_field_in_order() {
    let order = [
        Focus::FormName,
        Focus::FormType,
        Focus::FormCuisineType,
        Focus::FormLocation,
        Focus::FormLocationDesc,
        Focus::FormLocationLat,
        Focus::FormLocationLng,
        Focus::FormLocationAddress,
        Focus::FormLocationCity,
        Focus::FormLocationState,
        Focus::FormLocationZip,
        Focus::FormLocationRoad1,
        Focus::FormLocationRoad2,
        Focus::FormLocationVenue,
        Focus::FormLocationStall,
        Focus::FormLocationLot,
        Focus::FormOpenTime,
        Focus::FormCloseTime,
        Focus::FormOpenStatus,
        Focus::FormDescription,
        Focus::FormMenuItemName,
        Focus::FormMenuItemPrice,
        Focus::FormMenuItemDescription,
        Focus::FormMenuList,
    ];
    let mut app = signed_in(UserRole::Admin);
    app.screen = Screen::AddRestaurant;
    app.focus = Focus::FormName;
    for i in 0..order.len() {
        assert_eq!(app.focus, order[i]);
        assert_eq!(form_focus_after(order[i]), order[(i + 1) % order.len()]);
        handle_form_keys(&mut app, key(KeyCode::Tab));
    }
    assert_eq!(app.focus, Focus::FormName);
    assert_eq!(form_focus_after(Focus::SearchInput), Focus::FormName);
}

// ---- typing and erasing ----

#[test]
fn typing_then_backspace_restores_the_field() {
    let mut app = App::new("http://localhost:8000");
    type_text(&mut app, "bob");
    handle_event(&mut app, key(KeyCode::Char('x')));
    handle_event(&mut app, key(KeyCode::Backspace));
    assert_eq!(app.input_username, "bob");

    let mut form = signed_in(UserRole::Admin);
    form.screen = Screen::AddRestaurant;
    form.focus = Focus::FormCuisineType;
    type_text(&mut form, "Thai");
    handle_event(&mut form, key(KeyCode::Char('é')));
    handle_event(&mut form, key(KeyCode::Backspace));
    assert_eq!(form.form_cuisine_type, "Thai");
    // Backspace on an empty field leaves it empty.
    form.focus = Focus::FormName;
    handle_event(&mut form, key(KeyCode::Backspace));
    assert_eq!(form.form_name, "");
}

#[test]
fn space_in_time_fields_is_ignored_but_typed_elsewhere() {
    let mut app = signed_in(UserRole::Admin);
    app.screen = Screen::AddRestaurant;
    app.focus = Focus::FormOpenTime;
    handle_event(&mut app, key(KeyCode::Char(' ')));
    assert_eq!(app.form_open_time, "08:00:00");
    app.focus = Focus::FormName;
    type_text(&mut app, "a b");
    assert_eq!(app.form_name, "a b");
    app.focus = Focus::FormOpenStatus;
    handle_event(&mut app, key(KeyCode::Char(' ')));
    assert!(!app.form_open_status);
}

// ---- sign-in, sign-out ----

#[test]
fn login_success_as_customer_fetches_own_list() {
    let mut app = App::new("http://localhost:8000");
    type_text(&mut app, "alice");
    let cmd = handle_event(&mut app, key(KeyCode::Enter));
    assert_eq!(cmd, Command::Call(ApiCall::Login));
    assert_eq!(status(&app), "Signing in...");
    let req = app.request(ApiCall::Login).unwrap();
    assert_eq!(req.method, HttpMethod::Post);
    assert_eq!(req.url, "http://localhost:8000/auth/login");
    assert!(req.authorization.is_none());
    match req.body {
        RequestBody::Credentials { username, password } => {
            assert_eq!(username, "alice");
            assert_eq!(password, "");
        }
        _ => panic!("login sends credentials"),
    }

    let cmd = on_reply(&mut app, Ok(token(UserRole::Customer)));
    assert_eq!(cmd, Command::Call(ApiCall::GetMyRestaurants));
    assert_eq!(app.screen, Screen::MyRestaurants);
    assert_eq!(app.focus, Focus::MyRestaurantsList);
    assert_eq!(status(&app), "Loading your restaurants...");
    assert_eq!(app.api_client.authorization(), Some("Bearer abc".to_string()));
    assert_eq!(url_of(&app, ApiCall::GetMyRestaurants), "http://localhost:8000/me/restaurants");

    let list = vec![restaurant(3, "A", true, false), restaurant(4, "B", false, false)];
    let cmd = on_reply(&mut app, Ok(Reply::Restaurants(list)));
    assert_eq!(cmd, Command::Idle);
    assert_eq!(app.my_restaurants.len(), 2);
    assert_eq!(app.selected_my_restaurant_index, Some(0));
    assert_eq!(app.status_message, None);
}

#[test]
fn login_success_as_admin_goes_to_dashboard() {
    let mut app = App::new("http://localhost:8000");
    handle_event(&mut app, key(KeyCode::Enter));
    let cmd = on_reply(&mut app, Ok(token(UserRole::Admin)));
    assert_eq!(cmd, Command::Call(ApiCall::GetRestaurants));
    assert_eq!(app.screen, Screen::Dashboard);
    assert_eq!(app.focus, Focus::RestaurantList);
}

#[test]
fn login_failure_reports_the_error() {
    let mut app = App::new("http://localhost:8000");
    handle_event(&mut app, key(KeyCode::Enter));
    let cmd = on_reply(&mut app, Err(ApiError::Unauthorized));
    assert_eq!(cmd, Command::Idle);
    assert_eq!(app.screen, Screen::Login);
    assert_eq!(status(&app), "Login failed: Incorrect username or password");
    assert!(app.api_client.token.is_none());
}

#[test]
fn signup_success_returns_to_login() {
    let mut app = App::new("http://localhost:8000");
    handle_event(&mut app, ctrl('s'));
    type_text(&mut app, "carol");
    handle_event(&mut app, key(KeyCode::Tab));
    type_text(&mut app, "pw");
    let cmd = handle_event(&mut app, key(KeyCode::Enter));
    assert_eq!(cmd, Command::Call(ApiCall::Signup));
    let req = app.request(ApiCall::Signup).unwrap();
    assert_eq!(req.url, "http://localhost:8000/auth/signup");
    match req.body {
        RequestBody::Registration { username, password, role } => {
            assert_eq!(username, "carol");
            assert_eq!(password, "pw");
            assert_eq!(role, UserRole::Customer);
        }
        _ => panic!("signup sends a registration"),
    }
    on_reply(&mut app, Ok(Reply::Ack));
    assert_eq!(app.screen, Screen::Login);
    assert_eq!(app.focus, Focus::LoginUsername);
    assert_eq!(status(&app), "Registration successful! Please login.");
}

#[test]
fn reset_failure_and_success() {
    let mut app = App::new("http://localhost:8000");
    handle_event(&mut app, ctrl('r'));
    assert_eq!(app.screen, Screen::ResetPassword);
    assert_eq!(app.focus, Focus::ResetUsername);
    handle_event(&mut app, key(KeyCode::Enter));
    assert_eq!(url_of(&app, ApiCall::ResetPassword), "http://localhost:8000/auth/reset-password");
    on_reply(&mut app, Err(ApiError::ValidationError("too short".to_string())));
    assert_eq!(status(&app), "Reset failed: Validation error: too short");
    handle_event(&mut app, key(KeyCode::Enter));
    on_reply(&mut app, Ok(Reply::Ack));
    assert_eq!(app.screen, Screen::Login);
    assert_eq!(status(&app), "Password reset successful! Please login.");
}

#[test]
fn sign_out_forgets_the_session() {
    let mut app = signed_in(UserRole::Consumer);
    app.my_restaurants = vec![restaurant(1, "A", true, true)];
    app.selected_my_restaurant_index = Some(0);
    app.input_username = "alice".to_string();
    let cmd = handle_event(&mut app, ctrl('l'));
    assert_eq!(cmd, Command::Idle);
    assert_eq!(app.screen, Screen::Login);
    assert_eq!(app.focus, Focus::LoginUsername);
    assert!(app.api_client.token.is_none());
    assert!(app.api_client.username.is_none());
    assert!(app.api_client.role.is_none());
    assert!(app.my_restaurants.is_empty());
    assert_eq!(app.selected_my_restaurant_index, None);
    assert_eq!(app.input_username, "");
    assert_eq!(status(&app), "Logged out successfully");
    assert_eq!(app.api_client.authorization(), None);
}

#[test]
fn escape_on_login_quits() {
    let mut app = App::new("http://localhost:8000");
    assert_eq!(handle_event(&mut app, key(KeyCode::Esc)), Command::Quit);
}

// ---- the session and the requests ----

#[test]
fn base_url_loses_trailing_slashes() {
    let c = ApiClient::new("http://x//");
    assert_eq!(c.base_url, "http://x");
    let c = ApiClient::new("http://x");
    assert_eq!(c.base_url, "http://x");
    let c = ApiClient::new("///");
    assert_eq!(c.base_url, "");
}

#[test]
fn authorization_header_only_for_a_valid_token() {
    let mut c = ApiClient::new("http://x");
    assert_eq!(c.authorization(), None);
    c.set_token("abc".to_string(), "u".to_string(), UserRole::Admin);
    assert_eq!(c.authorization(), Some("Bearer abc".to_string()));
    c.set_token("a\nb".to_string(), "u".to_string(), UserRole::Admin);
    assert_eq!(c.authorization(), None);
    c.logout();
    assert!(c.token.is_none());
}

#[test]
fn request_urls_follow_the_api() {
    let c = ApiClient::new("http://h/");
    assert_eq!(c.get_restaurants_request(None).url, "http://h/restaurants");
    assert_eq!(c.get_restaurants_request(Some("")).url, "http://h/restaurants");
    assert_eq!(c.get_restaurants_request(Some("taco")).url, "http://h/restaurants?name=taco");
    assert_eq!(c.update_restaurant_status_request(7, true).url, "http://h/restaurants/7/status");
    assert_eq!(c.delete_restaurant_request(-3).url, "http://h/restaurants/-3");
    assert_eq!(c.delete_restaurant_request(-3).method, HttpMethod::Delete);
    assert_eq!(c.approve_restaurant_request(12, false).url, "http://h/restaurants/12/approve");
    assert_eq!(c.add_favorite_request(9).url, "http://h/favorites");
    assert_eq!(c.remove_favorite_request(9).url, "http://h/favorites/9");
    assert_eq!(c.get_favorites_request().url, "http://h/favorites");
    assert_eq!(c.get_my_restaurants_request().url, "http://h/me/restaurants");
    assert_eq!(c.get_menu_items_request(5).url, "http://h/restaurants/5/menu-items");
    assert_eq!(c.delete_menu_item_request(5, 1234567890123).url, "http://h/restaurants/5/menu-items/1234567890123");
    assert_eq!(c.toggle_sold_out_request(5, 0, true).url, "http://h/restaurants/5/menu-items/0/sold-out");
    assert_eq!(c.toggle_sold_out_request(5, 0, true).method, HttpMethod::Patch);
    assert_eq!(c.endpoint_with_id("/a/", i64::MIN, ""), "http://h/a/-9223372036854775808");
}

#[test]
fn search_typing_fetches_with_filter() {
    let mut app = signed_in(UserRole::Consumer);
    handle_event(&mut app, key(KeyCode::Char('s')));
    assert_eq!(app.focus, Focus::SearchInput);
    let cmd = handle_event(&mut app, key(KeyCode::Char('p')));
    assert_eq!(cmd, Command::Call(ApiCall::GetRestaurants));
    assert_eq!(app.search_query, "p");
    assert_eq!(url_of(&app, ApiCall::GetRestaurants), "http://localhost:8000/restaurants?name=p");
    assert_eq!(app.request(ApiCall::GetRestaurants).unwrap().authorization, Some("Bearer tok".to_string()));
    on_reply(&mut app, Err(ApiError::Network));
    assert_eq!(status(&app), "Fetch error: Network error: check connection");
    handle_event(&mut app, key(KeyCode::Esc));
    assert_eq!(app.focus, Focus::RestaurantList);
}

// ---- errors ----

#[test]
fn error_classification_and_messages() {
    let e = ApiError::from_failure(Some(401), "x".to_string());
    assert!(matches!(e, ApiError::Unauthorized));
    let e = ApiError::from_failure(Some(403), "x".to_string());
    assert_eq!(e.message(), "Access denied: insufficient permissions");
    let e = ApiError::from_failure(Some(500), "boom".to_string());
    assert_eq!(e.message(), "HTTP error: boom");
    let e = ApiError::from_failure(None, "x".to_string());
    assert_eq!(e.message(), "Network error: check connection");
    assert!(matches!(ApiError::for_status(404, "nf".to_string()), ApiError::Http(_)));
    assert!(matches!(ApiError::for_status(401, "u".to_string()), ApiError::Unauthorized));
    assert!(matches!(ApiError::for_status(302, "r".to_string()), ApiError::Network));
    assert_eq!(ApiError::ValidationError("bad".to_string()).message(), "Validation error: bad");
    assert!(tui_client::api::success_status(204));
    assert!(!tui_client::api::success_status(300));
}

// ---- fetched lists and selections ----

#[test]
fn fetched_list_clamps_the_selection() {
    let mut app = signed_in(UserRole::Admin);
    app.restaurants = vec![
        restaurant(1, "A", true, true),
        restaurant(2, "B", true, true),
        restaurant(3, "C", true, true),
    ];
    app.selected_restaurant_index = Some(2);
    let cmd = app.fetch_restaurants();
    assert_eq!(cmd, Command::Call(ApiCall::GetRestaurants));
    assert_eq!(status(&app), "Loading restaurants...");
    on_reply(&mut app, Ok(Reply::Restaurants(vec![restaurant(1, "A", true, true)])));
    assert_eq!(app.selected_restaurant_index, Some(0));
    assert_eq!(app.status_message, None);
    app.fetch_restaurants();
    on_reply(&mut app, Ok(Reply::Restaurants(vec![])));
    assert_eq!(app.selected_restaurant_index, None);
}

#[test]
fn moves_stay_inside_the_list() {
    assert_eq!(move_up(None, 0), None);
    assert_eq!(move_down(None, 3), Some(0));
    assert_eq!(move_down(Some(2), 3), Some(2));
    assert_eq!(move_down(Some(0), 3), Some(1));
    assert_eq!(move_up(Some(0), 3), Some(0));
    assert_eq!(move_up(Some(2), 3), Some(1));
    assert_eq!(move_up(None, 3), Some(0));
}

// ---- admin operations on the dashboard ----

#[test]
fn admin_delete_then_refetch() {
    let mut app = signed_in(UserRole::Admin);
    app.restaurants = vec![restaurant(11, "A", true, true), restaurant(12, "B", true, true)];
    app.selected_restaurant_index = Some(1);
    let cmd = handle_event(&mut app, key(KeyCode::Char('d')));
    assert_eq!(cmd, Command::Call(ApiCall::DeleteRestaurant { id: 12 }));
    assert_eq!(status(&app), "Deleting entry...");
    assert_eq!(url_of(&app, ApiCall::DeleteRestaurant { id: 12 }), "http://localhost:8000/restaurants/12");
    let cmd = on_reply(&mut app, Ok(Reply::Ack));
    assert_eq!(cmd, Command::Call(ApiCall::GetRestaurants));
    assert_eq!(app.selected_restaurant_index, None);
    on_reply(&mut app, Ok(Reply::Restaurants(vec![restaurant(11, "A", true, true)])));
    assert_eq!(status(&app), "Restaurant deleted successfully");
    assert_eq!(app.selected_restaurant_index, Some(0));
}

#[test]
fn admin_toggle_and_approve_flip_the_flags() {
    let mut app = signed_in(UserRole::Admin);
    app.restaurants = vec![restaurant(11, "A", true, false)];
    app.selected_restaurant_index = Some(0);
    let cmd = handle_event(&mut app, key(KeyCode::Char('t')));
    assert_eq!(cmd, Command::Call(ApiCall::UpdateRestaurantStatus { id: 11, open_status: false }));
    on_reply(&mut app, Err(ApiError::Forbidden));
    assert_eq!(status(&app), "Toggle failed: Access denied: insufficient permissions");
    assert!(is_alert(&status(&app)));

    let cmd = handle_event(&mut app, key(KeyCode::Char('r')));
    assert_eq!(cmd, Command::Call(ApiCall::ApproveRestaurant { id: 11, is_approved: true }));
    match app.request(ApiCall::ApproveRestaurant { id: 11, is_approved: true }).unwrap().body {
        RequestBody::Approval(a) => assert!(a.is_approved),
        _ => panic!("approval body"),
    }
    let cmd = on_reply(&mut app, Ok(Reply::Ack));
    assert_eq!(cmd, Command::Call(ApiCall::GetRestaurants));
    on_reply(&mut app, Ok(Reply::Restaurants(vec![restaurant(11, "A", true, true)])));
    assert_eq!(status(&app), "Approval status updated");
}

#[test]
fn edit_without_selection_asks_for_one() {
    let mut app = signed_in(UserRole::Admin);
    let cmd = handle_event(&mut app, key(KeyCode::Char('e')));
    assert_eq!(cmd, Command::Idle);
    assert_eq!(status(&app), "Please select a restaurant to edit");
    assert_eq!(app.screen, Screen::Dashboard);
}

#[test]
fn other_roles_do_not_get_admin_keys() {
    let mut app = signed_in(UserRole::Consumer);
    app.restaurants = vec![restaurant(11, "A", true, false)];
    app.selected_restaurant_index = Some(0);
    assert_eq!(handle_event(&mut app, key(KeyCode::Char('d'))), Command::Idle);
    assert_eq!(app.restaurants.len(), 1);
    assert_eq!(app.status_message, None);
}

// ---- favorites ----

#[test]
fn consumer_adds_and_views_favorites() {
    let mut app = signed_in(UserRole::Consumer);
    let cmd = handle_event(&mut app, key(KeyCode::Char('f')));
    assert_eq!(cmd, Command::Idle);
    assert_eq!(status(&app), "Please select a restaurant to favorite");
    app.restaurants = vec![restaurant(21, "A", true, true)];
    app.selected_restaurant_index = Some(0);
    let cmd = handle_event(&mut app, key(KeyCode::Char('f')));
    assert_eq!(cmd, Command::Call(ApiCall::AddFavorite { restaurant_id: 21 }));
    match app.request(ApiCall::AddFavorite { restaurant_id: 21 }).unwrap().body {
        RequestBody::Favorite(f) => assert_eq!(f.restaurant_id, 21),
        _ => panic!("favorite body"),
    }
    on_reply(&mut app, Ok(Reply::Ack));
    assert_eq!(status(&app), "Favorite added successfully");

    let cmd = handle_event(&mut app, key(KeyCode::Char('v')));
    assert_eq!(cmd, Command::Call(ApiCall::GetFavorites));
    assert_eq!(app.screen, Screen::FavoritesView);
    let fav = FavoriteResponse { id: 5, consumer_id: 1, restaurant_id: 21, restaurant: None };
    on_reply(&mut app, Ok(Reply::Favorites(vec![fav])));
    assert_eq!(app.favorites.len(), 1);
    assert_eq!(app.selected_favorite_index, Some(0));
    assert_eq!(app.status_message, None);

    let cmd = handle_event(&mut app, key(KeyCode::Char('d')));
    assert_eq!(cmd, Command::Call(ApiCall::RemoveFavorite { favorite_id: 5 }));
    let cmd = on_reply(&mut app, Ok(Reply::Ack));
    assert_eq!(cmd, Command::Call(ApiCall::GetFavorites));
    on_reply(&mut app, Ok(Reply::Favorites(vec![])));
    assert_eq!(app.selected_favorite_index, None);
    assert_eq!(status(&app), "Favorite removed successfully");
}

// ---- the form ----

#[test]
fn menu_entries_are_trimmed_and_numbered() {
    let mut app = signed_in(UserRole::Admin);
    app.screen = Screen::AddRestaurant;
    app.focus = Focus::FormMenuItemName;
    handle_event(&mut app, key(KeyCode::Enter));
    assert_eq!(status(&app), "Menu item name cannot be empty");
    assert!(app.form_menu_items.is_empty());

    app.form_menu_item_name = "  Pad Thai  ".to_string();
    app.form_menu_item_price = " 9.50 ".to_string();
    app.form_menu_item_description = "   ".to_string();
    handle_event(&mut app, key(KeyCode::Enter));
    assert_eq!(app.form_menu_items.len(), 1);
    let it = &app.form_menu_items[0];
    assert_eq!(it.name, "Pad Thai");
    assert_eq!(it.price, Some("9.50".to_string()));
    assert_eq!(it.description, None);
    assert_eq!(it.id, 0);
    assert_eq!(it.sort_order, 1);
    assert!(!it.is_sold_out);
    assert_eq!(app.form_menu_item_name, "");
    assert_eq!(app.form_menu_item_price, "");
    assert_eq!(status(&app), "Menu item added");

    app.focus = Focus::FormMenuList;
    app.form_menu_item_name = "Soup".to_string();
    handle_event(&mut app, key(KeyCode::Char('a')));
    assert_eq!(app.form_menu_items.len(), 2);
    assert_eq!(app.form_menu_items[1].sort_order, 2);
}

#[test]
fn menu_list_toggle_and_remove() {
    let mut app = signed_in(UserRole::Admin);
    app.screen = Screen::EditRestaurant;
    app.focus = Focus::FormMenuList;
    app.form_menu_items = vec![menu_item(40, "Saved"), menu_item(0, "New")];
    handle_event(&mut app, key(KeyCode::Up));
    assert_eq!(app.form_menu_item_selected, Some(1));
    handle_event(&mut app, key(KeyCode::Up));
    assert_eq!(app.form_menu_item_selected, Some(0));
    handle_event(&mut app, key(KeyCode::Char('t')));
    assert!(app.form_menu_items[0].is_sold_out);
    assert_eq!(status(&app), "Menu item toggled");
    handle_event(&mut app, key(KeyCode::Char('d')));
    assert_eq!(app.form_menu_items.len(), 1);
    assert_eq!(app.form_menu_items[0].name, "New");
    assert_eq!(app.form_menu_items_removed, vec![40]);
    assert_eq!(app.form_menu_item_selected, Some(0));
    handle_event(&mut app, key(KeyCode::Char('d')));
    assert!(app.form_menu_items.is_empty());
    // An unsaved entry leaves nothing to delete on the server.
    assert_eq!(app.form_menu_items_removed, vec![40]);
    assert_eq!(app.form_menu_item_selected, None);
    assert_eq!(status(&app), "Menu item removed");
}

#[test]
fn bad_time_is_refused_before_any_call() {
    let mut app = signed_in(UserRole::Admin);
    app.screen = Screen::AddRestaurant;
    app.focus = Focus::FormName;
    app.form_close_time = "22:00".to_string();
    let cmd = handle_event(&mut app, key(KeyCode::Enter));
    assert_eq!(cmd, Command::Idle);
    assert_eq!(status(&app), "Validation error: Time format must be HH:MM:SS");
}

#[test]
fn new_entry_is_created_then_its_menu() {
    let mut app = signed_in(UserRole::Admin);
    handle_event(&mut app, key(KeyCode::Char('a')));
    assert_eq!(app.screen, Screen::AddRestaurant);
    assert_eq!(app.focus, Focus::FormName);
    type_text(&mut app, "Cafe");
    app.form_location_address = "  1 Main St ".to_string();
    app.form_location_lat = "  ".to_string();
    app.form_description = "   ".to_string();
    app.form_menu_items = vec![menu_item(0, "Tea"), menu_item(0, "Cake")];
    let cmd = handle_event(&mut app, key(KeyCode::Enter));
    assert_eq!(cmd, Command::Call(ApiCall::CreateRestaurant));
    assert_eq!(status(&app), "Saving restaurant entry...");
    let req = app.request(ApiCall::CreateRestaurant).unwrap();
    assert_eq!(req.url, "http://localhost:8000/restaurants");
    match req.body {
        RequestBody::NewRestaurant(r) => {
            assert_eq!(r.name, "Cafe");
            assert_eq!(r.restaurant_type, RestaurantType::FoodStall);
            assert_eq!(r.location.location_type, "intersection");
            assert_eq!(r.location.address, Some("1 Main St".to_string()));
            assert_eq!(r.location.lat, None);
            assert_eq!(r.description, None);
            assert_eq!(r.open_time, "08:00:00");
            assert!(r.open_status);
        }
        _ => panic!("create body"),
    }

    let cmd = on_reply(&mut app, Ok(Reply::Created(restaurant(77, "Cafe", true, false))));
    assert_eq!(cmd, Command::Call(ApiCall::CreateMenuItem { restaurant_id: 77, index: 0 }));
    assert_eq!(
        url_of(&app, ApiCall::CreateMenuItem { restaurant_id: 77, index: 0 }),
        "http://localhost:8000/restaurants/77/menu-items"
    );
    match app.request(ApiCall::CreateMenuItem { restaurant_id: 77, index: 1 }).unwrap().body {
        RequestBody::NewMenuItem(m) => {
            assert_eq!(m.name, "Cake");
            assert_eq!(m.sort_order, Some(1));
        }
        _ => panic!("menu item body"),
    }
    // A failed menu call does not stop the rest.
    let cmd = on_reply(&mut app, Err(ApiError::Network));
    assert_eq!(cmd, Command::Call(ApiCall::CreateMenuItem { restaurant_id: 77, index: 1 }));
    let cmd = on_reply(&mut app, Ok(Reply::Ack));
    assert_eq!(cmd, Command::Call(ApiCall::GetRestaurants));
    assert_eq!(app.screen, Screen::Dashboard);
    assert_eq!(app.editing_restaurant_id, None);
    on_reply(&mut app, Ok(Reply::Restaurants(vec![restaurant(77, "Cafe", true, false)])));
    assert_eq!(status(&app), "Restaurant added successfully");
}

#[test]
fn customer_submission_goes_to_submit_endpoint() {
    let mut app = signed_in(UserRole::Customer);
    app.screen = Screen::MyRestaurants;
    app.focus = Focus::MyRestaurantsList;
    handle_event(&mut app, key(KeyCode::Char('a')));
    assert_eq!(app.screen, Screen::AddRestaurant);
    let cmd = handle_event(&mut app, key(KeyCode::Enter));
    assert_eq!(cmd, Command::Call(ApiCall::SubmitRestaurant));
    assert_eq!(url_of(&app, ApiCall::SubmitRestaurant), "http://localhost:8000/restaurants/submit");
    let cmd = on_reply(&mut app, Ok(Reply::Created(restaurant(8, "X", true, false))));
    assert_eq!(cmd, Command::Call(ApiCall::GetMyRestaurants));
    assert_eq!(app.screen, Screen::MyRestaurants);
    on_reply(&mut app, Ok(Reply::Restaurants(vec![])));
    assert_eq!(status(&app), "Restaurant submitted for approval");
}

#[test]
fn create_failure_keeps_the_form() {
    let mut app = signed_in(UserRole::Admin);
    handle_event(&mut app, key(KeyCode::Char('a')));
    handle_event(&mut app, key(KeyCode::Enter));
    let cmd = on_reply(&mut app, Err(ApiError::Http("500 Internal Server Error".to_string())));
    assert_eq!(cmd, Command::Idle);
    assert_eq!(app.screen, Screen::AddRestaurant);
    assert_eq!(status(&app), "Create failed: HTTP error: 500 Internal Server Error");
}

#[test]
fn edit_updates_then_deletes_then_writes_menu() {
    let mut app = signed_in(UserRole::Admin);
    let mut r = restaurant(30, "Old", false, true);
    r.menu_items = vec![menu_item(41, "Kept"), menu_item(42, "Gone")];
    r.description = Some("Nice".to_string());
    app.restaurants = vec![r];
    app.selected_restaurant_index = Some(0);
    handle_event(&mut app, key(KeyCode::Char('e')));
    assert_eq!(app.screen, Screen::EditRestaurant);
    assert_eq!(app.editing_restaurant_id, Some(30));
    assert_eq!(app.form_name, "Old");
    assert_eq!(app.form_description, "Nice");
    assert_eq!(app.form_menu_items.len(), 2);

    app.focus = Focus::FormMenuList;
    app.form_menu_item_selected = Some(1);
    handle_event(&mut app, key(KeyCode::Char('d')));
    assert_eq!(app.form_menu_items_removed, vec![42]);
    app.form_menu_items.push(menu_item(0, "Fresh"));

    app.focus = Focus::FormName;
    let cmd = handle_event(&mut app, key(KeyCode::Enter));
    assert_eq!(cmd, Command::Call(ApiCall::UpdateRestaurant { id: 30 }));
    match app.request(ApiCall::UpdateRestaurant { id: 30 }).unwrap().body {
        RequestBody::RestaurantChanges(u) => {
            assert_eq!(u.name, Some("Old".to_string()));
            assert_eq!(u.open_status, Some(false));
            assert_eq!(u.description, Some("Nice".to_string()));
        }
        _ => panic!("update body"),
    }
    let cmd = on_reply(&mut app, Ok(Reply::Ack));
    assert_eq!(cmd, Command::Call(ApiCall::DeleteMenuItem { restaurant_id: 30, item_id: 42 }));
    assert_eq!(
        url_of(&app, ApiCall::DeleteMenuItem { restaurant_id: 30, item_id: 42 }),
        "http://localhost:8000/restaurants/30/menu-items/42"
    );
    let cmd = on_reply(&mut app, Ok(Reply::Ack));
    assert_eq!(cmd, Command::Call(ApiCall::UpdateMenuItem { restaurant_id: 30, index: 0 }));
    assert_eq!(
        url_of(&app, ApiCall::UpdateMenuItem { restaurant_id: 30, index: 0 }),
        "http://localhost:8000/restaurants/30/menu-items/41"
    );
    let cmd = on_reply(&mut app, Ok(Reply::Ack));
    assert_eq!(cmd, Command::Call(ApiCall::CreateMenuItem { restaurant_id: 30, index: 1 }));
    let cmd = on_reply(&mut app, Ok(Reply::Ack));
    assert_eq!(cmd, Command::Call(ApiCall::GetRestaurants));
    on_reply(&mut app, Ok(Reply::Restaurants(vec![])));
    assert_eq!(status(&app), "Restaurant updated successfully");
    assert_eq!(app.editing_restaurant_id, None);
}

#[test]
fn escape_leaves_the_form_by_role() {
    let mut app = signed_in(UserRole::Customer);
    app.screen = Screen::EditRestaurant;
    app.editing_restaurant_id = Some(3);
    app.status_message = Some("x".to_string());
    handle_event(&mut app, key(KeyCode::Esc));
    assert_eq!(app.screen, Screen::MyRestaurants);
    assert_eq!(app.focus, Focus::MyRestaurantsList);
    assert_eq!(app.editing_restaurant_id, None);
    assert_eq!(app.status_message, None);
}

// ---- texts ----

#[test]
fn trimming_texts() {
    assert_eq!(trim_text("  x y \t\n"), "x y");
    assert_eq!(trim_text("\u{3000}z\u{a0}"), "z");
    assert_eq!(optional_trimmed("  x  "), Some("x".to_string()));
    assert_eq!(optional_trimmed(" \t "), None);
}

#[test]
fn display_texts() {
    assert_eq!(footer_hint(Screen::FavoritesView, Some(UserRole::Consumer)),
        "[Tab] Switch Focus  [Up/Down] Navigate  [D] Remove Favorite  [Ctrl+L] Logout  [Esc] Back");
    assert!(footer_hint(Screen::Dashboard, Some(UserRole::Admin)).contains("[R] Approve"));
    assert!(footer_hint(Screen::Dashboard, Some(UserRole::Customer)).contains("[M] My Restaurants"));
    assert!(footer_hint(Screen::Dashboard, None).contains("[V] View Favorites"));

    let mut c = ApiClient::new("http://x");
    assert_eq!(header_user_info(&c), "Not logged in");
    c.set_token("t".to_string(), "bob".to_string(), UserRole::Consumer);
    assert_eq!(header_user_info(&c), "Logged in as: bob (Consumer)");

    assert!(is_alert("Login FAILED: x"));
    assert!(is_alert("Fetch error: y"));
    assert!(is_alert("Access denied"));
    assert!(!is_alert("Restaurant added successfully"));

    let mut l = location(1);
    assert_eq!(address_text(&l), None);
    l.address = Some("1 Main".to_string());
    l.state = Some("OR".to_string());
    l.zip_code = Some("97201".to_string());
    assert_eq!(address_text(&l), Some("1 Main, OR 97201".to_string()));
    l.city = Some("Portland".to_string());
    assert_eq!(address_text(&l), Some("1 Main, Portland, OR 97201".to_string()));
    l.road_1 = Some("5th".to_string());
    assert_eq!(intersection_text(&l), Some(" 5th & ".to_string()));
    l.road_2 = Some("Oak".to_string());
    assert_eq!(intersection_text(&l), Some(" 5th & Oak".to_string()));
    l.venue_name = Some("Hall".to_string());
    assert_eq!(venue_text(&l), Some("Hall".to_string()));
    l.stall_number = Some("4".to_string());
    assert_eq!(venue_text(&l), Some("Hall, Stall 4".to_string()));

    let fav = FavoriteResponse { id: 1, consumer_id: 2, restaurant_id: -7, restaurant: None };
    assert_eq!(favorite_label(&fav), "Restaurant #-7");
    let fav = FavoriteResponse { id: 1, consumer_id: 2, restaurant_id: 7, restaurant: Some(restaurant(7, "Named", true, true)) };
    assert_eq!(favorite_label(&fav), "Named");

    let r = restaurant(1, "A", true, true);
    assert_eq!(hours_text(&r), "08:00:00 - 22:00:00");
    assert_eq!(description_text(&r), "No description provided.");
    assert_eq!(search_box_text(&String::new(), Focus::RestaurantList), "Type matching name...");
    assert_eq!(search_box_text(&String::new(), Focus::SearchInput), "");
    assert_eq!(search_box_text(&"q".to_string(), Focus::RestaurantList), "q");
}

#[test]
fn list_kinds_are_distinct() {
    assert_ne!(ListKind::Restaurants, ListKind::Favorites);
}
