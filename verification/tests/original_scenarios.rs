use tui_client::api::{Location, Restaurant, RestaurantType, UserRole};
use tui_client::app::{App, Focus, Screen};
use tui_client::handlers::{
    handle_favorites_keys, handle_form_keys, handle_login_keys, handle_my_restaurants_keys, handle_signup_keys,
    KeyCode, KeyEvent, KeyModifiers,
};

#[test]
fn test_app_initialization() {
    let app = App::new("http://localhost:8000");
    assert_eq!(app.screen, Screen::Login);
    assert_eq!(app.focus, Focus::LoginUsername);
    assert!(app.input_username.is_empty());
    assert!(app.input_password.is_empty());
}

#[test]
fn test_login_input_buffering() {
    let mut app = App::new("http://localhost:8000");

    handle_login_keys(&mut app, KeyEvent::new(KeyCode::Char('a'), KeyModifiers::NONE));
    handle_login_keys(&mut app, KeyEvent::new(KeyCode::Char('b'), KeyModifiers::NONE));
    handle_login_keys(&mut app, KeyEvent::new(KeyCode::Char('c'), KeyModifiers::NONE));
    assert_eq!(app.input_username, "abc");

    handle_login_keys(&mut app, KeyEvent::new(KeyCode::Backspace, KeyModifiers::NONE));
    assert_eq!(app.input_username, "ab");

    handle_login_keys(&mut app, KeyEvent::new(KeyCode::Tab, KeyModifiers::NONE));
    assert_eq!(app.focus, Focus::LoginPassword);

    handle_login_keys(&mut app, KeyEvent::new(KeyCode::Char('p'), KeyModifiers::NONE));
    handle_login_keys(&mut app, KeyEvent::new(KeyCode::Char('a'), KeyModifiers::NONE));
    handle_login_keys(&mut app, KeyEvent::new(KeyCode::Char('s'), KeyModifiers::NONE));
    assert_eq!(app.input_password, "pas");
}

#[test]
fn test_screen_transitions() {
    let mut app = App::new("http://localhost:8000");

    handle_login_keys(&mut app, KeyEvent::new(KeyCode::Char('s'), KeyModifiers::CONTROL));
    assert_eq!(app.screen, Screen::Signup);
    assert_eq!(app.focus, Focus::SignupUsername);

    handle_signup_keys(&mut app, KeyEvent::new(KeyCode::Tab, KeyModifiers::NONE));
    assert_eq!(app.focus, Focus::SignupPassword);
    handle_signup_keys(&mut app, KeyEvent::new(KeyCode::Tab, KeyModifiers::NONE));
    assert_eq!(app.focus, Focus::SignupRole);

    assert_eq!(app.input_role, UserRole::Customer);
    handle_signup_keys(&mut app, KeyEvent::new(KeyCode::Char(' '), KeyModifiers::NONE));
    assert_eq!(app.input_role, UserRole::Admin);
    handle_signup_keys(&mut app, KeyEvent::new(KeyCode::Char(' '), KeyModifiers::NONE));
    assert_eq!(app.input_role, UserRole::Consumer);
    handle_signup_keys(&mut app, KeyEvent::new(KeyCode::Char(' '), KeyModifiers::NONE));
    assert_eq!(app.input_role, UserRole::Customer);

    handle_signup_keys(&mut app, KeyEvent::new(KeyCode::Esc, KeyModifiers::NONE));
    assert_eq!(app.screen, Screen::Login);
}

#[test]
fn test_form_time_validation() {
    let mut app = App::new("http://localhost:8000");
    app.screen = Screen::AddRestaurant;
    app.api_client.set_token("dummy".to_string(), "admin".to_string(), UserRole::Admin);

    app.form_open_time = "08:00".to_string();
    handle_form_keys(&mut app, KeyEvent::new(KeyCode::Enter, KeyModifiers::NONE));
    assert_eq!(app.screen, Screen::AddRestaurant);
    assert!(app.status_message.as_ref().unwrap().contains("Validation error"));
}

#[test]
fn test_form_type_cycling_includes_food_cart() {
    let mut app = App::new("http://localhost:8000");
    app.screen = Screen::AddRestaurant;
    app.focus = Focus::FormType;

    assert_eq!(app.form_type, RestaurantType::FoodStall);
    handle_form_keys(&mut app, KeyEvent::new(KeyCode::Char(' '), KeyModifiers::NONE));
    assert_eq!(app.form_type, RestaurantType::FoodTruck);
    handle_form_keys(&mut app, KeyEvent::new(KeyCode::Char(' '), KeyModifiers::NONE));
    assert_eq!(app.form_type, RestaurantType::FoodCart);
    handle_form_keys(&mut app, KeyEvent::new(KeyCode::Char(' '), KeyModifiers::NONE));
    assert_eq!(app.form_type, RestaurantType::BrickAndMortar);
    handle_form_keys(&mut app, KeyEvent::new(KeyCode::Char(' '), KeyModifiers::NONE));
    assert_eq!(app.form_type, RestaurantType::FoodStall);
}

fn plain_location(id: i32, name: &str) -> Location {
    Location {
        id,
        location_type: "other".to_string(),
        formatted: name.to_string(),
        description: Some(name.to_string()),
        lat: None,
        lng: None,
        address: None,
        city: None,
        state: None,
        zip_code: None,
        road_1: None,
        road_2: None,
        venue_name: None,
        stall_number: None,
        lot_name: None,
    }
}

#[test]
fn test_my_restaurants_navigation() {
    let mut app = App::new("http://localhost:8000");
    app.screen = Screen::MyRestaurants;
    app.focus = Focus::MyRestaurantsList;

    let r1 = Restaurant {
        id: 1,
        name: "Test1".to_string(),
        restaurant_type: RestaurantType::FoodStall,
        cuisine_type: String::new(),
        location: plain_location(1, "Loc1"),
        open_time: "08:00:00".to_string(),
        close_time: "22:00:00".to_string(),
        open_status: true,
        description: None,
        is_approved: false,
        owner_id: Some(1),
        menu_items: vec![],
    };
    let r2 = Restaurant {
        id: 2,
        name: "Test2".to_string(),
        restaurant_type: RestaurantType::FoodTruck,
        cuisine_type: String::new(),
        location: plain_location(2, "Loc2"),
        open_time: "09:00:00".to_string(),
        close_time: "21:00:00".to_string(),
        open_status: false,
        description: None,
        is_approved: false,
        owner_id: Some(1),
        menu_items: vec![],
    };
    app.my_restaurants = vec![r1, r2];

    assert_eq!(app.selected_my_restaurant_index, None);
    handle_my_restaurants_keys(&mut app, KeyEvent::new(KeyCode::Down, KeyModifiers::NONE));
    assert_eq!(app.selected_my_restaurant_index, Some(0));

    handle_my_restaurants_keys(&mut app, KeyEvent::new(KeyCode::Down, KeyModifiers::NONE));
    assert_eq!(app.selected_my_restaurant_index, Some(1));

    handle_my_restaurants_keys(&mut app, KeyEvent::new(KeyCode::Up, KeyModifiers::NONE));
    assert_eq!(app.selected_my_restaurant_index, Some(0));
}

#[test]
fn test_favorites_screen_exit() {
    let mut app = App::new("http://localhost:8000");
    app.screen = Screen::FavoritesView;
    app.focus = Focus::FavoritesList;

    handle_favorites_keys(&mut app, KeyEvent::new(KeyCode::Esc, KeyModifiers::NONE));
    assert_eq!(app.screen, Screen::Dashboard);
}
