//! The application state: which screen and field has the focus, the lists
//! fetched from the API with their selections, the status line, the sign-in
//! inputs and the restaurant form, and the API call in progress.

use vstd::prelude::*;
use vstd::string::*;
use crate::api::{ApiClient, ApiError, FavoriteResponse, MenuItem, MenuItemView, Restaurant, RestaurantType, UserRole, trim_trailing_slashes};
use crate::text::{opt_view};

verus! {

#[derive(Clone, Copy, Debug, PartialEq, Eq, Structural)]
pub enum Screen {
    Login,
    Signup,
    ResetPassword,
    Dashboard,
    AddRestaurant,
    EditRestaurant,
    MyRestaurants,
    FavoritesView,
}

#[derive(Clone, Copy, Debug, PartialEq, Eq, Structural)]
pub enum Focus {
    LoginUsername,
    LoginPassword,
    SignupUsername,
    SignupPassword,
    SignupRole,
    ResetUsername,
    ResetPassword,
    SearchInput,
    RestaurantList,
    DetailPane,
    FormName,
    FormType,
    FormCuisineType,
    FormLocation,
    FormLocationDesc,
    FormLocationLat,
    FormLocationLng,
    FormLocationAddress,
    FormLocationCity,
    FormLocationState,
    FormLocationZip,
    FormLocationRoad1,
    FormLocationRoad2,
    FormLocationVenue,
    FormLocationStall,
    FormLocationLot,
    FormOpenTime,
    FormCloseTime,
    FormOpenStatus,
    FormDescription,
    FormMenuItemName,
    FormMenuItemPrice,
    FormMenuItemDescription,
    FormMenuList,
    MyRestaurantsList,
    MyRestaurantsDetail,
    FavoritesList,
    FavoritesDetail,
}

/// The three lists the client fetches.
#[derive(Clone, Copy, Debug, PartialEq, Eq, Structural)]
pub enum ListKind {
    Restaurants,
    MyRestaurants,
    Favorites,
}

/// Fixed messages that close a completed operation.
#[derive(Clone, Copy, Debug, PartialEq, Eq, Structural)]
pub enum StatusNote {
    StatusToggled,
    RestaurantDeleted,
    ApprovalUpdated,
    FavoriteRemoved,
    RestaurantSubmitted,
    RestaurantAdded,
    RestaurantUpdated,
}

impl StatusNote {
    pub open spec fn text(self) -> Seq<char> {
        match self {
            StatusNote::StatusToggled => "Status toggled successfully"@,
            StatusNote::RestaurantDeleted => "Restaurant deleted successfully"@,
            StatusNote::ApprovalUpdated => "Approval status updated"@,
            StatusNote::FavoriteRemoved => "Favorite removed successfully"@,
            StatusNote::RestaurantSubmitted => "Restaurant submitted for approval"@,
            StatusNote::RestaurantAdded => "Restaurant added successfully"@,
            StatusNote::RestaurantUpdated => "Restaurant updated successfully"@,
        }
    }

    pub fn as_str(&self) -> (r: &'static str)
        ensures
            r@ == self.text(),
    {
        match self {
            StatusNote::StatusToggled => "Status toggled successfully",
            StatusNote::RestaurantDeleted => "Restaurant deleted successfully",
            StatusNote::ApprovalUpdated => "Approval status updated",
            StatusNote::FavoriteRemoved => "Favorite removed successfully",
            StatusNote::RestaurantSubmitted => "Restaurant submitted for approval",
            StatusNote::RestaurantAdded => "Restaurant added successfully",
            StatusNote::RestaurantUpdated => "Restaurant updated successfully",
        }
    }
}

/// What becomes of the status line once a list has been fetched.
#[derive(Clone, Copy, Debug, PartialEq, Eq, Structural)]
pub enum AfterFetch {
    /// Leave it as the fetch left it.
    Keep,
    Clear,
    Note(StatusNote),
}

/// The operation an API call in progress belongs to; its reply is handled
/// by what is recorded here.
#[derive(Clone, Copy, Debug, PartialEq, Eq, Structural)]
pub enum Pending {
    Login,
    Signup,
    ResetPassword,
    Fetch { list: ListKind, after: AfterFetch },
    AddFavorite,
    ToggleStatus { list: ListKind },
    DeleteRestaurant { list: ListKind },
    Approve,
    RemoveFavorite,
    /// A new entry is being created (or submitted, for a customer).
    SaveNew { customer: bool },
    /// An entry is being updated.
    SaveEdit { restaurant_id: i32 },
    /// Menu entries removed in the form are being deleted, `next` onward.
    MenuDeletes { restaurant_id: i32, next: usize },
    /// Menu entries of the form are being written, `next` onward: new ones
    /// created and, when `update_existing`, saved ones updated.
    MenuWrites { restaurant_id: i32, next: usize, update_existing: bool, to_my: bool, note: StatusNote },
}

/// An API call for the transport to make. Its data comes from the state
/// (`App::request`); the reply goes back through `on_reply`.
#[derive(Clone, Copy, Debug, PartialEq, Eq, Structural)]
pub enum ApiCall {
    Login,
    Signup,
    ResetPassword,
    GetRestaurants,
    GetMyRestaurants,
    GetFavorites,
    UpdateRestaurantStatus { id: i32, open_status: bool },
    DeleteRestaurant { id: i32 },
    ApproveRestaurant { id: i32, is_approved: bool },
    AddFavorite { restaurant_id: i32 },
    RemoveFavorite { favorite_id: i32 },
    CreateRestaurant,
    SubmitRestaurant,
    UpdateRestaurant { id: i32 },
    CreateMenuItem { restaurant_id: i32, index: usize },
    UpdateMenuItem { restaurant_id: i32, index: usize },
    DeleteMenuItem { restaurant_id: i32, item_id: i64 },
}

/// What the application asks of its surroundings after an event.
#[derive(Clone, Copy, Debug, PartialEq, Eq, Structural)]
pub enum Command {
    /// Nothing to do until the next key.
    Idle,
    /// Leave the program.
    Quit,
    /// Make this call and hand its reply to `on_reply`.
    Call(ApiCall),
}

/// The successful reply to a call, as far as the application reads it.
#[derive(Clone, Debug)]
pub enum Reply {
    /// A reply whose content is not used.
    Ack,
    Token(crate::api::TokenResponse),
    Restaurants(Vec<Restaurant>),
    Favorites(Vec<FavoriteResponse>),
    Created(Restaurant),
}

pub struct App {
    pub screen: Screen,
    pub focus: Focus,
    pub api_client: ApiClient,
    pub restaurants: Vec<Restaurant>,
    pub my_restaurants: Vec<Restaurant>,
    pub favorites: Vec<FavoriteResponse>,
    pub selected_restaurant_index: Option<usize>,
    pub selected_my_restaurant_index: Option<usize>,
    pub selected_favorite_index: Option<usize>,
    pub status_message: Option<String>,
    pub editing_restaurant_id: Option<i32>,
    pub input_username: String,
    pub input_password: String,
    pub input_role: UserRole,
    pub search_query: String,
    pub form_name: String,
    pub form_type: RestaurantType,
    pub form_cuisine_type: String,
    pub form_location: String,
    pub form_location_desc: String,
    pub form_location_lat: String,
    pub form_location_lng: String,
    pub form_location_address: String,
    pub form_location_city: String,
    pub form_location_state: String,
    pub form_location_zip: String,
    pub form_location_road1: String,
    pub form_location_road2: String,
    pub form_location_venue: String,
    pub form_location_stall: String,
    pub form_location_lot: String,
    pub form_open_time: String,
    pub form_close_time: String,
    pub form_open_status: bool,
    pub form_description: String,
    pub form_menu_items: Vec<MenuItem>,
    pub form_menu_item_name: String,
    pub form_menu_item_price: String,
    pub form_menu_item_description: String,
    pub form_menu_item_selected: Option<usize>,
    pub form_menu_items_removed: Vec<i64>,
    pub pending: Option<Pending>,
}

/// The state with its texts as character sequences.
#[verifier::ext_equal]
pub struct AppView {
    pub screen: Screen,
    pub focus: Focus,
    pub api_client: ApiClient,
    pub restaurants: Seq<Restaurant>,
    pub my_restaurants: Seq<Restaurant>,
    pub favorites: Seq<FavoriteResponse>,
    pub selected_restaurant_index: Option<usize>,
    pub selected_my_restaurant_index: Option<usize>,
    pub selected_favorite_index: Option<usize>,
    pub status_message: Option<Seq<char>>,
    pub editing_restaurant_id: Option<i32>,
    pub input_username: Seq<char>,
    pub input_password: Seq<char>,
    pub input_role: UserRole,
    pub search_query: Seq<char>,
    pub form_name: Seq<char>,
    pub form_type: RestaurantType,
    pub form_cuisine_type: Seq<char>,
    pub form_location: Seq<char>,
    pub form_location_desc: Seq<char>,
    pub form_location_lat: Seq<char>,
    pub form_location_lng: Seq<char>,
    pub form_location_address: Seq<char>,
    pub form_location_city: Seq<char>,
    pub form_location_state: Seq<char>,
    pub form_location_zip: Seq<char>,
    pub form_location_road1: Seq<char>,
    pub form_location_road2: Seq<char>,
    pub form_location_venue: Seq<char>,
    pub form_location_stall: Seq<char>,
    pub form_location_lot: Seq<char>,
    pub form_open_time: Seq<char>,
    pub form_close_time: Seq<char>,
    pub form_open_status: bool,
    pub form_description: Seq<char>,
    pub form_menu_items: Seq<MenuItemView>,
    pub form_menu_item_name: Seq<char>,
    pub form_menu_item_price: Seq<char>,
    pub form_menu_item_description: Seq<char>,
    pub form_menu_item_selected: Option<usize>,
    pub form_menu_items_removed: Seq<i64>,
    pub pending: Option<Pending>,
}

impl View for App {
    type V = AppView;

    open spec fn view(&self) -> AppView {
        AppView {
            screen: self.screen,
            focus: self.focus,
            api_client: self.api_client,
            restaurants: self.restaurants@,
            my_restaurants: self.my_restaurants@,
            favorites: self.favorites@,
            selected_restaurant_index: self.selected_restaurant_index,
            selected_my_restaurant_index: self.selected_my_restaurant_index,
            selected_favorite_index: self.selected_favorite_index,
            status_message: opt_view(self.status_message),
            editing_restaurant_id: self.editing_restaurant_id,
            input_username: self.input_username@,
            input_password: self.input_password@,
            input_role: self.input_role,
            search_query: self.search_query@,
            form_name: self.form_name@,
            form_type: self.form_type,
            form_cuisine_type: self.form_cuisine_type@,
            form_location: self.form_location@,
            form_location_desc: self.form_location_desc@,
            form_location_lat: self.form_location_lat@,
            form_location_lng: self.form_location_lng@,
            form_location_address: self.form_location_address@,
            form_location_city: self.form_location_city@,
            form_location_state: self.form_location_state@,
            form_location_zip: self.form_location_zip@,
            form_location_road1: self.form_location_road1@,
            form_location_road2: self.form_location_road2@,
            form_location_venue: self.form_location_venue@,
            form_location_stall: self.form_location_stall@,
            form_location_lot: self.form_location_lot@,
            form_open_time: self.form_open_time@,
            form_close_time: self.form_close_time@,
            form_open_status: self.form_open_status,
            form_description: self.form_description@,
            form_menu_items: crate::api::menu_views(self.form_menu_items@),
            form_menu_item_name: self.form_menu_item_name@,
            form_menu_item_price: self.form_menu_item_price@,
            form_menu_item_description: self.form_menu_item_description@,
            form_menu_item_selected: self.form_menu_item_selected,
            form_menu_items_removed: self.form_menu_items_removed@,
            pending: self.pending,
        }
    }
}

impl AppView {
    pub open spec fn with_status(self, msg: Seq<char>) -> AppView {
        AppView { status_message: Some(msg), ..self }
    }

    pub open spec fn without_status(self) -> AppView {
        AppView { status_message: None, ..self }
    }

    /// A fresh state: the sign-in screen, empty inputs and lists, and a
    /// form holding the defaults of a new entry.
    pub open spec fn initial(api_client: ApiClient) -> AppView {
        AppView {
            screen: Screen::Login,
            focus: Focus::LoginUsername,
            api_client,
            restaurants: Seq::empty(),
            my_restaurants: Seq::empty(),
            favorites: Seq::empty(),
            selected_restaurant_index: None,
            selected_my_restaurant_index: None,
            selected_favorite_index: None,
            status_message: None,
            editing_restaurant_id: None,
            input_username: Seq::empty(),
            input_password: Seq::empty(),
            input_role: UserRole::Customer,
            search_query: Seq::empty(),
            form_name: Seq::empty(),
            form_type: RestaurantType::FoodStall,
            form_cuisine_type: Seq::empty(),
            form_location: Seq::empty(),
            form_location_desc: Seq::empty(),
            form_location_lat: Seq::empty(),
            form_location_lng: Seq::empty(),
            form_location_address: Seq::empty(),
            form_location_city: Seq::empty(),
            form_location_state: Seq::empty(),
            form_location_zip: Seq::empty(),
            form_location_road1: Seq::empty(),
            form_location_road2: Seq::empty(),
            form_location_venue: Seq::empty(),
            form_location_stall: Seq::empty(),
            form_location_lot: Seq::empty(),
            form_open_time: "08:00:00"@,
            form_close_time: "22:00:00"@,
            form_open_status: true,
            form_description: Seq::empty(),
            form_menu_items: Seq::empty(),
            form_menu_item_name: Seq::empty(),
            form_menu_item_price: Seq::empty(),
            form_menu_item_description: Seq::empty(),
            form_menu_item_selected: None,
            form_menu_items_removed: Seq::empty(),
            pending: None,
        }
    }
}

impl App {
    pub fn new(base_url: &str) -> (r: App)
        ensures
            r@ == AppView::initial(r.api_client),
            r.api_client.base_url@ == trim_trailing_slashes(base_url@),
            r.api_client.token is None,
            r.api_client.username is None,
            r.api_client.role is None,
    {
        let r = App {
            screen: Screen::Login,
            focus: Focus::LoginUsername,
            api_client: ApiClient::new(base_url),
            restaurants: Vec::new(),
            my_restaurants: Vec::new(),
            favorites: Vec::new(),
            selected_restaurant_index: None,
            selected_my_restaurant_index: None,
            selected_favorite_index: None,
            status_message: None,
            editing_restaurant_id: None,
            input_username: String::new(),
            input_password: String::new(),
            input_role: UserRole::Customer,
            search_query: String::new(),
            form_name: String::new(),
            form_type: RestaurantType::FoodStall,
            form_cuisine_type: String::new(),
            form_location: String::new(),
            form_location_desc: String::new(),
            form_location_lat: String::new(),
            form_location_lng: String::new(),
            form_location_address: String::new(),
            form_location_city: String::new(),
            form_location_state: String::new(),
            form_location_zip: String::new(),
            form_location_road1: String::new(),
            form_location_road2: String::new(),
            form_location_venue: String::new(),
            form_location_stall: String::new(),
            form_location_lot: String::new(),
            form_open_time: "08:00:00".to_string(),
            form_close_time: "22:00:00".to_string(),
            form_open_status: true,
            form_description: String::new(),
            form_menu_items: Vec::new(),
            form_menu_item_name: String::new(),
            form_menu_item_price: String::new(),
            form_menu_item_description: String::new(),
            form_menu_item_selected: None,
            form_menu_items_removed: Vec::new(),
            pending: None,
        };
        assert(r@ =~= AppView::initial(r.api_client));
        r
    }

    pub fn set_status(&mut self, msg: &str)
        ensures
            final(self)@ == old(self)@.with_status(msg@),
    {
        self.status_message = Some(msg.to_string());
    }

    pub fn clear_status(&mut self)
        ensures
            final(self)@ == old(self)@.without_status(),
    {
        self.status_message = None;
    }
}


/// The selection after a list of `len` entries has been fetched: none for an
/// empty list, the first entry when nothing was selected, and otherwise the
/// old selection moved back onto the last entry if it lies beyond it.
pub open spec fn clamp_selection(sel: Option<usize>, len: nat) -> Option<usize> {
    if len == 0 {
        None
    } else {
        match sel {
            None => Some(0),
            Some(i) => if i > len - 1 {
                Some((len - 1) as usize)
            } else {
                Some(i)
            },
        }
    }
}

pub fn clamp_index(sel: Option<usize>, len: usize) -> (r: Option<usize>)
    ensures
        r == clamp_selection(sel, len as nat),
{
    if len == 0 {
        None
    } else {
        match sel {
            None => Some(0),
            Some(i) => if i > len - 1 {
                Some(len - 1)
            } else {
                Some(i)
            },
        }
    }
}

/// The status shown while a list is being fetched.
pub open spec fn loading_text(list: ListKind) -> Seq<char> {
    match list {
        ListKind::Restaurants => "Loading restaurants..."@,
        ListKind::MyRestaurants => "Loading your restaurants..."@,
        ListKind::Favorites => "Loading favorites..."@,
    }
}

/// The call that fetches a list.
pub open spec fn list_call(list: ListKind) -> ApiCall {
    match list {
        ListKind::Restaurants => ApiCall::GetRestaurants,
        ListKind::MyRestaurants => ApiCall::GetMyRestaurants,
        ListKind::Favorites => ApiCall::GetFavorites,
    }
}

/// `prefix` followed by the error's message.
pub open spec fn error_text(prefix: Seq<char>, e: ApiError) -> Seq<char> {
    prefix + e.text()
}

/// What the status line holds after a fetch, given what the fetch left.
pub open spec fn after_fetch(v: AppView, after: AfterFetch) -> AppView {
    match after {
        AfterFetch::Keep => v,
        AfterFetch::Clear => v.without_status(),
        AfterFetch::Note(n) => v.with_status(n.text()),
    }
}

impl AppView {
    /// Starts fetching `list`: shows the loading status and asks for the
    /// list, remembering what to do with the status afterwards.
    pub open spec fn begin_fetch(self, list: ListKind, after: AfterFetch) -> (AppView, Command) {
        (
            AppView { pending: Some(Pending::Fetch { list, after }), ..self.with_status(loading_text(list)) },
            Command::Call(list_call(list)),
        )
    }

    /// The state once the fetch of `list` has answered with `outcome`: a
    /// fetched list replaces the old one, its selection is clamped and the
    /// status cleared; a failure shows `Fetch error: ` and the error.
    pub open spec fn fetched(self, list: ListKind, outcome: Result<Reply, ApiError>) -> AppView {
        match outcome {
            Ok(Reply::Restaurants(l)) => match list {
                ListKind::Restaurants => AppView {
                    restaurants: l@,
                    selected_restaurant_index: clamp_selection(self.selected_restaurant_index, l@.len()),
                    status_message: None,
                    ..self
                },
                ListKind::MyRestaurants => AppView {
                    my_restaurants: l@,
                    selected_my_restaurant_index: clamp_selection(self.selected_my_restaurant_index, l@.len()),
                    status_message: None,
                    ..self
                },
                ListKind::Favorites => self,
            },
            Ok(Reply::Favorites(l)) => match list {
                ListKind::Favorites => AppView {
                    favorites: l@,
                    selected_favorite_index: clamp_selection(self.selected_favorite_index, l@.len()),
                    status_message: None,
                    ..self
                },
                _ => self,
            },
            Ok(_) => self,
            Err(e) => self.with_status(error_text("Fetch error: "@, e)),
        }
    }
}

impl App {
    /// Shows `prefix` followed by the error's message.
    pub fn set_error_status(&mut self, prefix: &str, e: &ApiError)
        ensures
            final(self)@ == old(self)@.with_status(error_text(prefix@, *e)),
    {
        let mut msg = prefix.to_string();
        let detail = e.message();
        msg.append(detail.as_str());
        self.status_message = Some(msg);
    }

    pub fn fetch_list(&mut self, list: ListKind, after: AfterFetch) -> (r: Command)
        ensures
            (final(self)@, r) == old(self)@.begin_fetch(list, after),
    {
        match list {
            ListKind::Restaurants => {
                self.set_status("Loading restaurants...");
                self.pending = Some(Pending::Fetch { list, after });
                Command::Call(ApiCall::GetRestaurants)
            },
            ListKind::MyRestaurants => {
                self.set_status("Loading your restaurants...");
                self.pending = Some(Pending::Fetch { list, after });
                Command::Call(ApiCall::GetMyRestaurants)
            },
            ListKind::Favorites => {
                self.set_status("Loading favorites...");
                self.pending = Some(Pending::Fetch { list, after });
                Command::Call(ApiCall::GetFavorites)
            },
        }
    }

    /// Fetches the restaurant list, filtered by the search query.
    pub fn fetch_restaurants(&mut self) -> (r: Command)
        ensures
            (final(self)@, r) == old(self)@.begin_fetch(ListKind::Restaurants, AfterFetch::Keep),
    {
        self.fetch_list(ListKind::Restaurants, AfterFetch::Keep)
    }

    /// Fetches the restaurants of the signed-in customer.
    pub fn fetch_my_restaurants(&mut self) -> (r: Command)
        ensures
            (final(self)@, r) == old(self)@.begin_fetch(ListKind::MyRestaurants, AfterFetch::Keep),
    {
        self.fetch_list(ListKind::MyRestaurants, AfterFetch::Keep)
    }

    /// Fetches the favorites of the signed-in consumer.
    pub fn fetch_favorites(&mut self) -> (r: Command)
        ensures
            (final(self)@, r) == old(self)@.begin_fetch(ListKind::Favorites, AfterFetch::Keep),
    {
        self.fetch_list(ListKind::Favorites, AfterFetch::Keep)
    }

    /// Takes in the reply to a list fetch (see `AppView::fetched`).
    pub fn apply_fetched(&mut self, list: ListKind, outcome: Result<Reply, ApiError>)
        ensures
            final(self)@ == old(self)@.fetched(list, outcome),
    {
        match outcome {
            Ok(Reply::Restaurants(l)) => match list {
                ListKind::Restaurants => {
                    let n = l.len();
                    self.restaurants = l;
                    self.selected_restaurant_index = clamp_index(self.selected_restaurant_index, n);
                    self.clear_status();
                },
                ListKind::MyRestaurants => {
                    let n = l.len();
                    self.my_restaurants = l;
                    self.selected_my_restaurant_index = clamp_index(self.selected_my_restaurant_index, n);
                    self.clear_status();
                },
                ListKind::Favorites => {},
            },
            Ok(Reply::Favorites(l)) => match list {
                ListKind::Favorites => {
                    let n = l.len();
                    self.favorites = l;
                    self.selected_favorite_index = clamp_index(self.selected_favorite_index, n);
                    self.clear_status();
                },
                _ => {},
            },
            Ok(_) => {},
            Err(e) => {
                self.set_error_status("Fetch error: ", &e);
            },
        }
    }
}

} // verus!
