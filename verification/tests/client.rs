//! The client-side logic: session and routes, the gift-list view rules,
//! the page router, and the end-to-end gifting scenario.

use gift_app::api;
use gift_app::api::ApiResponse;
use gift_app::gift_list;
use gift_app::gift_list::GiftListMsg;
use gift_app::gift_list::GiftListRequest;
use gift_app::gift_list::RowControl;
use gift_app::page::Page;
use gift_app::pages;
use gift_app::pages::Effect;
use gift_app::pages::GlobalMsg;
use gift_app::pages::PageModel;
use gift_app::route::Route;
use gift_app::session::Session;
use gift_app::shared::GiftIdeaRequestBody;
use gift_app::shared::GiftIdeaResponseBody;
use gift_app::shared::LoggedUser;
use gift_app::shared::RegisterRequestBody;
use gift_app::store::Store;

fn logged_user(id: i32, email: &str) -> LoggedUser {
    LoggedUser {
        id,
        email: email.to_string(),
        first_name: "First".to_string(),
        last_name: "Last".to_string(),
    }
}

fn response_row(id: i32, owner: i32, recipient: i32, holder: Option<i32>) -> GiftIdeaResponseBody {
    GiftIdeaResponseBody {
        id,
        title: format!("gift {}", id),
        description: None,
        price: None,
        url: None,
        owner_id: owner,
        recipient_user_id: recipient,
        reserved_by_user_id: holder,
    }
}

#[test]
fn session_new_and_viewer() {
    let user = logged_user(1, "a@x.com");
    let logged_in = Session::new(Some(user.clone()));
    assert_eq!(logged_in.viewer(), Some(&user));
    let guest = Session::new(None);
    assert_eq!(guest.viewer(), None);
    assert_eq!(Session::default().viewer(), None);
}

#[test]
fn route_paths() {
    assert_eq!(Route::Home.path(), Vec::<&str>::new());
    assert_eq!(Route::Login.path(), vec!["login"]);
    assert_eq!(Route::Logout.path(), vec!["logout"]);
    assert_eq!(Route::Register.path(), vec!["register"]);
    assert_eq!(Route::Profile.path(), vec!["profile"]);
    assert_eq!(Route::GiftIdeas.path(), vec!["gift_ideas"]);
    assert_eq!(Route::AddGiftIdea.path(), vec!["add_gift_idea"]);
}

#[test]
fn route_parsing_accepts_the_known_segments() {
    assert_eq!(Route::try_from_segment(None), Ok(Route::Home));
    assert_eq!(Route::try_from_segment(Some("")), Ok(Route::Home));
    assert_eq!(Route::try_from_segment(Some("home")), Ok(Route::Home));
    assert_eq!(Route::try_from_segment(Some("login")), Ok(Route::Login));
    assert_eq!(Route::try_from_segment(Some("logout")), Ok(Route::Logout));
    assert_eq!(Route::try_from_segment(Some("register")), Ok(Route::Register));
    assert_eq!(Route::try_from_segment(Some("profile")), Ok(Route::Profile));
    assert_eq!(Route::try_from_segment(Some("gift_ideas")), Ok(Route::GiftIdeas));
    assert_eq!(Route::try_from_segment(Some("add_gift_idea")), Ok(Route::AddGiftIdea));
    assert_eq!(Route::try_from_segment(Some("attic")), Err(()));
}

#[test]
fn navbar_highlights_only_the_current_page() {
    assert!(Page::GiftIdeas.is_active(&Route::GiftIdeas));
    assert!(!Page::GiftIdeas.is_active(&Route::Profile));
    assert!(!Page::Other.is_active(&Route::Home));
    assert!(Page::Home.is_active(&Route::Home));
}

#[test]
fn gift_list_hides_rows_meant_for_the_viewer() {
    let rows = vec![
        response_row(1, 1, 2, None),
        response_row(2, 3, 5, None),
        response_row(3, 1, 4, None),
    ];
    let visible = gift_list::visible_gift_ideas(rows, 5);
    assert_eq!(visible.len(), 2);
    assert_eq!(visible[0].id, 1);
    assert_eq!(visible[1].id, 3);
}

#[test]
fn row_controls_follow_recipient_and_holder() {
    let open_row = response_row(1, 1, 2, None);
    assert_eq!(gift_list::row_control(&open_row, 3), RowControl::Reserve);
    assert_eq!(gift_list::row_control(&open_row, 2), RowControl::Hidden);
    let held = response_row(1, 1, 2, Some(3));
    assert_eq!(gift_list::row_control(&held, 3), RowControl::Unreserve);
    assert_eq!(gift_list::row_control(&held, 4), RowControl::Reserved);
    assert!(gift_list::shows_owner_controls(&held, 1));
    assert!(!gift_list::shows_owner_controls(&held, 2));
}

#[test]
fn apply_reservation_updates_the_matching_row() {
    let mut rows = vec![response_row(1, 1, 2, None), response_row(2, 1, 3, None)];
    let answer = response_row(2, 1, 3, Some(7));
    gift_list::apply_reservation(&mut rows, &answer);
    assert_eq!(rows[0].reserved_by_user_id, None);
    assert_eq!(rows[1].reserved_by_user_id, Some(7));
}

#[test]
fn remove_gift_idea_drops_only_that_row() {
    let mut rows = vec![response_row(1, 1, 2, None), response_row(2, 1, 3, None)];
    gift_list::remove_gift_idea(&mut rows, 1);
    assert_eq!(rows.len(), 1);
    assert_eq!(rows[0].id, 2);
}

#[test]
fn router_shows_not_found_without_a_route() {
    let (model, effects) =
        pages::change_model_by_route(None, PageModel::Home(Session::Guest), None);
    assert!(matches!(model, PageModel::NotFound(Session::Guest)));
    assert!(effects.is_empty());
}

#[test]
fn router_logout_clears_storage_and_goes_home() {
    let user = logged_user(1, "a@x.com");
    let (model, effects) = pages::change_model_by_route(
        Some(Route::Logout),
        PageModel::Home(Session::LoggedIn(user)),
        None,
    );
    assert!(matches!(model, PageModel::Home(_)));
    assert_eq!(
        effects,
        vec![
            Effect::RemoveStoredUser,
            Effect::SendSessionChanged(Session::Guest),
            Effect::GoTo(Route::Home),
        ]
    );
}

#[test]
fn router_gift_list_redirects_guests_to_login() {
    let (model, effects) = pages::change_model_by_route(
        Some(Route::GiftIdeas),
        PageModel::Redirect(Session::Guest),
        None,
    );
    match model {
        PageModel::GiftIdeas(m) => {
            assert_eq!(m.session.viewer(), None);
            assert!(m.gift_ideas.is_empty());
        }
        _ => panic!("expected the gift-list page"),
    }
    assert_eq!(effects, vec![Effect::GoTo(Route::Login), Effect::FetchAllGifts]);
}

#[test]
fn router_add_gift_page_starts_with_the_viewer_as_owner() {
    let user = logged_user(9, "a@x.com");
    let (model, effects) = pages::change_model_by_route(
        Some(Route::AddGiftIdea),
        PageModel::Redirect(Session::Guest),
        Some(user),
    );
    match model {
        PageModel::AddGiftIdea(m) => {
            assert_eq!(m.form.owner_id, 9);
            assert_eq!(m.form.recipient_user_id, 0);
            assert!(!m.form.submit_allowed());
        }
        _ => panic!("expected the add-gift page"),
    }
    assert_eq!(effects, vec![Effect::FetchAllUsers]);
}

#[test]
fn sink_login_session_change_goes_to_the_gift_list() {
    let user = logged_user(1, "a@x.com");
    let (model, effects) = pages::sink(
        GlobalMsg::SessionChanged(Session::LoggedIn(user.clone())),
        PageModel::Login(Session::Guest, Default::default()),
    );
    match model {
        PageModel::Login(session, _) => assert_eq!(session.viewer(), Some(&user)),
        _ => panic!("expected the login page"),
    }
    assert_eq!(effects, vec![Effect::GoTo(Route::GiftIdeas)]);
}

#[test]
fn sink_route_pushed_is_handed_to_the_router() {
    let (model, effects) = pages::sink(
        GlobalMsg::RoutePushed(Route::Profile),
        PageModel::Home(Session::Guest),
    );
    assert!(matches!(model, PageModel::Home(Session::Guest)));
    assert_eq!(effects, vec![Effect::RouteChanged(Route::Profile)]);
}

#[test]
fn gifting_scenario_from_register_to_unreserve() {
    // register A and B; A plans "Headphones" for B; B's list hides it;
    // C reserves it, the row shows C as holder; C releases it again
    let mut store = Store::new();
    let register = |email: &str| RegisterRequestBody {
        email: email.to_string(),
        password: "pw".to_string(),
        first_name: None,
        last_name: None,
        phone: None,
    };
    let a = match api::add_user(&mut store, register("a@x.com")) {
        ApiResponse::Success(u) => u,
        _ => panic!("registration failed"),
    };
    let b = match api::add_user(&mut store, register("b@x.com")) {
        ApiResponse::Success(u) => u,
        _ => panic!("registration failed"),
    };
    let c = match api::add_user(&mut store, register("c@x.com")) {
        ApiResponse::Success(u) => u,
        _ => panic!("registration failed"),
    };
    let body = GiftIdeaRequestBody {
        title: "Headphones".to_string(),
        description: None,
        price: None,
        url: None,
        owner_id: a.id,
        recipient_user_id: b.id,
    };
    let gift = match api::add_gift(&mut store, body) {
        ApiResponse::Success(g) => g,
        _ => panic!("add failed"),
    };

    // B's gift-list view excludes the idea meant for B
    let all = match api::find_all_gifts(&store) {
        ApiResponse::Success(gs) => gs,
        _ => panic!("expected one row"),
    };
    let rows: Vec<GiftIdeaResponseBody> =
        all.into_iter().map(GiftIdeaResponseBody::from).collect();
    let b_view = gift_list::visible_gift_ideas(rows.clone(), b.id);
    assert!(b_view.is_empty());
    let c_view = gift_list::visible_gift_ideas(rows, c.id);
    assert_eq!(c_view.len(), 1);

    // C reserves; the row shows C as the holder
    let reserved = match api::reserve(&mut store, gift.id, c.id) {
        ApiResponse::Success(r) => r,
        _ => panic!("reserve failed"),
    };
    assert_eq!(reserved.reserved_by_user_id, Some(c.id));
    match api::find_gift_by_id(&store, gift.id) {
        ApiResponse::Success(g) => assert_eq!(g.reserved_by_user_id, Some(c.id)),
        _ => panic!("expected the reserved row"),
    }

    // C releases; the field returns to absent
    let released = match api::unreserve(&mut store, gift.id) {
        ApiResponse::Success(r) => r,
        _ => panic!("unreserve failed"),
    };
    assert_eq!(released.reserved_by_user_id, None);
    match api::find_gift_by_id(&store, gift.id) {
        ApiResponse::Success(g) => assert_eq!(g.reserved_by_user_id, None),
        _ => panic!("expected the released row"),
    }
}

#[test]
fn gift_list_update_drives_the_page() {
    let viewer = 5;
    let mut rows: Vec<GiftIdeaResponseBody> = Vec::new();

    // a loaded list replaces the local one, minus the viewer's own rows
    let fetched = vec![response_row(1, 1, 2, None), response_row(2, 1, viewer, None)];
    let requests = gift_list::update(GiftListMsg::GiftIdeasLoaded(Ok(fetched)), &mut rows, viewer);
    assert!(requests.is_empty());
    assert_eq!(rows.len(), 1);
    assert_eq!(rows[0].id, 1);

    // a reserve click sends the request with the viewer's id
    let requests =
        gift_list::update(GiftListMsg::ReserveGiftIdea(1), &mut rows, viewer);
    assert_eq!(requests, vec![GiftListRequest::Reserve(1, viewer)]);

    // the answer is folded into the row
    let answer = response_row(1, 1, 2, Some(viewer));
    let requests =
        gift_list::update(GiftListMsg::GiftIdeaReserved(Ok(answer)), &mut rows, viewer);
    assert!(requests.is_empty());
    assert_eq!(rows[0].reserved_by_user_id, Some(viewer));

    // a delete click sends the request and drops the row at once
    let requests = gift_list::update(GiftListMsg::DeleteGiftIdea(1), &mut rows, viewer);
    assert_eq!(requests, vec![GiftListRequest::Delete(1)]);
    assert!(rows.is_empty());

    // the delete confirmation re-opens the gift list
    let requests =
        gift_list::update(GiftListMsg::GiftIdeaDeleted(Ok(true)), &mut rows, viewer);
    assert_eq!(requests, vec![GiftListRequest::ShowGiftList]);

    // a failed fetch changes nothing
    let requests = gift_list::update(
        GiftListMsg::GiftIdeasLoaded(Err("connection refused".to_string())),
        &mut rows,
        viewer,
    );
    assert!(requests.is_empty());
    assert!(rows.is_empty());
}

#[test]
fn register_form_submits_only_with_matching_passwords() {
    let mut form = pages::RegisterForm::default();
    assert!(form.submit_allowed());
    form.password = "pw".to_string();
    assert!(!form.submit_allowed());
    form.confirm_password = "pw".to_string();
    assert!(form.submit_allowed());
}

#[test]
fn page_titles_carry_the_app_name() {
    assert_eq!(gift_app::page::page_title("Gift Ideas"), "Gifts - Gift Ideas");
    assert_eq!(gift_app::page::page_title("Login"), "Gifts - Login");
    assert!(matches!(
        PageModel::default(),
        PageModel::Redirect(Session::Guest)
    ));
}

#[test]
fn legacy_gift_record_starts_without_associations() {
    let g = gift_app::gifts::NewGift::new("Socks".to_string(), 4, 5);
    assert_eq!(g.name, "Socks");
    assert_eq!(g.intended_for_user_id, None);
    assert_eq!(g.reserved_by_user_id, None);
    let ug = gift_app::gifts::NewUserGift::new(4, 7);
    assert_eq!(ug.user_id, 4);
    assert_eq!(ug.gift_id, 7);
}
