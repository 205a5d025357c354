use giphy_app::client::api::Command;
use giphy_app::client::containers::search::{search, SearchContainerEvent};
use giphy_app::client::router::Route;
use giphy_app::client::runtime::dispatch;
use giphy_app::client::state::{update, Model, ModelEvent, Orders};
use giphy_app::common::{
    Error, GiphyGif, SaveGifRequest, SaveGifResponse, SearchGiphyRequest, SearchGiphyResponse,
    User,
};

fn send(model: &mut Model, event: SearchContainerEvent) -> Orders {
    let mut orders = Orders::new();
    update(ModelEvent::Search(event), model, &mut orders);
    orders
}

fn gif(id: &str, is_saved: bool, category: Option<&str>) -> GiphyGif {
    GiphyGif {
        id: id.to_string(),
        title: format!("title of {}", id),
        url: format!("https://media.example/{}.gif", id),
        is_saved,
        category: category.map(|c| c.to_string()),
    }
}

fn logged_in() -> Model {
    let mut model = Model::default();
    model.user = Some(User { id: 1, email: "a@b.com".to_string(), jwt: "jwt-1".to_string() });
    model.route = Route::Search;
    model
}

#[test]
fn update_search_field_sets_the_query() {
    let mut model = logged_in();
    let orders = send(&mut model, SearchContainerEvent::UpdateSearchField("cats".to_string()));
    assert_eq!(model.search.search, "cats");
    assert!(orders.cmds.is_empty());
    assert!(orders.msgs.is_empty());
    assert!(orders.should_render);
}

#[test]
fn submit_search_clears_and_issues_the_search() {
    let mut model = logged_in();
    model.search.search_results.insert(gif("old", false, None));
    model.search.search_error = Some("old error".to_string());
    send(&mut model, SearchContainerEvent::UpdateSearchField("cats".to_string()));
    let orders = send(&mut model, SearchContainerEvent::SubmitSearch);
    assert!(model.search.search_results.is_empty());
    assert_eq!(model.search.search_error, None);
    assert!(model.search.has_search_request);
    assert_eq!(orders.cmds.len(), 1);
    match &orders.cmds[0] {
        Command::Search(req, jwt) => {
            assert_eq!(req, &SearchGiphyRequest { query: "cats".to_string() });
            assert_eq!(jwt, "jwt-1");
        }
        other => panic!("unexpected command {:?}", other),
    }
    assert_eq!(orders.cmds[0].path(), Some("/search_giphy"));
    assert_eq!(orders.cmds[0].authorization(), Some("bearer jwt-1".to_string()));
    assert!(orders.msgs.is_empty());
}

#[test]
fn submit_search_without_user_logs_out() {
    let mut model = Model::default();
    let orders = send(&mut model, SearchContainerEvent::SubmitSearch);
    assert!(orders.cmds.is_empty());
    assert_eq!(orders.msgs.len(), 1);
    assert!(matches!(orders.msgs[0], ModelEvent::Logout));
    assert!(!model.search.has_search_request);
}

#[test]
fn search_success_merges_by_id() {
    let mut model = logged_in();
    send(&mut model, SearchContainerEvent::SubmitSearch);
    let first = SearchGiphyResponse { gifs: vec![gif("a", false, None), gif("b", false, None)] };
    send(&mut model, SearchContainerEvent::SearchSuccess(first));
    assert!(!model.search.has_search_request);
    let second =
        SearchGiphyResponse { gifs: vec![gif("c", false, None), gif("a", true, Some("cats"))] };
    send(&mut model, SearchContainerEvent::SearchSuccess(second));
    assert_eq!(
        model.search.search_results.values(),
        &vec![gif("a", true, Some("cats")), gif("b", false, None), gif("c", false, None)]
    );
}

#[test]
fn search_error_is_shown() {
    let mut model = logged_in();
    send(&mut model, SearchContainerEvent::SubmitSearch);
    let orders =
        send(&mut model, SearchContainerEvent::SearchError(Error::new("Bad query.", 400, None)));
    assert!(!model.search.has_search_request);
    assert_eq!(model.search.search_error, Some("Bad query.".to_string()));
    assert!(orders.msgs.is_empty());
    assert_eq!(search(&model).error, "Bad query.");
}

#[test]
fn search_error_of_a_refused_session_logs_out() {
    let mut model = logged_in();
    send(&mut model, SearchContainerEvent::SubmitSearch);
    let orders = send(
        &mut model,
        SearchContainerEvent::SearchError(Error::new("Unauthorized.", 401, None)),
    );
    assert!(!model.search.has_search_request);
    assert_eq!(model.search.search_error, None);
    assert_eq!(orders.msgs.len(), 1);
    assert!(matches!(orders.msgs[0], ModelEvent::Logout));
}

#[test]
fn save_gif_marks_the_gif_and_issues_the_save() {
    let mut model = logged_in();
    let orders = send(&mut model, SearchContainerEvent::SaveGif("g42".to_string()));
    assert!(model.search.gifs_being_saved.contains("g42"));
    assert_eq!(orders.cmds.len(), 1);
    match &orders.cmds[0] {
        Command::SaveGif(req, jwt) => {
            assert_eq!(req, &SaveGifRequest { id: "g42".to_string() });
            assert_eq!(jwt, "jwt-1");
        }
        other => panic!("unexpected command {:?}", other),
    }
    assert_eq!(orders.cmds[0].path(), Some("/save_gif"));
    assert_eq!(orders.cmds[0].authorization(), Some("bearer jwt-1".to_string()));
}

#[test]
fn save_gif_without_user_logs_out() {
    let mut model = Model::default();
    let orders = send(&mut model, SearchContainerEvent::SaveGif("g42".to_string()));
    assert!(orders.cmds.is_empty());
    assert!(matches!(orders.msgs[0], ModelEvent::Logout));
    assert!(!model.search.gifs_being_saved.contains("g42"));
}

#[test]
fn save_gif_success_writes_both_maps() {
    let mut model = logged_in();
    model.search.search_results.extend(&vec![gif("g1", false, None), gif("g42", false, None)]);
    send(&mut model, SearchContainerEvent::SaveGif("g42".to_string()));
    send(&mut model, SearchContainerEvent::SaveGif("g1".to_string()));
    let saved = gif("g42", true, Some("cats"));
    let orders = send(
        &mut model,
        SearchContainerEvent::SaveGifSuccess(SaveGifResponse { gif: saved.clone() }),
    );
    assert!(!model.search.gifs_being_saved.contains("g42"));
    assert!(model.search.gifs_being_saved.contains("g1"));
    assert_eq!(model.search.search_results.get("g42"), Some(&saved));
    assert_eq!(model.favorites.favorites.get("g42"), Some(&saved));
    assert!(model.favorites.favorites.get("g42").unwrap().is_saved);
    assert_eq!(model.search.search_results.len(), 2);
    assert_eq!(model.search.search_results.values()[1], saved);
    assert_eq!(model.favorites.favorites.len(), 1);
    assert!(orders.cmds.is_empty());
    assert!(orders.msgs.is_empty());
}

#[test]
fn save_gif_error_is_dropped_silently() {
    let mut model = logged_in();
    send(&mut model, SearchContainerEvent::SaveGif("g42".to_string()));
    let orders = send(
        &mut model,
        SearchContainerEvent::SaveGifError(("g42".to_string(), Error::new_ise())),
    );
    assert!(!model.search.gifs_being_saved.contains("g42"));
    assert!(orders.msgs.is_empty());
    assert!(!orders.should_render);
    assert_eq!(model.search.search_error, None);
}

#[test]
fn save_gif_unauthorized_ends_the_session() {
    let mut model = logged_in();
    model.search.search_results.insert(gif("g42", false, None));
    model.favorites.favorites.insert(gif("f1", true, None));
    send(&mut model, SearchContainerEvent::UpdateSearchField("cats".to_string()));
    send(&mut model, SearchContainerEvent::SaveGif("g42".to_string()));
    let failure = SearchContainerEvent::SaveGifError((
        "g42".to_string(),
        Error::new("Unauthorized. Token is expired.", 401, None),
    ));
    // one step: the GIF leaves the saving set, and Logout comes next
    let mut step_model = model.clone();
    let orders = send(&mut step_model, failure.clone());
    assert!(!step_model.search.gifs_being_saved.contains("g42"));
    assert_eq!(orders.msgs.len(), 1);
    assert!(matches!(orders.msgs[0], ModelEvent::Logout));
    // the whole chain: the session is over
    let orders = dispatch(ModelEvent::Search(failure), &mut model);
    assert!(!model.search.gifs_being_saved.contains("g42"));
    assert_eq!(model.user, None);
    assert_eq!(model.search.search, "");
    assert!(model.search.search_results.is_empty());
    assert!(model.favorites.favorites.is_empty());
    assert_eq!(model.route, Route::Login);
    assert!(orders.msgs.is_empty());
    assert_eq!(orders.cmds.len(), 2);
    assert!(matches!(orders.cmds[0], Command::ForgetUser));
    assert!(matches!(orders.cmds[1], Command::PushRoute(Route::Login)));
}

#[test]
fn search_page_disables_controls_while_searching() {
    let mut model = logged_in();
    let page = search(&model);
    assert!(!page.is_searching);
    assert!(!page.is_input_disabled);
    assert!(page.is_submit_disabled);
    assert_eq!(page.error, " ");
    send(&mut model, SearchContainerEvent::UpdateSearchField("cats".to_string()));
    let page = search(&model);
    assert!(!page.is_submit_disabled);
    assert_eq!(page.query, "cats");
    send(&mut model, SearchContainerEvent::SubmitSearch);
    let page = search(&model);
    assert!(page.is_searching);
    assert!(page.is_input_disabled);
    assert!(page.is_submit_disabled);
}

#[test]
fn search_page_shows_a_card_for_every_result() {
    let mut model = logged_in();
    model.search.search_results.extend(&vec![gif("a", false, None), gif("b", true, Some("dogs"))]);
    model.favorites.category_updates.insert("b".to_string(), "pupp".to_string());
    let page = search(&model);
    assert_eq!(page.cards.len(), 2);
    assert_eq!(page.cards[0].id, "a");
    assert_eq!(page.cards[0].title, "title of a");
    assert_eq!(page.cards[0].url, "https://media.example/a.gif");
    assert!(!page.cards[0].is_saved);
    assert!(page.cards[0].is_category_disabled);
    assert_eq!(page.cards[0].category_val, "");
    assert!(matches!(
        &page.cards[0].on_save,
        ModelEvent::Search(SearchContainerEvent::SaveGif(id)) if id == "a"
    ));
    assert_eq!(page.cards[1].id, "b");
    assert!(page.cards[1].is_saved);
    assert!(!page.cards[1].is_category_disabled);
    assert_eq!(page.cards[1].category_val, "pupp");
}

#[test]
fn search_pristine_empties_the_container() {
    let mut model = logged_in();
    model.search.search_results.insert(gif("a", false, None));
    send(&mut model, SearchContainerEvent::UpdateSearchField("cats".to_string()));
    send(&mut model, SearchContainerEvent::SaveGif("a".to_string()));
    send(&mut model, SearchContainerEvent::SubmitSearch);
    model.search.pristine();
    assert_eq!(model.search.search, "");
    assert_eq!(model.search.search_error, None);
    assert!(model.search.search_results.is_empty());
    assert!(!model.search.has_search_request);
    assert!(model.search.gifs_being_saved.is_empty());
}
