use anshin_meshi::fetch::{data_url, response_outcome, FetchFailed, FetchState};
use anshin_meshi::record::Data;
use anshin_meshi::state::{modal_class, AppState, UiEvent};
use anshin_meshi::view::{main_view, MainView};

fn tea(name: &str, n: &str) -> Data {
    Data {
        notification_number: n.to_string(),
        product_name: name.to_string(),
        notifier_name: format!("{} Inc.", name),
        functionality_to_display: format!("{} helps", name),
        assessment: format!("{} verdict", n),
        general_review_of_evidence: format!("{} evidence", n),
    }
}

fn loaded() -> FetchState {
    let mut f = FetchState::new();
    f.settle(Ok(vec![tea("Tea A", "F1"), tea("Tea B", "F2")]));
    f
}

fn row_names(v: &MainView) -> Vec<String> {
    match v {
        MainView::Rows(rows) => rows.iter().map(|d| d.product_name.clone()).collect(),
        _ => panic!("expected data rows"),
    }
}

fn is_initial(s: &AppState) -> bool {
    s.search_input.is_empty()
        && !s.top_navbar_burger_active
        && !s.detail_modal_active
        && s.detail_modal_data == Data::new()
        && !s.about_modal_active
        && !s.terms_of_use_modal_active
        && !s.privacy_policy_modal_active
}

#[test]
fn initial_render_shows_all_rows_in_order() {
    let state = AppState::new();
    assert!(is_initial(&state));
    let v = main_view(&loaded(), &state.search_input);
    assert_eq!(row_names(&v), vec!["Tea A", "Tea B"]);
}

#[test]
fn query_a_shows_only_tea_a() {
    let mut state = AppState::new();
    state.dispatch(UiEvent::SearchChanged("A".to_string()));
    assert_eq!(state.search_input, "A");
    let v = main_view(&loaded(), &state.search_input);
    assert_eq!(row_names(&v), vec!["Tea A"]);
}

#[test]
fn query_without_match_shows_no_match_row() {
    let mut state = AppState::new();
    state.dispatch(UiEvent::SearchChanged("Z".to_string()));
    assert!(matches!(main_view(&loaded(), &state.search_input), MainView::NoMatch));
}

#[test]
fn loaded_empty_list_shows_no_match_row() {
    let mut f = FetchState::new();
    f.settle(Ok(Vec::new()));
    assert!(matches!(main_view(&f, ""), MainView::NoMatch));
}

#[test]
fn pending_fetch_shows_loading() {
    let f = FetchState::new();
    assert!(matches!(f, FetchState::Pending));
    assert!(matches!(main_view(&f, ""), MainView::Loading));
    assert!(matches!(main_view(&f, "Tea"), MainView::Loading));
}

#[test]
fn failed_fetch_shows_failure() {
    let mut f = FetchState::new();
    f.settle(Err(FetchFailed));
    assert!(matches!(main_view(&f, ""), MainView::Failed));
    f.settle(Ok(vec![tea("Tea A", "F1")]));
    assert!(matches!(main_view(&f, ""), MainView::Failed));
}

#[test]
fn settled_fetch_keeps_first_outcome() {
    let mut f = loaded();
    f.settle(Err(FetchFailed));
    assert_eq!(row_names(&main_view(&f, "")), vec!["Tea A", "Tea B"]);
}

#[test]
fn row_click_opens_detail_and_close_clears_it() {
    let mut state = AppState::new();
    let v = main_view(&loaded(), &state.search_input);
    let clicked = match v {
        MainView::Rows(rows) => rows[1].clone(),
        _ => panic!("expected data rows"),
    };
    state.dispatch(UiEvent::RowClicked(clicked));
    assert!(state.detail_modal_active);
    assert_eq!(modal_class(state.detail_modal_active), "modal is-active");
    let d = &state.detail_modal_data;
    assert_eq!(d.notification_number, "F2");
    assert_eq!(d.product_name, "Tea B");
    assert_eq!(d.notifier_name, "Tea B Inc.");
    assert_eq!(d.functionality_to_display, "Tea B helps");
    assert_eq!(d.assessment, "F2 verdict");
    assert_eq!(d.general_review_of_evidence, "F2 evidence");
    state.dispatch(UiEvent::DetailClosed);
    assert!(!state.detail_modal_active);
    assert_eq!(modal_class(state.detail_modal_active), "modal");
    assert_eq!(state.detail_modal_data, Data::new());
}

#[test]
fn row_click_while_open_closes_detail() {
    let mut state = AppState::new();
    state.dispatch(UiEvent::RowClicked(tea("Tea A", "F1")));
    state.dispatch(UiEvent::RowClicked(tea("Tea A", "F1")));
    assert!(is_initial(&state));
}

#[test]
fn each_toggle_twice_restores_state() {
    let toggles = [
        UiEvent::BurgerClicked,
        UiEvent::AboutClicked,
        UiEvent::TermsOfUseClicked,
        UiEvent::PrivacyPolicyClicked,
    ];
    for (i, _) in toggles.iter().enumerate() {
        let mut state = AppState::new();
        state.dispatch(UiEvent::SearchChanged("Tea".to_string()));
        let ev = || match i {
            0 => UiEvent::BurgerClicked,
            1 => UiEvent::AboutClicked,
            2 => UiEvent::TermsOfUseClicked,
            _ => UiEvent::PrivacyPolicyClicked,
        };
        state.dispatch(ev());
        let flags = [
            state.top_navbar_burger_active,
            state.about_modal_active,
            state.terms_of_use_modal_active,
            state.privacy_policy_modal_active,
            state.detail_modal_active,
        ];
        for (j, f) in flags.iter().enumerate() {
            assert_eq!(*f, i == j);
        }
        state.dispatch(ev());
        assert!(!state.top_navbar_burger_active);
        assert!(!state.about_modal_active);
        assert!(!state.terms_of_use_modal_active);
        assert!(!state.privacy_policy_modal_active);
        assert!(!state.detail_modal_active);
        assert_eq!(state.search_input, "Tea");
    }
}

#[test]
fn close_buttons_close_only_their_modal() {
    let mut state = AppState::new();
    state.dispatch(UiEvent::AboutClicked);
    state.dispatch(UiEvent::TermsOfUseClicked);
    state.dispatch(UiEvent::PrivacyPolicyClicked);
    state.dispatch(UiEvent::TermsOfUseClosed);
    assert!(state.about_modal_active && !state.terms_of_use_modal_active && state.privacy_policy_modal_active);
    state.dispatch(UiEvent::AboutClosed);
    state.dispatch(UiEvent::AboutClosed);
    assert!(!state.about_modal_active && state.privacy_policy_modal_active);
    state.dispatch(UiEvent::PrivacyPolicyClosed);
    assert!(is_initial(&state));
}

#[test]
fn burger_and_menu_classes_follow_flag() {
    let mut state = AppState::new();
    assert_eq!(state.burger_class(), "navbar-burger");
    assert_eq!(state.menu_class(), "navbar-menu");
    state.dispatch(UiEvent::BurgerClicked);
    assert_eq!(state.burger_class(), "navbar-burger is-active");
    assert_eq!(state.menu_class(), "navbar-menu is-active");
}

#[test]
fn data_url_embeds_deployment_and_version() {
    assert_eq!(
        data_url("DEPLOY123", "2"),
        "https://script.google.com/macros/s/DEPLOY123/exec?v=v2"
    );
}

#[test]
fn response_outcome_requires_success_status_and_body() {
    assert_eq!(response_outcome(200, Some(vec![tea("Tea A", "F1")])).ok().map(|v| v.len()), Some(1));
    assert!(response_outcome(299, Some(Vec::new())).is_ok());
    assert!(response_outcome(200, None).is_err());
    assert!(response_outcome(404, Some(vec![tea("Tea A", "F1")])).is_err());
    assert!(response_outcome(199, Some(Vec::new())).is_err());
    assert!(response_outcome(300, Some(Vec::new())).is_err());
}
