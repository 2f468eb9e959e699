use vstd::prelude::*;
use crate::record::{Data, is_empty_record};

verus! {

/// The page's UI state: the search text, the burger menu, the four modals and
/// the record shown in the detail modal. Each visibility is a single flag;
/// presentation classes are derived from it.
pub struct AppState {
    pub search_input: String,
    pub top_navbar_burger_active: bool,
    pub detail_modal_active: bool,
    pub detail_modal_data: Data,
    pub about_modal_active: bool,
    pub terms_of_use_modal_active: bool,
    pub privacy_policy_modal_active: bool,
}

/// A user action on the page.
pub enum UiEvent {
    /// The navbar burger was clicked.
    BurgerClicked,
    /// The "about" link was clicked.
    AboutClicked,
    /// A close button of the "about" modal was clicked.
    AboutClosed,
    /// The "terms of use" link was clicked.
    TermsOfUseClicked,
    /// A close button of the "terms of use" modal was clicked.
    TermsOfUseClosed,
    /// The "privacy policy" link was clicked.
    PrivacyPolicyClicked,
    /// A close button of the "privacy policy" modal was clicked.
    PrivacyPolicyClosed,
    /// A row of the results table was clicked; it carries the row's record.
    RowClicked(Data),
    /// A close button of the detail modal was clicked.
    DetailClosed,
    /// The search box now holds this text.
    SearchChanged(String),
}

/// Everything closed, nothing searched, nothing selected.
pub open spec fn is_initial(s: AppState) -> bool {
    &&& s.search_input@.len() == 0
    &&& !s.top_navbar_burger_active
    &&& !s.detail_modal_active
    &&& is_empty_record(s.detail_modal_data)
    &&& !s.about_modal_active
    &&& !s.terms_of_use_modal_active
    &&& !s.privacy_policy_modal_active
}

/// `t` is the state after `e` in state `s`. Closing the detail modal resets
/// its record to the all-empty one.
pub open spec fn is_next_state(s: AppState, e: UiEvent, t: AppState) -> bool {
    match e {
        UiEvent::BurgerClicked => t == AppState {
            top_navbar_burger_active: !s.top_navbar_burger_active,
            ..s
        },
        UiEvent::AboutClicked => t == AppState { about_modal_active: !s.about_modal_active, ..s },
        UiEvent::AboutClosed => t == AppState { about_modal_active: false, ..s },
        UiEvent::TermsOfUseClicked => t == AppState {
            terms_of_use_modal_active: !s.terms_of_use_modal_active,
            ..s
        },
        UiEvent::TermsOfUseClosed => t == AppState { terms_of_use_modal_active: false, ..s },
        UiEvent::PrivacyPolicyClicked => t == AppState {
            privacy_policy_modal_active: !s.privacy_policy_modal_active,
            ..s
        },
        UiEvent::PrivacyPolicyClosed => t == AppState { privacy_policy_modal_active: false, ..s },
        UiEvent::RowClicked(d) => if s.detail_modal_active {
            is_detail_closed(s, t)
        } else {
            t == AppState { detail_modal_active: true, detail_modal_data: d, ..s }
        },
        UiEvent::DetailClosed => is_detail_closed(s, t),
        UiEvent::SearchChanged(text) => t == AppState { search_input: text, ..s },
    }
}

/// `t` is `s` with the detail modal closed and its record reset to the empty one.
pub open spec fn is_detail_closed(s: AppState, t: AppState) -> bool {
    &&& t == AppState { detail_modal_active: false, detail_modal_data: t.detail_modal_data, ..s }
    &&& is_empty_record(t.detail_modal_data)
}

impl AppState {
    /// The state at start-up.
    pub fn new() -> (r: AppState)
        ensures
            is_initial(r),
    {
        AppState {
            search_input: String::new(),
            top_navbar_burger_active: false,
            detail_modal_active: false,
            detail_modal_data: Data::new(),
            about_modal_active: false,
            terms_of_use_modal_active: false,
            privacy_policy_modal_active: false,
        }
    }

    /// Applies one user action.
    pub fn dispatch(&mut self, event: UiEvent)
        ensures
            is_next_state(*old(self), event, *final(self)),
    {
        match event {
            UiEvent::BurgerClicked => {
                self.top_navbar_burger_active = !self.top_navbar_burger_active;
            },
            UiEvent::AboutClicked => {
                self.about_modal_active = !self.about_modal_active;
            },
            UiEvent::AboutClosed => {
                self.about_modal_active = false;
            },
            UiEvent::TermsOfUseClicked => {
                self.terms_of_use_modal_active = !self.terms_of_use_modal_active;
            },
            UiEvent::TermsOfUseClosed => {
                self.terms_of_use_modal_active = false;
            },
            UiEvent::PrivacyPolicyClicked => {
                self.privacy_policy_modal_active = !self.privacy_policy_modal_active;
            },
            UiEvent::PrivacyPolicyClosed => {
                self.privacy_policy_modal_active = false;
            },
            UiEvent::RowClicked(d) => {
                if self.detail_modal_active {
                    self.close_detail();
                } else {
                    self.detail_modal_active = true;
                    self.detail_modal_data = d;
                }
            },
            UiEvent::DetailClosed => {
                self.close_detail();
            },
            UiEvent::SearchChanged(text) => {
                self.search_input = text;
            },
        }
    }

    fn close_detail(&mut self)
        ensures
            is_detail_closed(*old(self), *final(self)),
    {
        self.detail_modal_active = false;
        self.detail_modal_data = Data::new();
    }
}

/// `base`, followed by the active marker when `active` holds.
pub open spec fn css_class(base: Seq<char>, active: bool) -> Seq<char> {
    if active {
        base + " is-active"@
    } else {
        base
    }
}

/// The class of a modal's root element.
pub fn modal_class(active: bool) -> (r: &'static str)
    ensures
        r@ == css_class("modal"@, active),
{
    proof {
        reveal_strlit("modal");
        reveal_strlit(" is-active");
        reveal_strlit("modal is-active");
        assert("modal is-active"@ =~= "modal"@ + " is-active"@);
    }
    if active {
        "modal is-active"
    } else {
        "modal"
    }
}

impl AppState {
    /// The class of the navbar burger.
    pub fn burger_class(&self) -> (r: &'static str)
        ensures
            r@ == css_class("navbar-burger"@, self.top_navbar_burger_active),
    {
        proof {
            reveal_strlit("navbar-burger");
            reveal_strlit(" is-active");
            reveal_strlit("navbar-burger is-active");
            assert("navbar-burger is-active"@ =~= "navbar-burger"@ + " is-active"@);
        }
        if self.top_navbar_burger_active {
            "navbar-burger is-active"
        } else {
            "navbar-burger"
        }
    }

    /// The class of the navbar menu, shown while the burger is active.
    pub fn menu_class(&self) -> (r: &'static str)
        ensures
            r@ == css_class("navbar-menu"@, self.top_navbar_burger_active),
    {
        proof {
            reveal_strlit("navbar-menu");
            reveal_strlit(" is-active");
            reveal_strlit("navbar-menu is-active");
            assert("navbar-menu is-active"@ =~= "navbar-menu"@ + " is-active"@);
        }
        if self.top_navbar_burger_active {
            "navbar-menu is-active"
        } else {
            "navbar-menu"
        }
    }
}

/// The two-state elements of the page.
pub enum Toggle {
    Burger,
    About,
    TermsOfUse,
    PrivacyPolicy,
    Detail,
}

/// The flag of toggle `k` in state `s`.
pub open spec fn flag(s: AppState, k: Toggle) -> bool {
    match k {
        Toggle::Burger => s.top_navbar_burger_active,
        Toggle::About => s.about_modal_active,
        Toggle::TermsOfUse => s.terms_of_use_modal_active,
        Toggle::PrivacyPolicy => s.privacy_policy_modal_active,
        Toggle::Detail => s.detail_modal_active,
    }
}

/// The click that flips toggle `k`; for the detail modal, a click on the row of `d`.
pub open spec fn toggle_event(k: Toggle, d: Data) -> UiEvent {
    match k {
        Toggle::Burger => UiEvent::BurgerClicked,
        Toggle::About => UiEvent::AboutClicked,
        Toggle::TermsOfUse => UiEvent::TermsOfUseClicked,
        Toggle::PrivacyPolicy => UiEvent::PrivacyPolicyClicked,
        Toggle::Detail => UiEvent::RowClicked(d),
    }
}

/// Each toggle flips its own flag and no other; a second click flips it back.
/// For the burger and the three static modals the second click restores the
/// whole state; the detail modal's record is reset on the way.
pub proof fn lemma_toggle_involutive(k: Toggle, d: Data, s: AppState, t: AppState, u: AppState)
    requires
        is_next_state(s, toggle_event(k, d), t),
        is_next_state(t, toggle_event(k, d), u),
    ensures
        flag(t, k) == !flag(s, k),
        flag(u, k) == flag(s, k),
        forall|j: Toggle| j != k ==> flag(t, j) == flag(s, j) && flag(u, j) == flag(s, j),
        k != Toggle::Detail ==> u == s,
{
}

/// Opening the detail modal from a row selects exactly that row's record;
/// closing it leaves the modal inactive with the all-empty record.
pub proof fn lemma_detail_selection(s: AppState, d: Data, t: AppState, u: AppState)
    requires
        !s.detail_modal_active,
        is_next_state(s, UiEvent::RowClicked(d), t),
        is_next_state(t, UiEvent::DetailClosed, u),
    ensures
        t.detail_modal_active,
        t.detail_modal_data == d,
        !u.detail_modal_active,
        is_empty_record(u.detail_modal_data),
{
}

} // verus!
