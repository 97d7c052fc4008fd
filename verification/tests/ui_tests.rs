use teapod::nav::{NavFrame, NavStack};
use teapod::ui::{
    AddPodcastPopup, AddPodcastPopupState, EpisodeInfoPopupState, EpisodeListState,
    ErrorInfoPopup, ErrorInfoPopupState, PodcastInfoPopupState, PodcastListState,
};

#[test]
fn podcast_list_selection_moves_and_saturates() {
    let mut s = PodcastListState::new();
    assert_eq!(s.selected(), None);
    s.next();
    assert_eq!(s.selected(), Some(0));
    s.next();
    s.next();
    assert_eq!(s.selected(), Some(2));
    s.prev();
    assert_eq!(s.selected(), Some(1));
    s.prev();
    s.prev();
    assert_eq!(s.selected(), Some(0));
    s.focus(true);
    assert_eq!(s.selected(), Some(0));
}

#[test]
fn podcast_list_normalize_fits_the_cursor_to_the_list() {
    let mut s = PodcastListState::new();
    s.normalize(0);
    assert_eq!(s.selected(), None);
    s.normalize(3);
    assert_eq!(s.selected(), Some(0));
    s.next();
    s.next();
    s.next();
    s.next();
    s.normalize(3);
    assert_eq!(s.selected(), Some(2));
}

#[test]
fn episode_list_first_resets_the_cursor() {
    let mut s = EpisodeListState::new();
    s.next();
    s.next();
    assert_eq!(s.selected(), Some(1));
    s.first();
    assert_eq!(s.selected(), Some(0));
    s.focus(true);
    s.normalize(0);
    assert_eq!(s.selected(), None);
}

#[test]
fn info_popup_scrolling_stays_at_the_top() {
    let mut p = PodcastInfoPopupState::new();
    p.prev();
    assert_eq!(p.scroll(), 0);
    p.next();
    p.next();
    assert_eq!(p.scroll(), 2);
    p.first();
    assert_eq!(p.scroll(), 0);

    let mut e = EpisodeInfoPopupState::new();
    e.next();
    e.prev();
    e.prev();
    assert_eq!(e.scroll(), 0);
}

#[test]
fn popup_states_start_empty() {
    let add = AddPodcastPopupState::new();
    assert_eq!(add.url, "");
    let err = ErrorInfoPopupState::new();
    assert_eq!(err.error_msg, "");
    let _ = AddPodcastPopup::new();
    let _ = ErrorInfoPopup::new();
}

#[test]
fn nav_stack_pushes_pops_and_ignores_pop_at_root() {
    let mut nav = NavStack::new();
    assert_eq!(nav.depth(), 0);
    assert_eq!(nav.top(), None);
    assert_eq!(nav.pop(), None);
    assert_eq!(nav.depth(), 0);
    nav.push(NavFrame::AddPodcast);
    nav.push(NavFrame::ErrorInfo);
    assert_eq!(nav.depth(), 2);
    assert_eq!(nav.top(), Some(NavFrame::ErrorInfo));
    assert_eq!(nav.pop(), Some(NavFrame::ErrorInfo));
    assert_eq!(nav.top(), Some(NavFrame::AddPodcast));
    assert_eq!(nav.pop(), Some(NavFrame::AddPodcast));
    assert_eq!(nav.pop(), None);
}
