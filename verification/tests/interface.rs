use updatenight_cli::app::{ApiMessage, App, Command, Key, KeyPress, SearchCall, Tab, DEBOUNCE_NANOS};
use updatenight_cli::catalog::{Entry, NewsItem};

fn press(key: Key) -> KeyPress {
    KeyPress { key, ctrl: false, press: true }
}

fn ctrl(key: Key) -> KeyPress {
    KeyPress { key, ctrl: true, press: true }
}

fn entry(name: &str) -> Entry {
    Entry {
        kind: "tool".into(),
        slug: name.to_lowercase(),
        name: name.into(),
        tagline: format!("{} tagline", name),
        pricing: Some("Free".into()),
        categories: vec!["llm".into()],
        homepage_url: format!("https://{}.example", name.to_lowercase()),
        install_snippet: None,
        description: Some("desc".into()),
        repo_url: None,
        docs_url: None,
    }
}

fn news(title: &str) -> NewsItem {
    NewsItem {
        title: title.into(),
        summary: "s".into(),
        source_name: "src".into(),
        source_url: format!("https://news.example/{}", title),
        topics: vec!["agents".into()],
        posted_at: "2024-05-01T00:00:00Z".into(),
    }
}

fn is_nothing(c: &Command) -> bool {
    matches!(c, Command::Nothing)
}

#[test]
fn starts_on_search_tab_empty() {
    let app = App::new(None);
    assert_eq!(app.tab(), Tab::Search);
    assert!(app.search_input().is_empty());
    assert!(!app.news_loading());
    assert_eq!(app.kind_idx(), 0);
    assert_eq!(app.cat_idx(), 0);
    assert!(!app.has_detail());
}

#[test]
fn begin_news_load_marks_loading() {
    let mut app = App::new(None);
    app.begin_news_load();
    assert!(app.news_loading());
}

#[test]
fn tab_cycles_forward_and_back() {
    let mut app = App::new(None);
    assert!(is_nothing(&app.handle_key(press(Key::Tab), 0)));
    assert_eq!(app.tab(), Tab::News);
    let c = app.handle_key(press(Key::Tab), 0);
    assert_eq!(app.tab(), Tab::Browse);
    match c {
        Command::Browse { kind, category } => {
            assert_eq!(kind, "tool");
            assert_eq!(category, "agent-framework");
        },
        other => panic!("unexpected {:?}", other),
    }
    assert!(app.browse_loading());
    assert!(is_nothing(&app.handle_key(press(Key::BackTab), 0)));
    assert_eq!(app.tab(), Tab::News);
    app.handle_key(press(Key::BackTab), 0);
    assert_eq!(app.tab(), Tab::Search);
    app.handle_key(press(Key::BackTab), 0);
    assert_eq!(app.tab(), Tab::Browse);
}

#[test]
fn number_keys_jump_and_browse_loads_once() {
    let mut app = App::new(None);
    assert!(matches!(app.handle_key(press(Key::Char('3')), 0), Command::Browse { .. }));
    assert_eq!(app.tab(), Tab::Browse);
    app.handle_key(press(Key::Char('1')), 0);
    assert_eq!(app.tab(), Tab::Search);
    // still loading: no second request
    assert!(is_nothing(&app.handle_key(press(Key::Char('3')), 0)));
    app.handle_key(press(Key::Char('2')), 0);
    assert_eq!(app.tab(), Tab::News);
}

#[test]
fn quit_keys() {
    let mut app = App::new(None);
    assert!(matches!(app.handle_key(press(Key::Char('q')), 0), Command::Quit));
    assert!(matches!(app.handle_key(ctrl(Key::Char('c')), 0), Command::Quit));
    let released = KeyPress { key: Key::Char('q'), ctrl: false, press: false };
    assert!(is_nothing(&app.handle_key(released, 0)));
}

#[test]
fn q_does_not_quit_with_popup_but_ctrl_c_does() {
    let mut app = App::new(None);
    app.apply_message(ApiMessage::SearchDone(vec![entry("Alpha")]));
    app.handle_key(press(Key::Enter), 0);
    assert!(app.has_detail());
    assert!(is_nothing(&app.handle_key(press(Key::Char('q')), 0)));
    assert!(app.has_detail());
    assert!(matches!(app.handle_key(ctrl(Key::Char('c')), 0), Command::Quit));
}

#[test]
fn detail_popup_opens_link_and_closes_with_esc() {
    let mut app = App::new(None);
    app.apply_message(ApiMessage::SearchDone(vec![entry("Alpha"), entry("Beta")]));
    assert_eq!(app.search_selected(), Some(0));
    app.handle_key(press(Key::Down), 0);
    app.handle_key(press(Key::Enter), 0);
    assert_eq!(app.detail().as_ref().map(|e| e.name.as_str()), Some("Beta"));
    // other keys are ignored while the popup is open
    app.handle_key(press(Key::Up), 0);
    assert_eq!(app.search_selected(), Some(1));
    match app.handle_key(press(Key::Char('o')), 0) {
        Command::OpenUrl(u) => assert_eq!(u, "https://beta.example"),
        other => panic!("unexpected {:?}", other),
    }
    app.handle_key(press(Key::Esc), 0);
    assert!(!app.has_detail());
    // without a popup, o is typed into the search
    app.handle_key(press(Key::Char('o')), 5);
    assert_eq!(app.search_input(), "o");
}

#[test]
fn news_detail_opens_source() {
    let mut app = App::new(None);
    app.apply_message(ApiMessage::NewsDone(vec![news("a"), news("b")]));
    app.handle_key(press(Key::Char('2')), 0);
    app.handle_key(press(Key::Char('j')), 0);
    app.handle_key(press(Key::Enter), 0);
    assert!(app.detail().is_none());
    assert_eq!(app.detail_news().as_ref().map(|n| n.title.as_str()), Some("b"));
    assert_eq!(app.link().as_deref(), Some("https://news.example/b"));
}

#[test]
fn selection_stays_within_the_list() {
    let mut app = App::new(None);
    app.handle_key(press(Key::Down), 0);
    assert_eq!(app.search_selected(), None);
    app.apply_message(ApiMessage::SearchDone(vec![entry("A"), entry("B"), entry("C")]));
    for _ in 0..5 {
        app.move_down();
    }
    assert_eq!(app.search_selected(), Some(2));
    app.move_up();
    assert_eq!(app.search_selected(), Some(1));
    for _ in 0..5 {
        app.move_up();
    }
    assert_eq!(app.search_selected(), Some(0));
}

#[test]
fn up_undoes_down() {
    let mut app = App::new(None);
    app.apply_message(ApiMessage::SearchDone(vec![entry("A"), entry("B"), entry("C")]));
    app.move_down();
    assert_eq!(app.search_selected(), Some(1));
    app.move_down();
    app.move_up();
    assert_eq!(app.search_selected(), Some(1));
}

#[test]
fn empty_reply_selects_nothing() {
    let mut app = App::new(None);
    app.apply_message(ApiMessage::BrowseDone(vec![]));
    assert_eq!(app.browse_selected(), None);
    assert!(!app.browse_loading());
}

#[test]
fn typing_then_waiting_runs_text_search() {
    let mut app = App::new(None);
    app.handle_key(press(Key::Char('r')), 100);
    app.handle_key(press(Key::Char('a')), 200);
    app.handle_key(press(Key::Char('g')), 300);
    assert_eq!(app.search_input(), "rag");
    assert!(app.tick(300 + DEBOUNCE_NANOS - 1).is_none());
    match app.tick(300 + DEBOUNCE_NANOS) {
        Some(SearchCall::Text { query }) => assert_eq!(query, "rag"),
        other => panic!("unexpected {:?}", other),
    }
    assert!(app.search_loading());
    assert!(app.tick(u64::MAX).is_none());
}

#[test]
fn signed_in_user_gets_semantic_search() {
    let mut app = App::new(Some("tok".to_string()));
    app.handle_key(press(Key::Char('x')), 0);
    match app.tick(DEBOUNCE_NANOS) {
        Some(SearchCall::Semantic { query, token }) => {
            assert_eq!(query, "x");
            assert_eq!(token, "tok");
        },
        other => panic!("unexpected {:?}", other),
    }
}

#[test]
fn backspace_to_empty_clears_results() {
    let mut app = App::new(None);
    app.handle_key(press(Key::Char('a')), 0);
    app.apply_message(ApiMessage::SearchDone(vec![entry("A")]));
    app.handle_key(press(Key::Backspace), 10);
    assert_eq!(app.search_input(), "");
    assert!(app.search_results().is_empty());
    assert_eq!(app.search_selected(), None);
    // the pending search finds the input empty and does nothing
    assert!(app.tick(DEBOUNCE_NANOS).is_none());
    assert_eq!(app.search_debounce(), None);
    // Backspace on an empty input changes nothing
    app.handle_key(press(Key::Backspace), 20);
    assert_eq!(app.search_input(), "");
}

#[test]
fn digits_one_to_three_switch_tabs_instead_of_typing() {
    let mut app = App::new(None);
    app.handle_key(press(Key::Char('4')), 0);
    app.handle_key(press(Key::Char('1')), 0);
    assert_eq!(app.search_input(), "4");
    assert_eq!(app.tab(), Tab::Search);
}

#[test]
fn error_reply_stops_loading_and_shows_status() {
    let mut app = App::new(None);
    app.begin_news_load();
    app.handle_key(press(Key::Char('3')), 0);
    app.apply_message(ApiMessage::Error("boom".to_string()));
    assert!(!app.news_loading() && !app.browse_loading() && !app.search_loading());
    assert_eq!(app.status().as_deref(), Some("Error: boom"));
    // a new browse request clears the status
    app.handle_key(press(Key::Right), 0);
    assert_eq!(app.status(), &None);
}

fn browse_target(c: Command) -> (String, String) {
    match c {
        Command::Browse { kind, category } => (kind, category),
        other => panic!("unexpected {:?}", other),
    }
}

#[test]
fn browse_keys_cycle_kinds_and_categories() {
    let mut app = App::new(None);
    app.handle_key(press(Key::Char('3')), 0);
    // Left before the first kind wraps to the last
    assert_eq!(browse_target(app.handle_key(press(Key::Left), 0)), ("mcp".to_string(), "agent-framework".to_string()));
    assert_eq!(app.kind_idx(), 2);
    // Right after the last kind wraps to the first
    assert_eq!(browse_target(app.handle_key(press(Key::Char('l')), 0)), ("tool".to_string(), "agent-framework".to_string()));
    assert_eq!(app.kind_idx(), 0);
    assert_eq!(browse_target(app.handle_key(press(Key::Right), 0)).0, "skill");
    // [ before the first category wraps to the last
    assert_eq!(browse_target(app.handle_key(press(Key::Char('[')), 0)), ("skill".to_string(), "other".to_string()));
    assert_eq!(app.cat_idx(), 20);
    // ] after the last category wraps to the first
    assert_eq!(browse_target(app.handle_key(press(Key::Char(']')), 0)).1, "agent-framework");
    assert_eq!(app.cat_idx(), 0);
    for _ in 0..21 {
        app.handle_key(press(Key::Char(']')), 0);
    }
    assert_eq!(app.cat_idx(), 0);
    assert_eq!(browse_target(app.handle_key(press(Key::Char('h')), 0)).0, "tool");
    assert!(app.browse_loading());
}

#[test]
fn news_tab_moves_with_j_and_k() {
    let mut app = App::new(None);
    app.apply_message(ApiMessage::NewsDone(vec![news("a"), news("b")]));
    app.handle_key(press(Key::Char('2')), 0);
    app.handle_key(press(Key::Char('j')), 0);
    assert_eq!(app.news_selected(), Some(1));
    app.handle_key(press(Key::Char('k')), 0);
    assert_eq!(app.news_selected(), Some(0));
    assert_eq!(app.active_list_len(), 2);
}

#[test]
fn three_tabs_come_back() {
    let mut app = App::new(None);
    app.handle_key(press(Key::Tab), 0);
    app.handle_key(press(Key::Tab), 0);
    app.handle_key(press(Key::Tab), 0);
    assert_eq!(app.tab(), Tab::Search);
}

#[test]
fn typing_again_restarts_the_wait() {
    let mut app = App::new(None);
    let ms = 1_000_000u64;
    app.handle_key(press(Key::Char('a')), 0);
    assert!(app.tick(350 * ms).is_none());
    app.handle_key(press(Key::Char('b')), 350 * ms);
    assert!(app.tick(450 * ms).is_none());
    assert!(app.tick(749 * ms).is_none());
    match app.tick(750 * ms) {
        Some(SearchCall::Text { query }) => assert_eq!(query, "ab"),
        other => panic!("unexpected {:?}", other),
    }
}

#[test]
fn released_keys_change_nothing() {
    let mut app = App::new(None);
    let k = KeyPress { key: Key::Char('x'), ctrl: false, press: false };
    assert!(is_nothing(&app.handle_key(k, 0)));
    assert_eq!(app.search_input(), "");
    assert_eq!(app.search_debounce(), None);
}

#[test]
fn burst_with_many_checks_runs_one_search() {
    let mut app = App::new(None);
    let ms = 1_000_000u64;
    app.handle_key(press(Key::Char('r')), 0);
    for t in [100, 200, 300] {
        assert!(app.tick(t * ms).is_none());
    }
    app.handle_key(press(Key::Char('u')), 300 * ms);
    for t in [400, 500, 600] {
        assert!(app.tick(t * ms).is_none());
    }
    app.handle_key(press(Key::Char('s')), 650 * ms);
    app.handle_key(press(Key::Backspace), 700 * ms);
    for t in [800, 900, 1000, 1099] {
        assert!(app.tick(t * ms).is_none());
    }
    match app.tick(1100 * ms) {
        Some(SearchCall::Text { query }) => assert_eq!(query, "ru"),
        other => panic!("unexpected {:?}", other),
    }
    for t in [1200, 1300, 5000] {
        assert!(app.tick(t * ms).is_none());
    }
}
