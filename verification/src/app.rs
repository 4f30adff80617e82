//! The state machine behind the terminal interface. The caller feeds it key
//! presses, replies of the catalog API and the passing of time; it answers
//! with what to do next (quit, open a page, start a request). Drawing the
//! screen, talking to the network and keeping time are left to the caller.

use vstd::prelude::*;

use crate::catalog::{
    category_at, category_spec, kind_at, kind_spec, Entry, EntryView, NewsItem, NewsItemView,
    CATEGORY_COUNT, KIND_COUNT,
};
use crate::text::{concat2, owned, pop_char, push_char};

verus! {

/// How long the search input must stay unchanged before the search runs, in
/// nanoseconds (400 ms).
pub const DEBOUNCE_NANOS: u64 = 400_000_000;

/// How many days of news the news tab shows.
pub const NEWS_WINDOW_DAYS: u32 = 7;

/// The three tabs of the interface.
#[derive(Clone, Copy, Debug, PartialEq, Eq, Structural)]
pub enum Tab {
    Search,
    News,
    Browse,
}

/// The tab that Tab switches to.
pub open spec fn next_tab(t: Tab) -> Tab {
    match t {
        Tab::Search => Tab::News,
        Tab::News => Tab::Browse,
        Tab::Browse => Tab::Search,
    }
}

/// The tab that Shift+Tab switches to.
pub open spec fn prev_tab(t: Tab) -> Tab {
    match t {
        Tab::Search => Tab::Browse,
        Tab::News => Tab::Search,
        Tab::Browse => Tab::News,
    }
}

/// A key, as far as the interface tells keys apart.
#[derive(Clone, Copy, Debug, PartialEq, Eq, Structural)]
pub enum Key {
    Char(char),
    Esc,
    Enter,
    Backspace,
    Tab,
    BackTab,
    Left,
    Right,
    Up,
    Down,
    Other,
}

/// A key event: the key, whether Control was held, and whether the key went
/// down (only such events are acted upon).
#[derive(Clone, Copy, Debug, PartialEq, Eq, Structural)]
pub struct KeyPress {
    pub key: Key,
    pub ctrl: bool,
    pub press: bool,
}

/// What the caller is to do after a key press.
#[derive(Debug)]
pub enum Command {
    /// Nothing beyond drawing the new state.
    Nothing,
    /// Leave the program.
    Quit,
    /// Open this address in the browser.
    OpenUrl(String),
    /// List the entries of this kind in this category (the browse tab is now loading).
    Browse { kind: String, category: String },
}

/// The mathematical value of a [`Command`].
pub enum CommandView {
    Nothing,
    Quit,
    OpenUrl(Seq<char>),
    Browse { kind: Seq<char>, category: Seq<char> },
}

impl View for Command {
    type V = CommandView;

    open spec fn view(&self) -> CommandView {
        match self {
            Command::Nothing => CommandView::Nothing,
            Command::Quit => CommandView::Quit,
            Command::OpenUrl(u) => CommandView::OpenUrl(u@),
            Command::Browse { kind, category } => CommandView::Browse {
                kind: kind@,
                category: category@,
            },
        }
    }
}

/// A search to run: semantic when the user is signed in, text search otherwise.
#[derive(Debug)]
pub enum SearchCall {
    Semantic { query: String, token: String },
    Text { query: String },
}

/// The mathematical value of a [`SearchCall`].
pub enum SearchCallView {
    Semantic { query: Seq<char>, token: Seq<char> },
    Text { query: Seq<char> },
}

impl View for SearchCall {
    type V = SearchCallView;

    open spec fn view(&self) -> SearchCallView {
        match self {
            SearchCall::Semantic { query, token } => SearchCallView::Semantic {
                query: query@,
                token: token@,
            },
            SearchCall::Text { query } => SearchCallView::Text { query: query@ },
        }
    }
}

impl DeepView for SearchCall {
    type V = SearchCallView;

    open spec fn deep_view(&self) -> SearchCallView {
        self@
    }
}

/// The search for `query` that a user with `token` gets.
pub open spec fn search_call_for(query: Seq<char>, token: Option<Seq<char>>) -> SearchCallView {
    match token {
        Some(t) => SearchCallView::Semantic { query, token: t },
        None => SearchCallView::Text { query },
    }
}

/// A reply of the catalog API, or the failure of a request.
#[derive(Debug)]
pub enum ApiMessage {
    SearchDone(Vec<Entry>),
    NewsDone(Vec<NewsItem>),
    BrowseDone(Vec<Entry>),
    Error(String),
}

/// The mathematical value of an [`ApiMessage`].
pub enum ApiMessageView {
    SearchDone(Seq<EntryView>),
    NewsDone(Seq<NewsItemView>),
    BrowseDone(Seq<EntryView>),
    Error(Seq<char>),
}

impl View for ApiMessage {
    type V = ApiMessageView;

    open spec fn view(&self) -> ApiMessageView {
        match self {
            ApiMessage::SearchDone(v) => ApiMessageView::SearchDone(v.deep_view()),
            ApiMessage::NewsDone(v) => ApiMessageView::NewsDone(v.deep_view()),
            ApiMessage::BrowseDone(v) => ApiMessageView::BrowseDone(v.deep_view()),
            ApiMessage::Error(e) => ApiMessageView::Error(e@),
        }
    }
}

/// The state of the interface. The selections are positions in the lists of
/// the three tabs; `search_debounce` is when the search input last changed
/// (in nanoseconds on the caller's clock), while a search is still due. Its
/// view is always well formed ([`AppView::wf`]): the fields are read through
/// the methods of the same names and changed only by the steps below.
#[derive(Debug)]
pub struct App {
    tab: Tab,
    token: Option<String>,
    search_input: String,
    search_results: Vec<Entry>,
    search_selected: Option<usize>,
    search_loading: bool,
    news_items: Vec<NewsItem>,
    news_selected: Option<usize>,
    news_loading: bool,
    kind_idx: usize,
    cat_idx: usize,
    browse_results: Vec<Entry>,
    browse_selected: Option<usize>,
    browse_loading: bool,
    detail: Option<Entry>,
    detail_news: Option<NewsItem>,
    status: Option<String>,
    search_debounce: Option<u64>,
}

/// The mathematical value of an [`App`].
#[verifier::ext_equal]
pub struct AppView {
    pub tab: Tab,
    pub token: Option<Seq<char>>,
    pub search_input: Seq<char>,
    pub search_results: Seq<EntryView>,
    pub search_selected: Option<usize>,
    pub search_loading: bool,
    pub news_items: Seq<NewsItemView>,
    pub news_selected: Option<usize>,
    pub news_loading: bool,
    pub kind_idx: usize,
    pub cat_idx: usize,
    pub browse_results: Seq<EntryView>,
    pub browse_selected: Option<usize>,
    pub browse_loading: bool,
    pub detail: Option<EntryView>,
    pub detail_news: Option<NewsItemView>,
    pub status: Option<Seq<char>>,
    pub search_debounce: Option<u64>,
}

impl View for App {
    type V = AppView;

    closed spec fn view(&self) -> AppView {
        AppView {
            tab: self.tab,
            token: self.token.deep_view(),
            search_input: self.search_input@,
            search_results: self.search_results.deep_view(),
            search_selected: self.search_selected,
            search_loading: self.search_loading,
            news_items: self.news_items.deep_view(),
            news_selected: self.news_selected,
            news_loading: self.news_loading,
            kind_idx: self.kind_idx,
            cat_idx: self.cat_idx,
            browse_results: self.browse_results.deep_view(),
            browse_selected: self.browse_selected,
            browse_loading: self.browse_loading,
            detail: self.detail.deep_view(),
            detail_news: self.detail_news.deep_view(),
            status: self.status.deep_view(),
            search_debounce: self.search_debounce,
        }
    }
}

/// A selection that points into a list of `len` items, or no selection.
pub open spec fn sel_ok(sel: Option<usize>, len: nat) -> bool {
    match sel {
        Some(i) => i < len,
        None => true,
    }
}

/// The selection after a list is replaced by `len` fresh items: the first
/// item when there is one.
pub open spec fn first_of(len: nat) -> Option<usize> {
    if len > 0 {
        Some(0usize)
    } else {
        None
    }
}

/// The item at `i` of `s`, when there is one.
pub open spec fn item_at<T>(s: Seq<T>, i: usize) -> Option<T> {
    if i < s.len() {
        Some(s[i as int])
    } else {
        None
    }
}

/// The position after `i` in a cycle of `n`: the next one, or the first after the last.
pub open spec fn next_index(i: usize, n: usize) -> usize {
    if i + 1 < n {
        (i + 1) as usize
    } else {
        0usize
    }
}

/// The position before `i` in a cycle of `n`: the previous one, or the last before the first.
pub open spec fn prev_index(i: usize, n: usize) -> usize {
    if i > 0 {
        (i - 1) as usize
    } else {
        (n - 1) as usize
    }
}

/// The state on start-up, for a user with `token`.
pub open spec fn initial_view(token: Option<Seq<char>>) -> AppView {
    AppView {
        tab: Tab::Search,
        token,
        search_input: seq![],
        search_results: seq![],
        search_selected: None,
        search_loading: false,
        news_items: seq![],
        news_selected: None,
        news_loading: false,
        kind_idx: 0,
        cat_idx: 0,
        browse_results: seq![],
        browse_selected: None,
        browse_loading: false,
        detail: None,
        detail_news: None,
        status: None,
        search_debounce: None,
    }
}

impl AppView {
    /// The state is well formed: the kind and category point into their
    /// tables, and each selection points into its list.
    pub open spec fn wf(self) -> bool {
        &&& self.kind_idx < KIND_COUNT
        &&& self.cat_idx < CATEGORY_COUNT
        &&& sel_ok(self.search_selected, self.search_results.len())
        &&& sel_ok(self.news_selected, self.news_items.len())
        &&& sel_ok(self.browse_selected, self.browse_results.len())
    }

    /// A detail popup is open.
    pub open spec fn has_detail(self) -> bool {
        self.detail is Some || self.detail_news is Some
    }

    /// The length of the list of the current tab.
    pub open spec fn active_len(self) -> nat {
        match self.tab {
            Tab::Search => self.search_results.len(),
            Tab::News => self.news_items.len(),
            Tab::Browse => self.browse_results.len(),
        }
    }

    /// The selection in the list of the current tab.
    pub open spec fn active_selected(self) -> Option<usize> {
        match self.tab {
            Tab::Search => self.search_selected,
            Tab::News => self.news_selected,
            Tab::Browse => self.browse_selected,
        }
    }

    /// The state with the selection of the current tab's list set to `s`.
    pub open spec fn with_active_selected(self, s: Option<usize>) -> AppView {
        match self.tab {
            Tab::Search => AppView { search_selected: s, ..self },
            Tab::News => AppView { news_selected: s, ..self },
            Tab::Browse => AppView { browse_selected: s, ..self },
        }
    }

    /// One step down the current list: to the first item when nothing is
    /// selected, and never past the last item; nothing happens on an empty list.
    pub open spec fn moved_down(self) -> AppView {
        let len = self.active_len();
        if len == 0 {
            self
        } else {
            let next: usize = match self.active_selected() {
                None => 0usize,
                Some(i) => if i + 1 < len {
                    (i + 1) as usize
                } else {
                    (len - 1) as usize
                },
            };
            self.with_active_selected(Some(next))
        }
    }

    /// One step up the current list: to the first item when nothing is
    /// selected, and never before the first item; nothing happens on an empty list.
    pub open spec fn moved_up(self) -> AppView {
        if self.active_len() == 0 {
            self
        } else {
            let next: usize = match self.active_selected() {
                None => 0usize,
                Some(i) => if i == 0 {
                    0usize
                } else {
                    (i - 1) as usize
                },
            };
            self.with_active_selected(Some(next))
        }
    }

    /// The detail popup opened on the selected item of the current list (the
    /// other kind of detail is closed); nothing happens without a selection.
    pub open spec fn opened_detail(self) -> AppView {
        match self.tab {
            Tab::Search => match self.search_selected {
                Some(i) => AppView {
                    detail: item_at(self.search_results, i),
                    detail_news: None,
                    ..self
                },
                None => self,
            },
            Tab::News => match self.news_selected {
                Some(i) => AppView {
                    detail_news: item_at(self.news_items, i),
                    detail: None,
                    ..self
                },
                None => self,
            },
            Tab::Browse => match self.browse_selected {
                Some(i) => AppView {
                    detail: item_at(self.browse_results, i),
                    detail_news: None,
                    ..self
                },
                None => self,
            },
        }
    }

    /// The state with no detail popup.
    pub open spec fn closed_detail(self) -> AppView {
        AppView { detail: None, detail_news: None, ..self }
    }

    /// The address of the item in the detail popup: an entry's homepage, or a
    /// news item's source.
    pub open spec fn link(self) -> Option<Seq<char>> {
        match self.detail {
            Some(e) => Some(e.homepage_url),
            None => match self.detail_news {
                Some(n) => Some(n.source_url),
                None => None,
            },
        }
    }

    /// The browse tab starts loading the entries of the current kind and category.
    pub open spec fn browse_started(self) -> (AppView, CommandView) {
        (
            AppView { browse_loading: true, status: None, ..self },
            CommandView::Browse {
                kind: kind_spec(self.kind_idx as int).0,
                category: category_spec(self.cat_idx as int).0,
            },
        )
    }

    /// The switch to tab `t`; switching forward or by number to an empty browse
    /// tab that is not loading starts loading it.
    pub open spec fn switched_to(self, t: Tab) -> (AppView, CommandView) {
        let v = AppView { tab: t, ..self };
        if t == Tab::Browse && v.browse_results.len() == 0 && !v.browse_loading {
            v.browse_started()
        } else {
            (v, CommandView::Nothing)
        }
    }

    /// A key on the search tab: arrows move, Enter opens the detail,
    /// Backspace and characters edit the query (an emptied query clears the
    /// results; any other change makes a search due).
    pub open spec fn search_key_step(self, key: Key, now: u64) -> AppView {
        match key {
            Key::Down => self.moved_down(),
            Key::Up => self.moved_up(),
            Key::Enter => self.opened_detail(),
            Key::Backspace => {
                let input = if self.search_input.len() > 0 {
                    self.search_input.drop_last()
                } else {
                    self.search_input
                };
                if input.len() == 0 {
                    AppView {
                        search_input: input,
                        search_results: seq![],
                        search_selected: None,
                        ..self
                    }
                } else {
                    AppView { search_input: input, search_debounce: Some(now), ..self }
                }
            },
            Key::Char(c) => AppView {
                search_input: self.search_input.push(c),
                search_debounce: Some(now),
                ..self
            },
            _ => self,
        }
    }

    /// A key on the news tab: arrows or j/k move, Enter opens the detail.
    pub open spec fn news_key_step(self, key: Key) -> AppView {
        if key == Key::Down || key == Key::Char('j') {
            self.moved_down()
        } else if key == Key::Up || key == Key::Char('k') {
            self.moved_up()
        } else if key == Key::Enter {
            self.opened_detail()
        } else {
            self
        }
    }

    /// A key on the browse tab: Left/Right (h/l) cycle through the kinds and
    /// `[`/`]` through the categories, wrapping around at either end, and each
    /// change reloads the listing; arrows or j/k move, Enter opens the detail.
    pub open spec fn browse_key_step(self, key: Key) -> (AppView, CommandView) {
        if key == Key::Left || key == Key::Char('h') {
            AppView { kind_idx: prev_index(self.kind_idx, KIND_COUNT), ..self }.browse_started()
        } else if key == Key::Right || key == Key::Char('l') {
            AppView { kind_idx: next_index(self.kind_idx, KIND_COUNT), ..self }.browse_started()
        } else if key == Key::Char('[') {
            AppView { cat_idx: prev_index(self.cat_idx, CATEGORY_COUNT), ..self }.browse_started()
        } else if key == Key::Char(']') {
            AppView { cat_idx: next_index(self.cat_idx, CATEGORY_COUNT), ..self }.browse_started()
        } else if key == Key::Down || key == Key::Char('j') {
            (self.moved_down(), CommandView::Nothing)
        } else if key == Key::Up || key == Key::Char('k') {
            (self.moved_up(), CommandView::Nothing)
        } else if key == Key::Enter {
            (self.opened_detail(), CommandView::Nothing)
        } else {
            (self, CommandView::Nothing)
        }
    }

    /// Whether `k` leaves the program: `q` when no popup is open, and Ctrl+C always.
    pub open spec fn is_quit_key(self, k: KeyPress) -> bool {
        (k.key == Key::Char('q') && !self.has_detail()) || (k.key == Key::Char('c') && k.ctrl)
    }

    /// One key event: the next state and what the caller is to do.
    pub open spec fn key_step(self, k: KeyPress, now: u64) -> (AppView, CommandView) {
        if !k.press {
            (self, CommandView::Nothing)
        } else if self.is_quit_key(k) {
            (self, CommandView::Quit)
        } else if k.key == Key::Esc {
            (if self.has_detail() { self.closed_detail() } else { self }, CommandView::Nothing)
        } else if k.key == Key::Char('o') && self.has_detail() {
            match self.link() {
                Some(u) => (self, CommandView::OpenUrl(u)),
                None => (self, CommandView::Nothing),
            }
        } else if self.has_detail() {
            (self, CommandView::Nothing)
        } else if k.key == Key::Tab {
            self.switched_to(next_tab(self.tab))
        } else if k.key == Key::BackTab {
            (AppView { tab: prev_tab(self.tab), ..self }, CommandView::Nothing)
        } else if k.key == Key::Char('1') {
            self.switched_to(Tab::Search)
        } else if k.key == Key::Char('2') {
            self.switched_to(Tab::News)
        } else if k.key == Key::Char('3') {
            self.switched_to(Tab::Browse)
        } else {
            match self.tab {
                Tab::Search => (self.search_key_step(k.key, now), CommandView::Nothing),
                Tab::News => (self.news_key_step(k.key), CommandView::Nothing),
                Tab::Browse => self.browse_key_step(k.key),
            }
        }
    }

    /// A reply of the API: the list it answers replaces the old one, stops
    /// loading and selects its first item; a failure stops all loading and
    /// shows `Error: ` and the failure in the status line.
    pub open spec fn message_step(self, msg: ApiMessageView) -> AppView {
        match msg {
            ApiMessageView::SearchDone(items) => AppView {
                search_loading: false,
                search_results: items,
                search_selected: first_of(items.len()),
                ..self
            },
            ApiMessageView::NewsDone(items) => AppView {
                news_loading: false,
                news_items: items,
                news_selected: first_of(items.len()),
                ..self
            },
            ApiMessageView::BrowseDone(items) => AppView {
                browse_loading: false,
                browse_results: items,
                browse_selected: first_of(items.len()),
                ..self
            },
            ApiMessageView::Error(e) => AppView {
                search_loading: false,
                news_loading: false,
                browse_loading: false,
                status: Some("Error: "@ + e),
                ..self
            },
        }
    }

    /// The passing of time, `now` on the caller's clock: once the search input
    /// has stayed unchanged for [`DEBOUNCE_NANOS`], the due search is no longer
    /// due, and runs if the input is not empty.
    pub open spec fn tick_step(self, now: u64) -> (AppView, Option<SearchCallView>) {
        match self.search_debounce {
            Some(at) => if now >= at + DEBOUNCE_NANOS {
                let v = AppView { search_debounce: None, ..self };
                if self.search_input.len() == 0 {
                    (v, None)
                } else {
                    (
                        AppView { search_loading: true, status: None, ..v },
                        Some(search_call_for(self.search_input, self.token)),
                    )
                }
            } else {
                (self, None)
            },
            None => (self, None),
        }
    }
}

fn entry_at(v: &Vec<Entry>, i: usize) -> (r: Option<Entry>)
    ensures
        r.deep_view() == item_at(v.deep_view(), i),
{
    if i < v.len() {
        Some(v[i].clone())
    } else {
        None
    }
}

fn news_at(v: &Vec<NewsItem>, i: usize) -> (r: Option<NewsItem>)
    ensures
        r.deep_view() == item_at(v.deep_view(), i),
{
    if i < v.len() {
        Some(v[i].clone())
    } else {
        None
    }
}

impl App {
    #[verifier::type_invariant]
    closed spec fn inv(self) -> bool {
        self@.wf()
    }

    /// The tab shown.
    pub fn tab(&self) -> (r: Tab)
        ensures
            r == self@.tab,
    {
        self.tab
    }

    /// The stored sign-in token, if any.
    pub fn token(&self) -> (r: &Option<String>)
        ensures
            r.deep_view() == self@.token,
    {
        &self.token
    }

    /// The text typed into the search box.
    pub fn search_input(&self) -> (r: &String)
        ensures
            r@ == self@.search_input,
    {
        &self.search_input
    }

    /// The results of the last search.
    pub fn search_results(&self) -> (r: &Vec<Entry>)
        ensures
            r.deep_view() == self@.search_results,
    {
        &self.search_results
    }

    /// The selection in the search results.
    pub fn search_selected(&self) -> (r: Option<usize>)
        ensures
            r == self@.search_selected,
    {
        self.search_selected
    }

    /// Whether a search is under way.
    pub fn search_loading(&self) -> (r: bool)
        ensures
            r == self@.search_loading,
    {
        self.search_loading
    }

    /// The news items shown.
    pub fn news_items(&self) -> (r: &Vec<NewsItem>)
        ensures
            r.deep_view() == self@.news_items,
    {
        &self.news_items
    }

    /// The selection in the news.
    pub fn news_selected(&self) -> (r: Option<usize>)
        ensures
            r == self@.news_selected,
    {
        self.news_selected
    }

    /// Whether the news are loading.
    pub fn news_loading(&self) -> (r: bool)
        ensures
            r == self@.news_loading,
    {
        self.news_loading
    }

    /// The position of the kind browsed.
    pub fn kind_idx(&self) -> (r: usize)
        ensures
            r == self@.kind_idx,
            r < KIND_COUNT,
    {
        proof {
            use_type_invariant(self);
        }
        self.kind_idx
    }

    /// The position of the category browsed.
    pub fn cat_idx(&self) -> (r: usize)
        ensures
            r == self@.cat_idx,
            r < CATEGORY_COUNT,
    {
        proof {
            use_type_invariant(self);
        }
        self.cat_idx
    }

    /// The entries of the kind and category browsed.
    pub fn browse_results(&self) -> (r: &Vec<Entry>)
        ensures
            r.deep_view() == self@.browse_results,
    {
        &self.browse_results
    }

    /// The selection in the browsed entries.
    pub fn browse_selected(&self) -> (r: Option<usize>)
        ensures
            r == self@.browse_selected,
    {
        self.browse_selected
    }

    /// Whether the browsed entries are loading.
    pub fn browse_loading(&self) -> (r: bool)
        ensures
            r == self@.browse_loading,
    {
        self.browse_loading
    }

    /// The entry in the detail popup, if one is open on an entry.
    pub fn detail(&self) -> (r: &Option<Entry>)
        ensures
            r.deep_view() == self@.detail,
    {
        &self.detail
    }

    /// The news item in the detail popup, if one is open on a news item.
    pub fn detail_news(&self) -> (r: &Option<NewsItem>)
        ensures
            r.deep_view() == self@.detail_news,
    {
        &self.detail_news
    }

    /// The message of the status line, if any.
    pub fn status(&self) -> (r: &Option<String>)
        ensures
            r.deep_view() == self@.status,
    {
        &self.status
    }

    /// When the search input last changed, while a search is still due.
    pub fn search_debounce(&self) -> (r: Option<u64>)
        ensures
            r == self@.search_debounce,
    {
        self.search_debounce
    }

    /// The state on start-up, for a user with `token` (see [`initial_view`]).
    pub fn new(token: Option<String>) -> (r: App)
        ensures
            r@ == initial_view(token.deep_view()),
            r@.wf(),
    {
        let r = App {
            tab: Tab::Search,
            token,
            search_input: String::new(),
            search_results: Vec::new(),
            search_selected: None,
            search_loading: false,
            news_items: Vec::new(),
            news_selected: None,
            news_loading: false,
            kind_idx: 0,
            cat_idx: 0,
            browse_results: Vec::new(),
            browse_selected: None,
            browse_loading: false,
            detail: None,
            detail_news: None,
            status: None,
            search_debounce: None,
        };
        assert(r@.search_results =~= Seq::<EntryView>::empty());
        assert(r@.news_items =~= Seq::<NewsItemView>::empty());
        assert(r@.browse_results =~= Seq::<EntryView>::empty());
        r
    }

    /// The news tab starts loading the news of the last
    /// [`NEWS_WINDOW_DAYS`] days, as it does on start-up.
    pub fn begin_news_load(&mut self)
        ensures
            final(self)@ == (AppView { news_loading: true, ..old(self)@ }),
            final(self)@.wf(),
    {
        proof {
            use_type_invariant(&*self);
        }
        self.news_loading = true;
    }

    /// Whether a detail popup is open.
    pub fn has_detail(&self) -> (r: bool)
        ensures
            r == self@.has_detail(),
    {
        self.detail.is_some() || self.detail_news.is_some()
    }

    /// The length of the list of the current tab.
    pub fn active_list_len(&self) -> (r: usize)
        ensures
            r == self@.active_len(),
    {
        match self.tab {
            Tab::Search => self.search_results.len(),
            Tab::News => self.news_items.len(),
            Tab::Browse => self.browse_results.len(),
        }
    }

    /// The selection in the list of the current tab.
    pub fn active_selected(&self) -> (r: Option<usize>)
        ensures
            r == self@.active_selected(),
    {
        match self.tab {
            Tab::Search => self.search_selected,
            Tab::News => self.news_selected,
            Tab::Browse => self.browse_selected,
        }
    }

    fn set_active_selected(&mut self, s: Option<usize>)
        requires
            sel_ok(s, old(self)@.active_len()),
        ensures
            final(self)@ == old(self)@.with_active_selected(s),
    {
        proof {
            use_type_invariant(&*self);
        }
        match self.tab {
            Tab::Search => self.search_selected = s,
            Tab::News => self.news_selected = s,
            Tab::Browse => self.browse_selected = s,
        }
    }

    /// One step down the current list (see [`AppView::moved_down`]).
    pub fn move_down(&mut self)
        ensures
            final(self)@ == old(self)@.moved_down(),
            final(self)@.wf(),
    {
        proof {
            use_type_invariant(&*self);
        }
        let len = self.active_list_len();
        if len == 0 {
            return ;
        }
        let next = match self.active_selected() {
            None => 0,
            Some(i) => if i + 1 < len {
                i + 1
            } else {
                len - 1
            },
        };
        self.set_active_selected(Some(next));
    }

    /// One step up the current list (see [`AppView::moved_up`]).
    pub fn move_up(&mut self)
        ensures
            final(self)@ == old(self)@.moved_up(),
            final(self)@.wf(),
    {
        proof {
            use_type_invariant(&*self);
        }
        let len = self.active_list_len();
        if len == 0 {
            return ;
        }
        let next = match self.active_selected() {
            None => 0,
            Some(i) => if i == 0 {
                0
            } else {
                i - 1
            },
        };
        self.set_active_selected(Some(next));
    }

    /// Opens the detail popup on the selected item (see [`AppView::opened_detail`]).
    pub fn open_detail(&mut self)
        ensures
            final(self)@ == old(self)@.opened_detail(),
            final(self)@.wf(),
    {
        proof {
            use_type_invariant(&*self);
        }
        match self.tab {
            Tab::Search => {
                if let Some(i) = self.search_selected {
                    self.detail = entry_at(&self.search_results, i);
                    self.detail_news = None;
                }
            },
            Tab::News => {
                if let Some(i) = self.news_selected {
                    self.detail_news = news_at(&self.news_items, i);
                    self.detail = None;
                }
            },
            Tab::Browse => {
                if let Some(i) = self.browse_selected {
                    self.detail = entry_at(&self.browse_results, i);
                    self.detail_news = None;
                }
            },
        }
    }

    /// Closes the detail popup.
    pub fn close_detail(&mut self)
        ensures
            final(self)@ == old(self)@.closed_detail(),
            final(self)@.wf(),
    {
        proof {
            use_type_invariant(&*self);
        }
        self.detail = None;
        self.detail_news = None;
    }

    /// The address to open for the item in the detail popup (see [`AppView::link`]).
    pub fn link(&self) -> (r: Option<String>)
        ensures
            r.deep_view() == self@.link(),
    {
        match &self.detail {
            Some(entry) => Some(entry.homepage_url.clone()),
            None => match &self.detail_news {
                Some(news) => Some(news.source_url.clone()),
                None => None,
            },
        }
    }

    /// Starts loading the browse tab (see [`AppView::browse_started`]).
    pub fn start_browse(&mut self) -> (cmd: Command)
        ensures
            final(self)@ == old(self)@.browse_started().0,
            cmd@ == old(self)@.browse_started().1,
            final(self)@.wf(),
    {
        proof {
            use_type_invariant(&*self);
        }
        let (kind, _kind_label) = kind_at(self.kind_idx);
        let (category, _category_label) = category_at(self.cat_idx);
        self.browse_loading = true;
        self.status = None;
        Command::Browse { kind: owned(kind), category: owned(category) }
    }

    fn switch_to(&mut self, t: Tab) -> (cmd: Command)
        ensures
            final(self)@ == old(self)@.switched_to(t).0,
            cmd@ == old(self)@.switched_to(t).1,
            final(self)@.wf(),
    {
        proof {
            use_type_invariant(&*self);
        }
        self.tab = t;
        if t == Tab::Browse && self.browse_results.len() == 0 && !self.browse_loading {
            self.start_browse()
        } else {
            Command::Nothing
        }
    }

    fn search_key(&mut self, key: Key, now: u64)
        requires
            old(self).tab == Tab::Search,
        ensures
            final(self)@ == old(self)@.search_key_step(key, now),
            final(self)@.wf(),
    {
        proof {
            use_type_invariant(&*self);
        }
        match key {
            Key::Down => self.move_down(),
            Key::Up => self.move_up(),
            Key::Enter => self.open_detail(),
            Key::Backspace => {
                let mut input = String::new();
                std::mem::swap(&mut input, &mut self.search_input);
                let _ = pop_char(&mut input);
                self.search_input = input;
                if self.search_input.as_str().is_empty() {
                    self.search_selected = None;
                    self.search_results = Vec::new();
                    assert(self@.search_results =~= Seq::<EntryView>::empty());
                } else {
                    self.search_debounce = Some(now);
                }
            },
            Key::Char(c) => {
                let mut input = String::new();
                std::mem::swap(&mut input, &mut self.search_input);
                push_char(&mut input, c);
                self.search_input = input;
                self.search_debounce = Some(now);
            },
            _ => {},
        }
    }

    fn news_key(&mut self, key: Key)
        requires
            old(self).tab == Tab::News,
        ensures
            final(self)@ == old(self)@.news_key_step(key),
            final(self)@.wf(),
    {
        proof {
            use_type_invariant(&*self);
        }
        if key == Key::Down || key == Key::Char('j') {
            self.move_down();
        } else if key == Key::Up || key == Key::Char('k') {
            self.move_up();
        } else if key == Key::Enter {
            self.open_detail();
        }
    }

    fn browse_key(&mut self, key: Key) -> (cmd: Command)
        requires
            old(self).tab == Tab::Browse,
        ensures
            final(self)@ == old(self)@.browse_key_step(key).0,
            cmd@ == old(self)@.browse_key_step(key).1,
            final(self)@.wf(),
    {
        proof {
            use_type_invariant(&*self);
        }
        if key == Key::Left || key == Key::Char('h') {
            self.kind_idx = if self.kind_idx > 0 {
                self.kind_idx - 1
            } else {
                KIND_COUNT - 1
            };
            self.start_browse()
        } else if key == Key::Right || key == Key::Char('l') {
            self.kind_idx = if self.kind_idx + 1 < KIND_COUNT {
                self.kind_idx + 1
            } else {
                0
            };
            self.start_browse()
        } else if key == Key::Char('[') {
            self.cat_idx = if self.cat_idx > 0 {
                self.cat_idx - 1
            } else {
                CATEGORY_COUNT - 1
            };
            self.start_browse()
        } else if key == Key::Char(']') {
            self.cat_idx = if self.cat_idx + 1 < CATEGORY_COUNT {
                self.cat_idx + 1
            } else {
                0
            };
            self.start_browse()
        } else if key == Key::Down || key == Key::Char('j') {
            self.move_down();
            Command::Nothing
        } else if key == Key::Up || key == Key::Char('k') {
            self.move_up();
            Command::Nothing
        } else if key == Key::Enter {
            self.open_detail();
            Command::Nothing
        } else {
            Command::Nothing
        }
    }

    /// Handles one key event at time `now` (see [`AppView::key_step`]).
    pub fn handle_key(&mut self, k: KeyPress, now: u64) -> (cmd: Command)
        ensures
            final(self)@ == old(self)@.key_step(k, now).0,
            cmd@ == old(self)@.key_step(k, now).1,
            final(self)@.wf(),
    {
        proof {
            use_type_invariant(&*self);
        }
        if !k.press {
            return Command::Nothing;
        }
        let detail_open = self.has_detail();
        if (k.key == Key::Char('q') && !detail_open) || (k.key == Key::Char('c') && k.ctrl) {
            return Command::Quit;
        }
        if k.key == Key::Esc {
            if detail_open {
                self.close_detail();
            }
            return Command::Nothing;
        }
        if k.key == Key::Char('o') && detail_open {
            return match self.link() {
                Some(u) => Command::OpenUrl(u),
                None => Command::Nothing,
            };
        }
        if detail_open {
            return Command::Nothing;
        }
        if k.key == Key::Tab {
            let t = match self.tab {
                Tab::Search => Tab::News,
                Tab::News => Tab::Browse,
                Tab::Browse => Tab::Search,
            };
            return self.switch_to(t);
        }
        if k.key == Key::BackTab {
            self.tab = match self.tab {
                Tab::Search => Tab::Browse,
                Tab::News => Tab::Search,
                Tab::Browse => Tab::News,
            };
            return Command::Nothing;
        }
        if k.key == Key::Char('1') {
            return self.switch_to(Tab::Search);
        }
        if k.key == Key::Char('2') {
            return self.switch_to(Tab::News);
        }
        if k.key == Key::Char('3') {
            return self.switch_to(Tab::Browse);
        }
        match self.tab {
            Tab::Search => {
                self.search_key(k.key, now);
                Command::Nothing
            },
            Tab::News => {
                self.news_key(k.key);
                Command::Nothing
            },
            Tab::Browse => self.browse_key(k.key),
        }
    }

    /// Takes in a reply of the API (see [`AppView::message_step`]).
    pub fn apply_message(&mut self, msg: ApiMessage)
        ensures
            final(self)@ == old(self)@.message_step(msg@),
            final(self)@.wf(),
    {
        proof {
            use_type_invariant(&*self);
        }
        match msg {
            ApiMessage::SearchDone(items) => {
                self.search_loading = false;
                let n = items.len();
                self.search_selected = None;
                self.search_results = items;
                self.search_selected = if n > 0 {
                    Some(0)
                } else {
                    None
                };
            },
            ApiMessage::NewsDone(items) => {
                self.news_loading = false;
                let n = items.len();
                self.news_selected = None;
                self.news_items = items;
                self.news_selected = if n > 0 {
                    Some(0)
                } else {
                    None
                };
            },
            ApiMessage::BrowseDone(items) => {
                self.browse_loading = false;
                let n = items.len();
                self.browse_selected = None;
                self.browse_results = items;
                self.browse_selected = if n > 0 {
                    Some(0)
                } else {
                    None
                };
            },
            ApiMessage::Error(e) => {
                self.search_loading = false;
                self.news_loading = false;
                self.browse_loading = false;
                self.status = Some(concat2("Error: ", e.as_str()));
            },
        }
    }

    /// Lets time pass up to `now` (see [`AppView::tick_step`]); returns the
    /// search to run, if one is due.
    pub fn tick(&mut self, now: u64) -> (call: Option<SearchCall>)
        ensures
            final(self)@ == old(self)@.tick_step(now).0,
            call.deep_view() == old(self)@.tick_step(now).1,
            final(self)@.wf(),
    {
        proof {
            use_type_invariant(&*self);
        }
        match self.search_debounce {
            Some(at) => {
                if now >= at && now - at >= DEBOUNCE_NANOS {
                    self.search_debounce = None;
                    if self.search_input.as_str().is_empty() {
                        None
                    } else {
                        self.search_loading = true;
                        self.status = None;
                        let query = self.search_input.clone();
                        match &self.token {
                            Some(t) => Some(SearchCall::Semantic { query, token: t.clone() }),
                            None => Some(SearchCall::Text { query }),
                        }
                    }
                } else {
                    None
                }
            },
            None => None,
        }
    }
}

/// A key press that went down, with or without Control.
pub open spec fn pressed(key: Key, ctrl: bool) -> KeyPress {
    KeyPress { key, ctrl, press: true }
}

/// Every step of the interface (a key event, a reply of the API, the passing
/// of time) keeps the state well formed: kind and category stay within their
/// tables and no selection points past the end of its list.
pub proof fn lemma_steps_keep_wf(v: AppView, k: KeyPress, now: u64, msg: ApiMessageView)
    requires
        v.wf(),
    ensures
        v.key_step(k, now).0.wf(),
        v.message_step(msg).wf(),
        v.tick_step(now).0.wf(),
{
}

/// Shift+Tab undoes Tab: with no popup open, Tab and then Shift+Tab come
/// back to the tab one started from.
pub proof fn lemma_back_tab_undoes_tab(v: AppView, c1: bool, c2: bool, t1: u64, t2: u64)
    requires
        !v.has_detail(),
    ensures
        v.key_step(pressed(Key::Tab, c1), t1).0.key_step(pressed(Key::BackTab, c2), t2).0.tab == v.tab,
{
}

/// Tab cycles through the three tabs: with no popup open, three presses of
/// Tab come back to the tab one started from.
pub proof fn lemma_tab_cycles(v: AppView, c1: bool, c2: bool, c3: bool, t1: u64, t2: u64, t3: u64)
    requires
        !v.has_detail(),
    ensures
        v.key_step(pressed(Key::Tab, c1), t1).0.key_step(pressed(Key::Tab, c2), t2).0.key_step(
            pressed(Key::Tab, c3),
            t3,
        ).0.tab == v.tab,
{
}

/// The number keys jump to their tab: with no popup open, 1, 2 and 3 show
/// Search, News and Browse.
pub proof fn lemma_number_keys_jump(v: AppView, c: bool, t: u64)
    requires
        !v.has_detail(),
    ensures
        v.key_step(pressed(Key::Char('1'), c), t).0.tab == Tab::Search,
        v.key_step(pressed(Key::Char('2'), c), t).0.tab == Tab::News,
        v.key_step(pressed(Key::Char('3'), c), t).0.tab == Tab::Browse,
{
}

/// Quitting: a key event asks to quit exactly when it is a press of `q` with
/// no popup open, or of Ctrl+C; and asking to quit changes nothing else.
pub proof fn lemma_quit_keys(v: AppView, k: KeyPress, now: u64)
    ensures
        v.key_step(k, now).1 is Quit <==> (k.press && ((k.key == Key::Char('q') && !v.has_detail()) || (
        k.key == Key::Char('c') && k.ctrl))),
        v.key_step(k, now).1 is Quit ==> v.key_step(k, now).0 == v,
{
}

/// Esc closes the detail popup.
pub proof fn lemma_esc_closes_detail(v: AppView, c: bool, now: u64)
    ensures
        !v.key_step(pressed(Key::Esc, c), now).0.has_detail(),
{
}

/// The detail popup is modal: while it is open, a key other than Esc and `o`
/// changes nothing; `o` asks to open the address of the item shown.
pub proof fn lemma_detail_popup_is_modal(v: AppView, k: KeyPress, now: u64)
    requires
        v.has_detail(),
        k.key != Key::Esc,
    ensures
        v.key_step(k, now).0 == v,
        (k.press && k.key == Key::Char('o') && !v.is_quit_key(k)) ==> v.key_step(k, now).1 == CommandView::OpenUrl(
            v.link().unwrap(),
        ),
{
}

/// A step up undoes a step down that moved the selection, that is, when the
/// selection was not on the last item.
pub proof fn lemma_up_undoes_down(v: AppView, i: usize)
    requires
        v.wf(),
        v.active_selected() == Some(i),
        i + 1 < v.active_len(),
        v.active_len() <= usize::MAX,
    ensures
        v.moved_down().moved_up() == v,
{
    let d = v.moved_down();
    assert(d.tab == v.tab);
    assert(d.active_selected() == Some((i + 1) as usize));
    assert(d.active_len() == v.active_len());
    match v.tab {
        Tab::Search => assert(d.moved_up() =~= v),
        Tab::News => assert(d.moved_up() =~= v),
        Tab::Browse => assert(d.moved_up() =~= v),
    }
}

/// The kind of search follows the sign-in: a due search is semantic exactly
/// when the user has a token, and always searches for the current input.
pub proof fn lemma_semantic_iff_signed_in(v: AppView, now: u64)
    ensures
        v.tick_step(now).1 matches Some(c) ==> {
            &&& (c is Semantic <==> v.token is Some)
            &&& (c matches SearchCallView::Semantic { query, token } ==> query == v.search_input && Some(token) == v.token)
            &&& (c matches SearchCallView::Text { query } ==> query == v.search_input)
        },
{
}

/// A search runs only after the input has stayed unchanged for the whole
/// debounce period, and never for an empty input.
pub proof fn lemma_search_waits_for_quiet_input(v: AppView, now: u64)
    ensures
        v.tick_step(now).1 is Some ==> (v.search_debounce matches Some(at) && now >= at + DEBOUNCE_NANOS
            && v.search_input.len() > 0),
{
}

/// Typing restarts the wait: right after a character is typed on the search
/// tab at time `t`, no search runs before `t` plus the debounce period.
pub proof fn lemma_typing_restarts_debounce(v: AppView, ch: char, c: bool, t: u64, now: u64)
    requires
        v.tab == Tab::Search,
        !v.has_detail(),
        !v.is_quit_key(pressed(Key::Char(ch), c)),
        ch != 'o' && ch != '1' && ch != '2' && ch != '3',
        now < t + DEBOUNCE_NANOS,
    ensures
        v.key_step(pressed(Key::Char(ch), c), t).0.search_input == v.search_input.push(ch),
        v.key_step(pressed(Key::Char(ch), c), t).0.tick_step(now).1 is None,
{
}

/// A reply fills its own list only: the list it answers holds exactly the
/// items of the reply, with the first one selected when there is one, and
/// the other lists are untouched.
pub proof fn lemma_reply_fills_its_list(v: AppView, items: Seq<EntryView>)
    ensures
        v.message_step(ApiMessageView::SearchDone(items)).search_results == items,
        v.message_step(ApiMessageView::SearchDone(items)).search_selected == first_of(items.len()),
        v.message_step(ApiMessageView::SearchDone(items)).browse_results == v.browse_results,
        v.message_step(ApiMessageView::SearchDone(items)).news_items == v.news_items,
        v.message_step(ApiMessageView::BrowseDone(items)).browse_results == items,
        v.message_step(ApiMessageView::BrowseDone(items)).browse_selected == first_of(items.len()),
        v.message_step(ApiMessageView::BrowseDone(items)).search_results == v.search_results,
{
}

/// Changing the kind or the category on the browse tab reloads the listing
/// of the new kind and category, and the kinds and categories cycle: Right
/// after the last kind comes back to the first, Left before the first goes to
/// the last, and likewise `]` and `[` for the categories.
pub proof fn lemma_browse_change_reloads(v: AppView, c: bool, now: u64)
    requires
        v.wf(),
        v.tab == Tab::Browse,
        !v.has_detail(),
    ensures
        v.key_step(pressed(Key::Right, c), now).0.kind_idx == (v.kind_idx + 1) % (KIND_COUNT as int),
        v.key_step(pressed(Key::Left, c), now).0.kind_idx == (v.kind_idx + KIND_COUNT - 1) % (KIND_COUNT as int),
        v.key_step(pressed(Key::Char(']'), c), now).0.cat_idx == (v.cat_idx + 1) % (CATEGORY_COUNT as int),
        v.key_step(pressed(Key::Char('['), c), now).0.cat_idx == (v.cat_idx + CATEGORY_COUNT - 1) % (
        CATEGORY_COUNT as int),
        v.key_step(pressed(Key::Right, c), now).0.browse_loading,
        v.key_step(pressed(Key::Right, c), now).1 == (CommandView::Browse {
            kind: kind_spec((v.kind_idx + 1) % (KIND_COUNT as int)).0,
            category: category_spec(v.cat_idx as int).0,
        }),
        v.key_step(pressed(Key::Char(']'), c), now).1 == (CommandView::Browse {
            kind: kind_spec(v.kind_idx as int).0,
            category: category_spec((v.cat_idx + 1) % (CATEGORY_COUNT as int)).0,
        }),
{
}

/// Left undoes Right, and `[` undoes `]`, on the browse tab.
pub proof fn lemma_browse_steps_undo(v: AppView, c: bool, t1: u64, t2: u64)
    requires
        v.wf(),
        v.tab == Tab::Browse,
        !v.has_detail(),
    ensures
        v.key_step(pressed(Key::Right, c), t1).0.key_step(pressed(Key::Left, c), t2).0.kind_idx == v.kind_idx,
        v.key_step(pressed(Key::Char(']'), c), t1).0.key_step(pressed(Key::Char('['), c), t2).0.cat_idx
            == v.cat_idx,
{
}

/// A reply fills the list it answers and selects that list's first item when
/// it has one (no selection otherwise); it stops that list's loading and
/// leaves the tab, the popup and the other lists as they were.
pub proof fn lemma_reply_selects_its_first_item(v: AppView, entries: Seq<EntryView>, news: Seq<NewsItemView>)
    ensures
        ({
            let w = v.message_step(ApiMessageView::SearchDone(entries));
            &&& w.search_results == entries && !w.search_loading
            &&& w.search_selected == (if entries.len() > 0 { Some(0usize) } else { None })
            &&& w.news_items == v.news_items && w.news_selected == v.news_selected
            &&& w.browse_results == v.browse_results && w.browse_selected == v.browse_selected
            &&& w.tab == v.tab && w.detail == v.detail && w.detail_news == v.detail_news
        }),
        ({
            let w = v.message_step(ApiMessageView::NewsDone(news));
            &&& w.news_items == news && !w.news_loading
            &&& w.news_selected == (if news.len() > 0 { Some(0usize) } else { None })
            &&& w.search_results == v.search_results && w.search_selected == v.search_selected
            &&& w.browse_results == v.browse_results && w.browse_selected == v.browse_selected
            &&& w.tab == v.tab && w.detail == v.detail && w.detail_news == v.detail_news
        }),
        ({
            let w = v.message_step(ApiMessageView::BrowseDone(entries));
            &&& w.browse_results == entries && !w.browse_loading
            &&& w.browse_selected == (if entries.len() > 0 { Some(0usize) } else { None })
            &&& w.search_results == v.search_results && w.search_selected == v.search_selected
            &&& w.news_items == v.news_items && w.news_selected == v.news_selected
            &&& w.tab == v.tab && w.detail == v.detail && w.detail_news == v.detail_news
        }),
{
}

/// Every request for a listing names the kind and category that the state
/// it leaves shows, and that state is loading: whatever the key and the
/// state, the entries asked for are those the browse tab is about to show.
pub proof fn lemma_browse_request_names_shown_listing(v: AppView, k: KeyPress, now: u64)
    ensures
        v.key_step(k, now).1 matches CommandView::Browse { kind, category } ==> {
            &&& kind == kind_spec(v.key_step(k, now).0.kind_idx as int).0
            &&& category == category_spec(v.key_step(k, now).0.cat_idx as int).0
            &&& v.key_step(k, now).0.browse_loading
        },
{
}

/// On the browse tab with no popup, Left or `h` goes to the previous kind and
/// Right or `l` to the next, `[` to the previous category and `]` to the next,
/// wrapping around at either end; the other index stays, and the listing of
/// the new kind and category is asked for.
pub proof fn lemma_browse_keys_pick_listing(v: AppView, k: Key, c: bool, now: u64)
    requires
        v.wf(),
        v.tab == Tab::Browse,
        !v.has_detail(),
        k == Key::Left || k == Key::Char('h') || k == Key::Right || k == Key::Char('l') || k == Key::Char('[')
            || k == Key::Char(']'),
    ensures
        ({
            let (w, cmd) = v.key_step(pressed(k, c), now);
            let kind = if k == Key::Left || k == Key::Char('h') {
                (v.kind_idx + 2) % 3
            } else if k == Key::Right || k == Key::Char('l') {
                (v.kind_idx + 1) % 3
            } else {
                v.kind_idx as int
            };
            let cat = if k == Key::Char('[') {
                (v.cat_idx + 20) % 21
            } else if k == Key::Char(']') {
                (v.cat_idx + 1) % 21
            } else {
                v.cat_idx as int
            };
            &&& w.kind_idx == kind
            &&& w.cat_idx == cat
            &&& w.tab == Tab::Browse
            &&& w.browse_loading
            &&& cmd == CommandView::Browse { kind: kind_spec(kind).0, category: category_spec(cat).0 }
        }),
{
}

/// Enter with no popup opens the popup on the selected item of the list the
/// tab shows: the search result or the browsed entry at the selection, or
/// the news item at the selection.
pub proof fn lemma_enter_opens_selected_item(v: AppView, c: bool, now: u64)
    requires
        v.wf(),
        !v.has_detail(),
    ensures
        ({
            let w = v.key_step(pressed(Key::Enter, c), now).0;
            &&& (v.tab == Tab::Search && v.search_selected is Some) ==> (w.detail == Some(
                v.search_results[v.search_selected->0 as int],
            ) && w.detail_news is None)
            &&& (v.tab == Tab::News && v.news_selected is Some) ==> (w.detail_news == Some(
                v.news_items[v.news_selected->0 as int],
            ) && w.detail is None)
            &&& (v.tab == Tab::Browse && v.browse_selected is Some) ==> (w.detail == Some(
                v.browse_results[v.browse_selected->0 as int],
            ) && w.detail_news is None)
            &&& w.tab == v.tab
        }),
{
}

/// On the search tab with no popup, a step down (Key::Down) moves the
/// selection to the next item, or to the first when none is selected, and
/// stays on the last; a step up (Key::Up) moves it to the previous item,
/// or to the first, and stays on the first. On an empty list nothing
/// changes; nothing but the selection ever does.
pub proof fn lemma_search_arrows_move_one_item(v: AppView, k: Key, c: bool, now: u64)
    requires
        v.wf(),
        v.tab == Tab::Search,
        !v.has_detail(),
        k == Key::Down || k == Key::Up,
    ensures
        ({
            let w = v.key_step(pressed(k, c), now).0;
            &&& w.browse_selected == v.browse_selected && w.news_selected == v.news_selected && w.tab == v.tab && w.search_results == v.search_results && w.news_items == v.news_items && w.browse_results == v.browse_results && !w.has_detail()
            &&& v.search_results.len() == 0 ==> w == v
            &&& (k == Key::Down) ==> {
                &&& (v.search_selected matches Some(i) && i + 1 < v.search_results.len()) ==> w.search_selected == Some((v.search_selected->0 + 1) as usize)
                &&& (v.search_selected matches Some(i) && i + 1 == v.search_results.len()) ==> w.search_selected == v.search_selected
                &&& (v.search_selected is None && v.search_results.len() > 0) ==> w.search_selected == Some(0usize)
            }
            &&& (k == Key::Up) ==> {
                &&& (v.search_selected matches Some(i) && i > 0) ==> w.search_selected == Some((v.search_selected->0 - 1) as usize)
                &&& v.search_selected == Some(0usize) ==> w.search_selected == Some(0usize)
                &&& (v.search_selected is None && v.search_results.len() > 0) ==> w.search_selected == Some(0usize)
            }
        }),
{
}

/// On the news tab with no popup, a step down (Key::Down, Key::Char('j')) moves the
/// selection to the next item, or to the first when none is selected, and
/// stays on the last; a step up (Key::Up, Key::Char('k')) moves it to the previous item,
/// or to the first, and stays on the first. On an empty list nothing
/// changes; nothing but the selection ever does.
pub proof fn lemma_news_arrows_move_one_item(v: AppView, k: Key, c: bool, now: u64)
    requires
        v.wf(),
        v.tab == Tab::News,
        !v.has_detail(),
        k == Key::Down || k == Key::Char('j') || k == Key::Up || k == Key::Char('k'),
    ensures
        ({
            let w = v.key_step(pressed(k, c), now).0;
            &&& w.browse_selected == v.browse_selected && w.search_selected == v.search_selected && w.tab == v.tab && w.search_results == v.search_results && w.news_items == v.news_items && w.browse_results == v.browse_results && !w.has_detail()
            &&& v.news_items.len() == 0 ==> w == v
            &&& (k == Key::Down || k == Key::Char('j')) ==> {
                &&& (v.news_selected matches Some(i) && i + 1 < v.news_items.len()) ==> w.news_selected == Some((v.news_selected->0 + 1) as usize)
                &&& (v.news_selected matches Some(i) && i + 1 == v.news_items.len()) ==> w.news_selected == v.news_selected
                &&& (v.news_selected is None && v.news_items.len() > 0) ==> w.news_selected == Some(0usize)
            }
            &&& (k == Key::Up || k == Key::Char('k')) ==> {
                &&& (v.news_selected matches Some(i) && i > 0) ==> w.news_selected == Some((v.news_selected->0 - 1) as usize)
                &&& v.news_selected == Some(0usize) ==> w.news_selected == Some(0usize)
                &&& (v.news_selected is None && v.news_items.len() > 0) ==> w.news_selected == Some(0usize)
            }
        }),
{
}

/// On the browse tab with no popup, a step down (Key::Down, Key::Char('j')) moves the
/// selection to the next item, or to the first when none is selected, and
/// stays on the last; a step up (Key::Up, Key::Char('k')) moves it to the previous item,
/// or to the first, and stays on the first. On an empty list nothing
/// changes; nothing but the selection ever does.
pub proof fn lemma_browse_arrows_move_one_item(v: AppView, k: Key, c: bool, now: u64)
    requires
        v.wf(),
        v.tab == Tab::Browse,
        !v.has_detail(),
        k == Key::Down || k == Key::Char('j') || k == Key::Up || k == Key::Char('k'),
    ensures
        ({
            let w = v.key_step(pressed(k, c), now).0;
            &&& w.news_selected == v.news_selected && w.search_selected == v.search_selected && w.tab == v.tab && w.search_results == v.search_results && w.news_items == v.news_items && w.browse_results == v.browse_results && !w.has_detail()
            &&& v.browse_results.len() == 0 ==> w == v
            &&& (k == Key::Down || k == Key::Char('j')) ==> {
                &&& (v.browse_selected matches Some(i) && i + 1 < v.browse_results.len()) ==> w.browse_selected == Some((v.browse_selected->0 + 1) as usize)
                &&& (v.browse_selected matches Some(i) && i + 1 == v.browse_results.len()) ==> w.browse_selected == v.browse_selected
                &&& (v.browse_selected is None && v.browse_results.len() > 0) ==> w.browse_selected == Some(0usize)
            }
            &&& (k == Key::Up || k == Key::Char('k')) ==> {
                &&& (v.browse_selected matches Some(i) && i > 0) ==> w.browse_selected == Some((v.browse_selected->0 - 1) as usize)
                &&& v.browse_selected == Some(0usize) ==> w.browse_selected == Some(0usize)
                &&& (v.browse_selected is None && v.browse_results.len() > 0) ==> w.browse_selected == Some(0usize)
            }
        }),
{
}

/// A failed request stops every list's loading and shows `Error: ` followed
/// by the failure in the status line; the lists, the selections, the tab
/// and the popup stay as they were.
pub proof fn lemma_error_reply_shows_status(v: AppView, e: Seq<char>)
    ensures
        ({
            let w = v.message_step(ApiMessageView::Error(e));
            &&& w.status == Some("Error: "@ + e)
            &&& !w.search_loading && !w.news_loading && !w.browse_loading
            &&& w.search_results == v.search_results && w.search_selected == v.search_selected
            &&& w.news_items == v.news_items && w.news_selected == v.news_selected
            &&& w.browse_results == v.browse_results && w.browse_selected == v.browse_selected
            &&& w.tab == v.tab && w.detail == v.detail && w.detail_news == v.detail_news
            &&& w.search_input == v.search_input && w.search_debounce == v.search_debounce
        }),
{
}

/// When a search starts, the search box shows it loading, the status line is
/// cleared, no search is due any more, and the input and lists stay; when
/// none is due, checking the clock changes nothing.
pub proof fn lemma_due_search_starts_loading(v: AppView, now: u64)
    ensures
        v.tick_step(now).1 is Some ==> {
            let w = v.tick_step(now).0;
            &&& w.search_loading && w.status is None && w.search_debounce is None
            &&& w.search_input == v.search_input && w.search_results == v.search_results
            &&& w.search_selected == v.search_selected && w.tab == v.tab
        },
        v.search_debounce is None ==> v.tick_step(now) == (v, None::<SearchCallView>),
{
}

/// Backspace on the search tab with no popup removes the last character of
/// the input (if any); an input left empty clears the results and their
/// selection, and any other input makes a search due from now.
pub proof fn lemma_backspace_edits_query(v: AppView, c: bool, now: u64)
    requires
        v.tab == Tab::Search,
        !v.has_detail(),
    ensures
        ({
            let w = v.key_step(pressed(Key::Backspace, c), now).0;
            let input = if v.search_input.len() > 0 { v.search_input.take(v.search_input.len() - 1) } else { v.search_input };
            &&& w.search_input == input
            &&& input.len() == 0 ==> (w.search_results == Seq::<EntryView>::empty() && w.search_selected is None)
            &&& input.len() > 0 ==> (w.search_debounce == Some(now) && w.search_results == v.search_results)
            &&& w.tab == Tab::Search
        }),
{
    let input = if v.search_input.len() > 0 { v.search_input.take(v.search_input.len() - 1) } else { v.search_input };
    if v.search_input.len() > 0 {
        assert(v.search_input.drop_last() =~= input);
    }
}

/// With a popup open, `o` asks to open the homepage of the entry shown, or
/// the source of the news item shown.
pub proof fn lemma_o_opens_shown_item(v: AppView, c: bool, now: u64)
    ensures
        v.detail matches Some(e) ==> v.key_step(pressed(Key::Char('o'), c), now).1 == CommandView::OpenUrl(
            e.homepage_url,
        ),
        (v.detail is None && v.detail_news is Some) ==> v.key_step(pressed(Key::Char('o'), c), now).1
            == CommandView::OpenUrl(v.detail_news->0.source_url),
{
}

/// Going to the browse tab (by `3`, or by Tab from the news tab) with no popup
/// asks for the listing of the current kind and category exactly when the
/// tab has no entries and none are loading, and asks for nothing otherwise.
pub proof fn lemma_switching_to_browse_loads(v: AppView, k: Key, c: bool, now: u64)
    requires
        !v.has_detail(),
        k == Key::Char('3') || (k == Key::Tab && v.tab == Tab::News),
    ensures
        v.key_step(pressed(k, c), now).0.tab == Tab::Browse,
        (v.browse_results.len() == 0 && !v.browse_loading) ==> {
            &&& v.key_step(pressed(k, c), now).1 == (CommandView::Browse {
                kind: kind_spec(v.kind_idx as int).0,
                category: category_spec(v.cat_idx as int).0,
            })
            &&& v.key_step(pressed(k, c), now).0.browse_loading
        },
        !(v.browse_results.len() == 0 && !v.browse_loading) ==> v.key_step(pressed(k, c), now).1
            == CommandView::Nothing,
{
}

/// Whether `k`, pressed on the search tab in state `v`, edits the search
/// input and leaves it non-empty: a typed character (other than `q`, which
/// quits, and the digits that switch tabs), or Backspace on an input of at
/// least two characters.
pub open spec fn is_search_edit(v: AppView, k: Key) -> bool {
    match k {
        Key::Char(c) => c != 'q' && c != '1' && c != '2' && c != '3',
        Key::Backspace => v.search_input.len() >= 2,
        _ => false,
    }
}

/// The clock checked at each time of `nows` in turn, from state `v`: the
/// state at the end, and the searches started, in order.
pub open spec fn tick_run(v: AppView, nows: Seq<u64>) -> (AppView, Seq<SearchCallView>)
    decreases nows.len(),
{
    if nows.len() == 0 {
        (v, seq![])
    } else {
        let (w, call) = v.tick_step(nows[0]);
        let (z, calls) = tick_run(w, nows.drop_first());
        (
            z,
            match call {
                Some(c) => seq![c] + calls,
                None => calls,
            },
        )
    }
}

/// A check of the clock before the debounce period after the last edit has
/// passed changes nothing and starts no search.
pub proof fn lemma_early_check_changes_nothing(v: AppView, at: u64, now: u64)
    requires
        v.search_debounce == Some(at),
        now < at + DEBOUNCE_NANOS,
    ensures
        v.tick_step(now) == (v, None::<SearchCallView>),
{
}

/// Any number of early checks change nothing and start no search.
proof fn lemma_early_checks(v: AppView, at: u64, nows: Seq<u64>)
    requires
        v.search_debounce == Some(at),
        forall|j: int| 0 <= j < nows.len() ==> #[trigger] nows[j] < at + DEBOUNCE_NANOS,
    ensures
        tick_run(v, nows) == (v, Seq::<SearchCallView>::empty()),
    decreases nows.len(),
{
    if nows.len() > 0 {
        let tail = nows.drop_first();
        assert forall|j: int| 0 <= j < tail.len() implies #[trigger] tail[j] < at + DEBOUNCE_NANOS by {
            assert(tail[j] == nows[j + 1]);
        }
        lemma_early_checks(v, at, tail);
    }
}

/// With no search waiting, checks of the clock change nothing.
proof fn lemma_idle_checks(v: AppView, nows: Seq<u64>)
    requires
        v.search_debounce is None,
    ensures
        tick_run(v, nows) == (v, Seq::<SearchCallView>::empty()),
    decreases nows.len(),
{
    if nows.len() > 0 {
        lemma_idle_checks(v, nows.drop_first());
    }
}

/// Once an edit has left a non-empty input waiting, the checks of the clock
/// that follow start exactly one search, for that input, if any of them
/// comes at least the debounce period after the edit, and none otherwise.
pub proof fn lemma_waiting_search_runs_once(v: AppView, at: u64, nows: Seq<u64>)
    requires
        v.search_debounce == Some(at),
        v.search_input.len() > 0,
    ensures
        tick_run(v, nows).1 == (if exists|j: int| 0 <= j < nows.len() && #[trigger] nows[j] >= at + DEBOUNCE_NANOS {
            seq![search_call_for(v.search_input, v.token)]
        } else {
            Seq::<SearchCallView>::empty()
        }),
    decreases nows.len(),
{
    if nows.len() > 0 {
        let tail = nows.drop_first();
        if nows[0] >= at + DEBOUNCE_NANOS {
            let w = v.tick_step(nows[0]).0;
            lemma_idle_checks(w, tail);
            assert(seq![search_call_for(v.search_input, v.token)] + Seq::<SearchCallView>::empty() =~= seq![
                search_call_for(v.search_input, v.token),
            ]);
        } else {
            lemma_waiting_search_runs_once(v, at, tail);
            if exists|j: int| 0 <= j < nows.len() && #[trigger] nows[j] >= at + DEBOUNCE_NANOS {
                let j = choose|j: int| 0 <= j < nows.len() && #[trigger] nows[j] >= at + DEBOUNCE_NANOS;
                assert(j > 0);
                assert(tail[j - 1] == nows[j]);
            }
            if exists|j: int| 0 <= j < tail.len() && #[trigger] tail[j] >= at + DEBOUNCE_NANOS {
                let j = choose|j: int| 0 <= j < tail.len() && #[trigger] tail[j] >= at + DEBOUNCE_NANOS;
                assert(nows[j + 1] == tail[j]);
            }
        }
    }
}

/// A burst of edits on the search tab: the key `keys[i]` pressed at time
/// `times[i]`, then the clock checked at each time of `checks[i]`. The
/// result is the state after the burst and whether any check started a
/// search.
pub open spec fn burst(v: AppView, keys: Seq<Key>, times: Seq<u64>, checks: Seq<Seq<u64>>) -> (AppView, bool)
    decreases keys.len(),
{
    if keys.len() == 0 {
        (v, false)
    } else {
        let n = keys.len() - 1;
        let (w, fired) = burst(v, keys.take(n), times.take(n), checks.take(n));
        let x = w.key_step(pressed(keys[n], false), times[n]).0;
        let (y, calls) = tick_run(x, checks[n]);
        (y, fired || calls.len() > 0)
    }
}

/// The burst is a run of edits that each leave the input non-empty, and every
/// check comes less than the debounce period after the edit before it.
pub open spec fn burst_ok(v: AppView, keys: Seq<Key>, times: Seq<u64>, checks: Seq<Seq<u64>>) -> bool
    decreases keys.len(),
{
    if keys.len() == 0 {
        true
    } else {
        let n = keys.len() - 1;
        &&& burst_ok(v, keys.take(n), times.take(n), checks.take(n))
        &&& is_search_edit(burst(v, keys.take(n), times.take(n), checks.take(n)).0, keys[n])
        &&& forall|j: int| 0 <= j < checks[n].len() ==> #[trigger] checks[n][j] < times[n] + DEBOUNCE_NANOS
    }
}

proof fn lemma_burst_inv(v: AppView, keys: Seq<Key>, times: Seq<u64>, checks: Seq<Seq<u64>>)
    requires
        v.tab == Tab::Search,
        !v.has_detail(),
        times.len() == keys.len(),
        checks.len() == keys.len(),
        burst_ok(v, keys, times, checks),
    ensures
        burst(v, keys, times, checks).0.tab == Tab::Search,
        !burst(v, keys, times, checks).0.has_detail(),
        burst(v, keys, times, checks).0.token == v.token,
        !burst(v, keys, times, checks).1,
        keys.len() > 0 ==> burst(v, keys, times, checks).0.search_debounce == Some(times.last()),
        keys.len() > 0 ==> burst(v, keys, times, checks).0.search_input.len() > 0,
    decreases keys.len(),
{
    if keys.len() > 0 {
        let n = keys.len() - 1;
        lemma_burst_inv(v, keys.take(n), times.take(n), checks.take(n));
        let w = burst(v, keys.take(n), times.take(n), checks.take(n)).0;
        let k = pressed(keys[n], false);
        assert(!w.is_quit_key(k));
        let x = w.key_step(k, times[n]).0;
        assert(x == w.search_key_step(keys[n], times[n]));
        assert(x.search_debounce == Some(times[n]));
        assert(x.search_input.len() > 0);
        lemma_early_checks(x, times[n], checks[n]);
    }
}

/// A burst of edits runs one search, for the final text, once the input has
/// been left alone for the debounce period: the clock may be checked any
/// number of times between edits, and none of these checks runs a search;
/// of the checks after the last edit, those before the debounce period has
/// passed run none, and together they run exactly one search, for the final
/// input (semantic when signed in), when one of them comes after it, and
/// none otherwise.
pub proof fn lemma_burst_runs_one_search(
    v: AppView,
    keys: Seq<Key>,
    times: Seq<u64>,
    checks: Seq<Seq<u64>>,
    after: Seq<u64>,
)
    requires
        v.tab == Tab::Search,
        !v.has_detail(),
        keys.len() > 0,
        times.len() == keys.len(),
        checks.len() == keys.len(),
        burst_ok(v, keys, times, checks),
    ensures
        !burst(v, keys, times, checks).1,
        tick_run(burst(v, keys, times, checks).0, after).1 == (if exists|j: int|
            0 <= j < after.len() && #[trigger] after[j] >= times.last() + DEBOUNCE_NANOS {
            seq![search_call_for(burst(v, keys, times, checks).0.search_input, v.token)]
        } else {
            Seq::<SearchCallView>::empty()
        }),
{
    lemma_burst_inv(v, keys, times, checks);
    lemma_waiting_search_runs_once(burst(v, keys, times, checks).0, times.last(), after);
}

} // verus!
