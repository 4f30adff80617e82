use updatenight_cli::app::Tab;
use updatenight_cli::catalog::{category_at, kind_at, Entry, NewsItem, CATEGORY_COUNT, KIND_COUNT};
use updatenight_cli::view::{
    auth_status, browse_controls, centered_rect, description_lines, entry_detail_lines, first_category,
    news_date, news_detail_lines, news_title, pricing_label, search_title, status_message, tab_index,
    topics_line, Area, StyledText, TextStyle,
};

fn texts(lines: &[Vec<StyledText>]) -> Vec<Vec<(String, TextStyle)>> {
    lines.iter().map(|l| l.iter().map(|p| (p.text.clone(), p.style)).collect()).collect()
}

fn one(text: &str, style: TextStyle) -> Vec<(String, TextStyle)> {
    vec![(text.to_string(), style)]
}

fn entry(pricing: Option<&str>, cats: &[&str]) -> Entry {
    Entry {
        kind: "tool".into(),
        slug: "x".into(),
        name: "X".into(),
        tagline: "does x".into(),
        pricing: pricing.map(|p| p.to_string()),
        categories: cats.iter().map(|c| c.to_string()).collect(),
        homepage_url: "https://x.example".into(),
        install_snippet: None,
        description: None,
        repo_url: None,
        docs_url: None,
    }
}

#[test]
fn tab_indices() {
    assert_eq!(tab_index(Tab::Search), 0);
    assert_eq!(tab_index(Tab::News), 1);
    assert_eq!(tab_index(Tab::Browse), 2);
}

#[test]
fn search_title_says_which_search() {
    assert_eq!(search_title(true, false), " Search (semantic) ");
    assert_eq!(search_title(false, false), " Search (text \u{b7} run `un login` for semantic) ");
    assert_eq!(search_title(true, true), " Search (semantic) \u{27f3} ");
}

#[test]
fn news_title_marks_loading() {
    assert_eq!(news_title(false), " News (last 7 days) ");
    assert_eq!(news_title(true), " News (last 7 days) \u{27f3} ");
}

#[test]
fn browse_controls_name_kind_and_category() {
    assert_eq!(
        browse_controls(0, 0, false),
        " Kind: Tools (\u{2190} \u{2192})   Category: Agent Frameworks ([ ]) "
    );
    assert_eq!(
        browse_controls(2, 20, true),
        " Kind: MCPs (\u{2190} \u{2192})   Category: Other ([ ]) \u{27f3} "
    );
}

#[test]
fn tables_hold_the_documented_kinds_and_categories() {
    assert_eq!(KIND_COUNT, 3);
    assert_eq!(CATEGORY_COUNT, 21);
    assert_eq!(kind_at(1), ("skill", "Skills"));
    assert_eq!(category_at(7), ("mcp-server", "MCP Servers"));
    assert_eq!(category_at(19), ("fine-tuning", "Fine-Tuning"));
}

#[test]
fn pricing_label_defaults_to_dash() {
    assert_eq!(pricing_label(&entry(Some("Free"), &[])), "Free");
    assert_eq!(pricing_label(&entry(None, &[])), "\u{2014}");
}

#[test]
fn first_category_or_nothing() {
    assert_eq!(first_category(&entry(None, &["llm", "rag"])), "llm");
    assert_eq!(first_category(&entry(None, &[])), "");
}

#[test]
fn news_date_takes_the_day() {
    assert_eq!(news_date("2024-05-01T10:00:00Z"), "2024-05-01");
    assert_eq!(news_date("2024"), "");
    assert_eq!(news_date("2024-05-0\u{e9}"), "");
    assert_eq!(news_date("2024-05-\u{e9}1"), "2024-05-\u{e9}");
}

#[test]
fn topics_are_comma_separated() {
    let t: Vec<String> = vec!["agents".into(), "mcp".into()];
    assert_eq!(topics_line(&t), "agents, mcp");
}

#[test]
fn status_line_shows_message_or_help() {
    assert_eq!(status_message(&Some("Error: boom".to_string())), "Error: boom");
    assert_eq!(
        status_message(&None),
        "Tab/1-3 switch \u{b7} \u{2191}\u{2193}/jk navigate \u{b7} Enter open \u{b7} o open URL \u{b7} q quit"
    );
    assert_eq!(auth_status(true), "\u{25cf} authed");
    assert_eq!(auth_status(false), "\u{25cb} not logged in \u{b7} run `un login`");
}

#[test]
fn description_lines_fit_the_popup() {
    assert_eq!(description_lines("abcdefghijkl", 16), vec!["abcdefghij", "kl"]);
    assert_eq!(description_lines("abc", 7), vec!["a", "b", "c"]);
    assert_eq!(description_lines("", 16), Vec::<String>::new());
}

#[test]
fn centered_rect_takes_the_middle() {
    let a = centered_rect(80, 80, Area { x: 0, y: 0, width: 100, height: 50 });
    assert_eq!(a, Area { x: 10, y: 5, width: 80, height: 40 });
    let b = centered_rect(100, 100, Area { x: 3, y: 4, width: 20, height: 10 });
    assert_eq!(b, Area { x: 3, y: 4, width: 20, height: 10 });
}

#[test]
fn centered_popup_lies_within_the_screen() {
    for (px, py) in [(81u16, 81u16), (33, 67), (0, 0), (100, 1)] {
        for (w, h) in [(0u16, 0u16), (7, 3), (100, 50), (65535, 65535)] {
            let r = Area { x: 5, y: 9, width: w, height: h };
            let a = centered_rect(px, py, r);
            assert!(a.x >= r.x && a.y >= r.y);
            assert!(a.x as u32 + a.width as u32 <= (r.x as u32 + r.width as u32).min(65535));
            assert!(a.y as u32 + a.height as u32 <= (r.y as u32 + r.height as u32).min(65535));
        }
    }
}

#[test]
fn entry_detail_without_description_or_snippet() {
    let e = entry(None, &["cli"]);
    assert_eq!(
        texts(&entry_detail_lines(&e, 3)),
        vec![
            one("X", TextStyle::Heading),
            one("does x", TextStyle::Tagline),
            one("", TextStyle::Plain),
            vec![("Pricing: ".to_string(), TextStyle::Label), ("\u{2014}".to_string(), TextStyle::Price)],
            vec![("URL: ".to_string(), TextStyle::Label), ("https://x.example".to_string(), TextStyle::Link)],
        ]
    );
}

#[test]
fn entry_detail_cuts_description_and_shows_snippet() {
    let mut e = entry(Some("free"), &[]);
    e.description = Some("abcdefg".to_string());
    e.install_snippet = Some("cargo install x".to_string());
    assert_eq!(
        texts(&entry_detail_lines(&e, 9)),
        vec![
            one("X", TextStyle::Heading),
            one("does x", TextStyle::Tagline),
            one("", TextStyle::Plain),
            one("abc", TextStyle::Plain),
            one("def", TextStyle::Plain),
            one("g", TextStyle::Plain),
            one("", TextStyle::Plain),
            one("Install:", TextStyle::Label),
            one("cargo install x", TextStyle::Accent),
            one("", TextStyle::Plain),
            vec![("Pricing: ".to_string(), TextStyle::Label), ("free".to_string(), TextStyle::Price)],
            vec![("URL: ".to_string(), TextStyle::Label), ("https://x.example".to_string(), TextStyle::Link)],
        ]
    );
}

#[test]
fn news_detail_lines_in_order() {
    let n = NewsItem {
        title: "Release".into(),
        summary: "A new version.".into(),
        source_name: "Blog".into(),
        source_url: "https://blog.example/r".into(),
        topics: vec!["rust".into(), "cli".into()],
        posted_at: "2024-05-01T10:00:00Z".into(),
    };
    assert_eq!(
        texts(&news_detail_lines(&n)),
        vec![
            one("Release", TextStyle::Heading),
            vec![
                ("2024-05-01".to_string(), TextStyle::Muted),
                ("  ".to_string(), TextStyle::Plain),
                ("Blog".to_string(), TextStyle::Accent),
            ],
            one("", TextStyle::Plain),
            one("A new version.", TextStyle::Plain),
            one("", TextStyle::Plain),
            vec![("Topics: ".to_string(), TextStyle::Label), ("rust, cli".to_string(), TextStyle::Accent)],
            one("", TextStyle::Plain),
            vec![("Source: ".to_string(), TextStyle::Label), ("https://blog.example/r".to_string(), TextStyle::Link)],
        ]
    );
}

#[test]
fn centered_rect_rounds_each_edge_to_the_nearest_cell() {
    let cases = [
        ((81u16, 81u16, Area { x: 5, y: 9, width: 100, height: 50 }), Area { x: 14, y: 14, width: 81, height: 40 }),
        ((33, 67, Area { x: 5, y: 9, width: 7, height: 3 }), Area { x: 7, y: 9, width: 3, height: 2 }),
        ((80, 80, Area { x: 5, y: 9, width: 65535, height: 65535 }), Area { x: 6558, y: 6562, width: 52424, height: 52420 }),
        ((100, 1, Area { x: 0, y: 0, width: 37, height: 99 }), Area { x: 0, y: 49, width: 37, height: 1 }),
        ((0, 0, Area { x: 5, y: 9, width: 100, height: 50 }), Area { x: 55, y: 34, width: 0, height: 0 }),
        ((80, 80, Area { x: 0, y: 0, width: 101, height: 41 }), Area { x: 10, y: 4, width: 81, height: 33 }),
        ((80, 80, Area { x: 0, y: 0, width: 45, height: 45 }), Area { x: 5, y: 5, width: 36, height: 36 }),
    ];
    for ((px, py, r), expected) in cases {
        assert_eq!(centered_rect(px, py, r), expected, "centered_rect({}, {}, {:?})", px, py, r);
    }
}

fn share(size: u32, percent: u32) -> u32 {
    (size * percent + 50) / 100
}

#[test]
fn centered_rect_matches_the_percentages_on_many_sizes() {
    for px in [0u16, 1, 33, 50, 67, 80, 81, 99, 100] {
        for py in [0u16, 2, 25, 79, 80, 100] {
            for w in 0u16..=60 {
                let h = (w * 7 + 3) % 61;
                let r = Area { x: 2, y: 1, width: w, height: h };
                let (mx, my) = (((100 - px) / 2) as u32, ((100 - py) / 2) as u32);
                let (l, rt) = (share(w as u32, mx), share(w as u32, mx + px as u32));
                let (t, b) = (share(h as u32, my), share(h as u32, my + py as u32));
                let expected = Area { x: 2 + l as u16, y: 1 + t as u16, width: (rt - l) as u16, height: (b - t) as u16 };
                assert_eq!(centered_rect(px, py, r), expected, "centered_rect({}, {}, {:?})", px, py, r);
            }
        }
    }
}
