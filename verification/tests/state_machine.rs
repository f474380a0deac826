use newsroom::app::App;
use newsroom::newsroomcore::datasources::DataSources;
use newsroom::newsroomcore::newsarticle::NewsArticle;
use newsroom::newsroomcore::newsroomstate::{NewsroomState, NewsroomTransitions};

fn source(name: &str, url: &str) -> DataSources {
    DataSources { name: name.to_string(), url: url.to_string() }
}

fn article(title: &str, link: &str, src: &DataSources) -> NewsArticle {
    NewsArticle {
        authors: vec!["author".to_string()],
        title: title.to_string(),
        summary: "summary".to_string(),
        link: link.to_string(),
        source: src.clone(),
    }
}

/// Drives a fresh app into `DisplayMedia` with the given articles by the
/// same path the program takes: a fetch announcement, then the results.
fn app_displaying(articles: Vec<NewsArticle>) -> App {
    let mut app = App::new();
    let s = source("s1", "http://feeds.example/one");
    app.tx.send(NewsroomTransitions::FetchMedia(vec![s])).unwrap();
    app.poll_and_run_action();
    app.tx.send(NewsroomTransitions::ReturnMedia(articles)).unwrap();
    app.poll_and_run_action();
    app
}

#[test]
fn test_load() {
    let mut app = App::new();
    assert!(matches!(app.newsroom_state, NewsroomState::Homescreen));
    assert!(app.running);

    let s1 = source("s1", "http://feeds.example/one");
    app.tx.send(NewsroomTransitions::FetchMedia(vec![s1.clone()])).unwrap();
    let fetch = app.poll_and_run_action();
    assert!(matches!(&app.newsroom_state, NewsroomState::FetchMedia(sources) if sources.len() == 1));
    // Starting the fetch hands back the sources for the aggregator.
    assert_eq!(fetch, Some(vec![s1.clone()]));

    let a1 = article("first", "http://news.example/1", &s1);
    let a2 = article("second", "http://news.example/2", &s1);
    app.tx.send(NewsroomTransitions::ReturnMedia(vec![a1, a2])).unwrap();
    let fetch = app.poll_and_run_action();
    assert!(fetch.is_none());
    assert!(matches!(&app.newsroom_state, NewsroomState::DisplayMedia(arts) if arts.len() == 2));
    assert_eq!(app.row, None);
}

#[test]
fn test_up_down() {
    let s = source("s1", "http://feeds.example/one");
    let a1 = article("first", "http://news.example/1", &s);
    let a2 = article("second", "http://news.example/2", &s);
    let mut app = app_displaying(vec![a1, a2]);

    assert_eq!(app.row, None);

    app.next();
    assert_eq!(app.row, Some(0));

    app.next();
    assert_eq!(app.row, Some(1));

    app.previous();
    assert_eq!(app.row, Some(0));
}

#[test]
fn test_tab() {
    let s = source("s1", "http://feeds.example/one");
    let a1 = article("first", "http://news.example/1", &s);
    let mut app = app_displaying(vec![a1]);

    app.change_tab();
    app.poll_and_run_action();
    assert!(matches!(app.newsroom_state, NewsroomState::ManageSettings(_)));
    assert_eq!(app.tab, 1);

    app.change_tab();
    app.poll_and_run_action();
    assert!(matches!(app.newsroom_state, NewsroomState::DisplayMedia(_)));
    assert_eq!(app.tab, 0);
}

#[test]
fn cursor_wraps_down_after_length_presses() {
    let s = source("s1", "http://feeds.example/one");
    let arts = vec![
        article("a", "http://news.example/a", &s),
        article("b", "http://news.example/b", &s),
        article("c", "http://news.example/c", &s),
    ];
    let mut app = app_displaying(arts);

    // The first press selects the first article.
    app.next();
    assert_eq!(app.row, Some(0));
    // As many further presses as there are articles come back to it.
    app.next();
    assert_eq!(app.row, Some(1));
    app.next();
    assert_eq!(app.row, Some(2));
    app.next();
    assert_eq!(app.row, Some(0));
}

#[test]
fn cursor_wraps_up_after_length_presses() {
    let s = source("s1", "http://feeds.example/one");
    let arts = vec![
        article("a", "http://news.example/a", &s),
        article("b", "http://news.example/b", &s),
        article("c", "http://news.example/c", &s),
    ];
    let mut app = app_displaying(arts);

    app.previous();
    assert_eq!(app.row, Some(0));
    app.previous();
    assert_eq!(app.row, Some(2));
    app.previous();
    assert_eq!(app.row, Some(1));
    app.previous();
    assert_eq!(app.row, Some(0));
}

#[test]
fn cursor_ignores_motion_on_empty_display() {
    let mut app = app_displaying(Vec::new());
    app.next();
    assert_eq!(app.row, None);
    app.previous();
    assert_eq!(app.row, None);
}

#[test]
fn settings_round_trip_restores_articles() {
    let s = source("s1", "http://feeds.example/one");
    let a1 = article("first", "http://news.example/1", &s);
    let a2 = article("second", "http://news.example/2", &s);
    let expected = vec![a1.clone(), a2.clone()];
    let mut app = app_displaying(vec![a1, a2]);
    app.next();

    app.collect(NewsroomTransitions::ToSettings);
    assert!(matches!(app.newsroom_state, NewsroomState::ManageSettings(Some(_))));
    assert_eq!(app.tab, 1);

    app.collect(NewsroomTransitions::ExitSettings);
    assert_eq!(app.tab, 0);
    match &app.newsroom_state {
        NewsroomState::DisplayMedia(arts) => assert_eq!(*arts, expected),
        other => panic!("expected DisplayMedia, got {:?}", other),
    }
    // The cursor survives the round trip.
    assert_eq!(app.row, Some(0));
}

#[test]
fn duplicate_fetch_is_ignored() {
    let mut app = App::new();
    let s1 = source("s1", "http://feeds.example/one");
    let s2 = source("s2", "http://feeds.example/two");

    let fetch = app.collect(NewsroomTransitions::FetchMedia(vec![s1.clone()]));
    assert_eq!(fetch, Some(vec![s1.clone()]));

    // A second request while the first is in flight changes nothing and
    // starts nothing.
    let fetch = app.collect(NewsroomTransitions::FetchMedia(vec![s2]));
    assert!(fetch.is_none());
    match &app.newsroom_state {
        NewsroomState::FetchMedia(sources) => assert_eq!(*sources, vec![s1]),
        other => panic!("expected FetchMedia, got {:?}", other),
    }
}

#[test]
fn quit_from_settings_keeps_state() {
    let s = source("s1", "http://feeds.example/one");
    let a1 = article("first", "http://news.example/1", &s);
    let expected = vec![a1.clone()];
    let mut app = app_displaying(vec![a1]);
    app.collect(NewsroomTransitions::ToSettings);

    app.tx.send(NewsroomTransitions::Quit).unwrap();
    app.poll_and_run_action();

    assert!(!app.running);
    match &app.newsroom_state {
        NewsroomState::ManageSettings(Some(arts)) => assert_eq!(*arts, expected),
        other => panic!("expected ManageSettings(Some), got {:?}", other),
    }
}

#[test]
fn unlisted_pairs_are_no_ops() {
    let mut app = App::new();
    let s = source("s1", "http://feeds.example/one");
    let a1 = article("first", "http://news.example/1", &s);

    // Results arriving on the home screen are ignored.
    app.collect(NewsroomTransitions::ReturnMedia(vec![a1]));
    assert!(matches!(app.newsroom_state, NewsroomState::Homescreen));

    // So is cursor motion there.
    app.collect(NewsroomTransitions::Up);
    app.collect(NewsroomTransitions::Down);
    app.collect(NewsroomTransitions::Loaded);
    assert!(matches!(app.newsroom_state, NewsroomState::Homescreen));
    assert_eq!(app.row, None);
    assert!(app.running);
}

#[test]
fn poll_with_empty_channel_changes_nothing() {
    let mut app = App::new();
    let fetch = app.poll_and_run_action();
    assert!(fetch.is_none());
    assert!(matches!(app.newsroom_state, NewsroomState::Homescreen));
    assert!(app.running);
}

#[test]
fn selected_link_follows_cursor() {
    let s = source("s1", "http://feeds.example/one");
    let a1 = article("first", "http://news.example/1", &s);
    let a2 = article("second", "http://news.example/2", &s);
    let mut app = app_displaying(vec![a1, a2]);

    assert_eq!(app.selected_link(), None);
    app.next();
    app.next();
    assert_eq!(app.selected_link(), Some(&"http://news.example/2".to_string()));
}

#[test]
fn deliver_media_keeps_every_article() {
    let s = source("s1", "http://feeds.example/one");
    let a1 = article("first", "http://news.example/1", &s);
    let a2 = article("second", "http://news.example/2", &s);
    let a3 = article("third", "http://news.example/3", &s);
    let mut app = App::new();
    app.collect(NewsroomTransitions::FetchMedia(vec![s.clone()]));

    assert!(App::deliver_media(&app.tx, vec![a1, a2, a3]));
    app.poll_and_run_action();

    match &app.newsroom_state {
        NewsroomState::DisplayMedia(arts) => {
            let mut titles: Vec<&str> = arts.iter().map(|a| a.title.as_str()).collect();
            titles.sort();
            assert_eq!(titles, vec!["first", "second", "third"]);
        },
        other => panic!("expected DisplayMedia, got {:?}", other),
    }
}

#[test]
fn empty_fetch_ends_in_an_empty_display() {
    let mut app = App::new();
    app.collect(NewsroomTransitions::FetchMedia(Vec::new()));
    assert!(App::deliver_media(&app.tx, Vec::new()));
    app.poll_and_run_action();
    assert!(matches!(&app.newsroom_state, NewsroomState::DisplayMedia(arts) if arts.is_empty()));
    assert_eq!(app.row, None);
}

#[test]
fn queued_transitions_apply_in_order_one_per_poll() {
    let mut app = App::new();
    let s = source("s1", "http://feeds.example/one");
    let a1 = article("first", "http://news.example/1", &s);

    app.tx.send(NewsroomTransitions::FetchMedia(vec![s])).unwrap();
    app.tx.send(NewsroomTransitions::ReturnMedia(vec![a1])).unwrap();
    app.tx.send(NewsroomTransitions::Quit).unwrap();

    app.poll_and_run_action();
    assert!(matches!(app.newsroom_state, NewsroomState::FetchMedia(_)));
    assert!(app.running);

    app.poll_and_run_action();
    assert!(matches!(app.newsroom_state, NewsroomState::DisplayMedia(_)));
    assert!(app.running);

    app.poll_and_run_action();
    assert!(matches!(app.newsroom_state, NewsroomState::DisplayMedia(_)));
    assert!(!app.running);
}

#[test]
fn announce_fetch_reaches_the_owner() {
    let mut app = App::new();
    let s = source("s1", "http://feeds.example/one");
    assert!(App::announce_fetch(&app.tx, &vec![s.clone()]));
    let fetch = app.poll_and_run_action();
    assert_eq!(fetch, Some(vec![s]));
    assert!(matches!(app.newsroom_state, NewsroomState::FetchMedia(_)));
}
