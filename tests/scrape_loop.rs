use ruskeros::results::{extract, SearchResult};
use ruskeros::scrape::{
    default_user_agents, draw_delay, Action, ConfigError, Draw, Event, Phase, ScrapeConfig,
    Scraper,
};

fn result(title: &str, link: &str) -> SearchResult {
    SearchResult { title: title.to_string(), link: link.to_string() }
}

fn pool() -> Vec<String> {
    vec!["agent-a".to_string(), "agent-b".to_string()]
}

fn fixed_draw(delay: u64) -> Draw {
    Draw { user_agent: "agent-a".to_string(), delay }
}

fn config(requests: usize, max_retries: usize, pause_after_last: bool) -> ScrapeConfig {
    ScrapeConfig::new(requests, 1, 5, max_retries, pause_after_last).unwrap()
}

/// Drives the loop with a stub transport; returns the results, the number of
/// fetches made and the sleeps asked for.
fn drive<F: FnMut(usize) -> Option<String>>(
    mut scraper: Scraper,
    mut fetch: F,
) -> (Vec<SearchResult>, usize, Vec<u64>) {
    let mut fetches = 0;
    let mut sleeps = Vec::new();
    let mut action = scraper.step(Event::Start, fixed_draw(1));
    loop {
        let event = match action {
            Action::Fetch { .. } => {
                fetches += 1;
                match fetch(fetches) {
                    Some(body) => Event::Fetched(extract(&body).unwrap()),
                    None => Event::FetchFailed,
                }
            }
            Action::Sleep { seconds } => {
                sleeps.push(seconds);
                Event::Slept
            }
            Action::Finished => break,
        };
        assert!(scraper.accepts(&event));
        action = scraper.step(event, fixed_draw(2));
    }
    assert_eq!(scraper.phase(), Phase::Finished);
    (scraper.into_results(), fetches, sleeps)
}

const PAGE: &str = "<h3><a href=\"https://r.example/\">R</a></h3>";

#[test]
fn zero_requests_make_no_fetch() {
    let s = Scraper::new(config(0, 3, true), pool()).unwrap();
    let (results, fetches, sleeps) = drive(s, |_| panic!("no fetch expected"));
    assert!(results.is_empty());
    assert_eq!(fetches, 0);
    assert!(sleeps.is_empty());
}

#[test]
fn success_after_failures_counts_retries() {
    for r in 0..3usize {
        let mut s = Scraper::new(config(1, 3, true), pool()).unwrap();
        let mut action = s.step(Event::Start, fixed_draw(1));
        for _ in 0..r {
            assert!(matches!(action, Action::Fetch { .. }));
            action = s.step(Event::FetchFailed, fixed_draw(4));
            assert_eq!(action, Action::Sleep { seconds: 4 });
            action = s.step(Event::Slept, fixed_draw(4));
        }
        assert_eq!(action, Action::Fetch { user_agent: "agent-a".to_string() });
        let action = s.step(Event::Fetched(vec![result("T", "L")]), fixed_draw(3));
        assert_eq!(s.retries(), r);
        assert_eq!(action, Action::Sleep { seconds: 3 });
        assert_eq!(s.results(), &vec![result("T", "L")]);
    }
}

#[test]
fn always_failing_slot_contributes_nothing_and_loop_goes_on() {
    let s = Scraper::new(config(2, 2, true), pool()).unwrap();
    let (results, fetches, sleeps) = drive(s, |n| if n <= 2 { None } else { Some(PAGE.to_string()) });
    assert_eq!(fetches, 3);
    assert_eq!(results, vec![result("R", "https://r.example/")]);
    // two back-offs for the failed slot, then one pause after each slot
    assert_eq!(sleeps.len(), 4);
}

#[test]
fn exhausted_retries_end_the_slot() {
    let mut s = Scraper::new(config(1, 1, false), pool()).unwrap();
    assert!(matches!(s.step(Event::Start, fixed_draw(1)), Action::Fetch { .. }));
    assert_eq!(s.step(Event::FetchFailed, fixed_draw(5)), Action::Sleep { seconds: 5 });
    assert_eq!(s.retries(), 1);
    assert_eq!(s.step(Event::Slept, fixed_draw(5)), Action::Finished);
    assert!(s.results().is_empty());
}

#[test]
fn no_attempts_allowed_means_no_fetch() {
    let s = Scraper::new(config(3, 0, true), pool()).unwrap();
    let (results, fetches, sleeps) = drive(s, |_| panic!("no fetch expected"));
    assert!(results.is_empty());
    assert_eq!(fetches, 0);
    assert_eq!(sleeps.len(), 3);
}

#[test]
fn trailing_pause_is_configurable() {
    let with = Scraper::new(config(2, 1, true), pool()).unwrap();
    let (_, _, sleeps) = drive(with, |_| Some(PAGE.to_string()));
    assert_eq!(sleeps.len(), 2);
    let without = Scraper::new(config(2, 1, false), pool()).unwrap();
    let (results, _, sleeps) = drive(without, |_| Some(PAGE.to_string()));
    assert_eq!(sleeps.len(), 1);
    assert_eq!(results.len(), 2);
}

#[test]
fn results_accumulate_in_fetch_order() {
    let s = Scraper::new(config(3, 1, true), pool()).unwrap();
    let (results, _, _) = drive(s, |n| {
        Some(format!("<h3><a href=\"{n}\">page {n}</a></h3><h3><a>extra {n}</a></h3>"))
    });
    let titles: Vec<&str> = results.iter().map(|r| r.title.as_str()).collect();
    assert_eq!(titles, vec!["page 1", "extra 1", "page 2", "extra 2", "page 3", "extra 3"]);
    assert_eq!(results[2].link, "2");
    assert_eq!(results[3].link, "");
}

#[test]
fn invalid_delay_range_fails_fast() {
    assert_eq!(
        ScrapeConfig::new(5, 6, 5, 3, true),
        Err(ConfigError::InvalidDelayRange { min: 6, max: 5 })
    );
    let c = ScrapeConfig::new(5, 5, 5, 3, true).unwrap();
    assert_eq!(c.min_delay, 5);
    assert_eq!(c.max_delay, 5);
}

#[test]
fn delay_draws_stay_in_range() {
    let c = ScrapeConfig::new(1, 2, 4, 1, true).unwrap();
    for _ in 0..200 {
        let d = draw_delay(&c);
        assert!((2..=4).contains(&d));
    }
    let point = ScrapeConfig::new(1, 3, 3, 1, true).unwrap();
    assert_eq!(draw_delay(&point), 3);
}

#[test]
fn drawn_user_agent_comes_from_pool() {
    let s = Scraper::new(config(1, 1, true), pool()).unwrap();
    for _ in 0..50 {
        let d = s.draw();
        assert!(pool().contains(&d.user_agent));
        assert!((1..=5).contains(&d.delay));
    }
    let defaults = default_user_agents();
    assert_eq!(defaults.len(), 5);
    let s = Scraper::new(config(1, 1, true), defaults.clone()).unwrap();
    assert!(defaults.contains(&s.draw().user_agent));
}

#[test]
fn empty_pool_is_refused() {
    assert!(matches!(
        Scraper::new(config(1, 1, true), vec![]),
        Err(ConfigError::EmptyUserAgentPool)
    ));
}

#[test]
fn hand_built_invalid_range_is_refused() {
    let bad = ScrapeConfig { requests: 1, min_delay: 9, max_delay: 2, max_retries: 1, pause_after_last: true };
    assert!(matches!(
        Scraper::new(bad, pool()),
        Err(ConfigError::InvalidDelayRange { min: 9, max: 2 })
    ));
}
