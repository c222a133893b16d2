use deadlinkrs::LinkStatus::{Alive, Cached, Dead, Ignored, Warn};
use deadlinkrs::{HttpStatus, Kind, Link, Probe};

fn link() -> Link {
    Link::new(&"https://example.com".to_string())
}

const SHOWN: &str = "\u{1b}[4;34mhttps://example.com\u{1b}[0m";

#[test]
fn link_keeps_its_text() {
    assert_eq!(link().as_str(), "https://example.com");
    assert_eq!(Link::from_match("http://a.example/ b").as_str(), "http://a.example/ b");
    assert_eq!(Link::new(&String::new()).as_str(), "");
}

#[test]
fn link_equality_is_exact() {
    assert_eq!(link(), Link::from_match("https://example.com"));
    assert_ne!(link(), Link::from_match("https://example.com/"));
    assert_ne!(link(), Link::from_match("https://Example.com"));
    assert_eq!(link().clone(), link());
}

#[test]
fn status_codes_range_from_100_to_999() {
    assert!(HttpStatus::new(0).is_none());
    assert!(HttpStatus::new(99).is_none());
    assert_eq!(HttpStatus::new(100).unwrap().code(), 100);
    assert_eq!(HttpStatus::new(999).unwrap().code(), 999);
    assert!(HttpStatus::new(1000).is_none());
    assert!(HttpStatus::new(u16::MAX).is_none());
}

#[test]
fn success_is_200_to_299() {
    assert!(!HttpStatus::new(199).unwrap().is_success());
    assert!(HttpStatus::new(200).unwrap().is_success());
    assert!(HttpStatus::new(299).unwrap().is_success());
    assert!(!HttpStatus::new(300).unwrap().is_success());
}

#[test]
fn status_text_names_the_status() {
    assert_eq!(HttpStatus::new(404).unwrap().text(), "404 Not Found");
    assert_eq!(HttpStatus::new(200).unwrap().text(), "200 OK");
    assert_eq!(HttpStatus::new(503).unwrap().text(), "503 Service Unavailable");
    assert_eq!(HttpStatus::new(299).unwrap().text(), "299 <unknown status code>");
    assert_eq!(HttpStatus::new(999).unwrap().text(), "999 <unknown status code>");
}

#[test]
fn alive_classifies_the_outcome() {
    let answered = |code: u16| Probe::Answered(HttpStatus::new(code).unwrap());

    assert_eq!(link().alive(&answered(200)), Alive);
    assert_eq!(link().alive(&answered(299)), Alive);
    assert_eq!(link().alive(&answered(404)), Dead("404 Not Found".to_string()));
    assert_eq!(link().alive(&answered(300)), Dead("300 Multiple Choices".to_string()));
    assert_eq!(link().alive(&answered(199)), Dead("199 <unknown status code>".to_string()));
    assert_eq!(link().alive(&answered(500)), Dead("500 Internal Server Error".to_string()));
    assert_eq!(link().alive(&Probe::Failed), Warn("Too many redirections".to_string()));
}

#[test]
fn kind_drops_the_reason() {
    assert_eq!(Alive.kind(), Kind::Alive);
    assert_eq!(Dead("404 Not Found".to_string()).kind(), Kind::Dead);
    assert_eq!(Dead(String::new()).kind(), Kind::Dead);
    assert_eq!(Warn("x".to_string()).kind(), Kind::Warn);
    assert_eq!(Cached.kind(), Kind::Cached);
    assert_eq!(Ignored.kind(), Kind::Ignored);
}

#[test]
fn render_paints_the_link() {
    assert_eq!(link().render(), SHOWN);
}

#[test]
fn ok_line() {
    assert_eq!(link().ok(""), format!("\t\u{1b}[32m[OK]\u{1b}[0m {} ", SHOWN));
    assert_eq!(link().ok("fine"), format!("\t\u{1b}[32m[OK]\u{1b}[0m {} fine", SHOWN));
}

#[test]
fn warn_line() {
    assert_eq!(
        link().warn("Too many redirections"),
        format!(
            "\t\u{1b}[33m[WARN]\u{1b}[0m {} \u{1b}[33mToo many redirections\u{1b}[0m",
            SHOWN
        )
    );
}

#[test]
fn err_line() {
    assert_eq!(
        link().err("404 Not Found"),
        format!("\t\u{1b}[31m[ERR]\u{1b}[0m {} \u{1b}[31m404 Not Found\u{1b}[0m", SHOWN)
    );
}

#[test]
fn cache_line() {
    assert_eq!(
        link().cache(""),
        format!(
            "\t\u{1b}[2;32m[CACHE]\u{1b}[0m \u{1b}[2m{}\u{1b}[0m \u{1b}[2m\u{1b}[0m",
            SHOWN
        )
    );
}

#[test]
fn ignored_line() {
    assert_eq!(
        link().ignored(""),
        format!(
            "\t\u{1b}[2m[IGNORED]\u{1b}[0m \u{1b}[2m{}\u{1b}[0m \u{1b}[2m\u{1b}[0m",
            SHOWN
        )
    );
}

#[test]
fn report_goes_by_the_status() {
    assert_eq!(link().report(&Alive), link().ok(""));
    assert_eq!(link().report(&Dead("410 Gone".to_string())), link().err("410 Gone"));
    assert_eq!(link().report(&Warn("slow".to_string())), link().warn("slow"));
    assert_eq!(link().report(&Cached), link().cache(""));
    assert_eq!(link().report(&Ignored), link().ignored(""));
}

#[test]
fn plain_lines() {
    let link = deadlinkrs::log::Link::new("https://example.com");

    assert_eq!(link.print(), format!("\t{}", SHOWN));
    assert_eq!(link.ok("fine"), format!("\t\u{1b}[32m[OK]\u{1b}[0m {} fine", SHOWN));
    assert_eq!(
        link.warn("slow"),
        format!("\t\u{1b}[33m[WARN]\u{1b}[0m {} \u{1b}[33mslow\u{1b}[0m", SHOWN)
    );
    assert_eq!(
        link.err("410 Gone"),
        format!("\t\u{1b}[31m[ERR]\u{1b}[0m {} \u{1b}[31m410 Gone\u{1b}[0m", SHOWN)
    );
    assert_eq!(
        link.cache("seen"),
        "\t\u{1b}[2;32m[CACHE]\u{1b}[0m \u{1b}[2;4;34mhttps://example.com\u{1b}[0m \u{1b}[2mseen\u{1b}[0m"
    );
}
