use icon_scraper::error::FetchCause;
use icon_scraper::error::Mismatch;
use icon_scraper::error::ScrapeError;
use icon_scraper::fetch::check_reply;
use icon_scraper::fetch::status_is_success;
use icon_scraper::fetch::FetchReply;
use icon_scraper::html::Page;
use icon_scraper::model::Candidate;
use icon_scraper::resolve::absolute_candidates;
use icon_scraper::resolve::icon_from_sample;
use icon_scraper::resolve::index_candidates;
use icon_scraper::resolve::resolve_detail;
use icon_scraper::resolve::DETAIL_BASE;
use icon_scraper::resolve::INDEX_URL;

fn page(text: &str) -> Page {
    Page::new(text.to_string()).unwrap()
}

fn answered(status: u16, text: &str) -> FetchReply {
    FetchReply::Answered { status, body: page(text) }
}

fn candidate(name: &str, link: &str) -> Candidate {
    Candidate::new(name.to_string(), link.to_string()).unwrap()
}

fn detail(code: &str) -> String {
    format!("<html><body><pre><code class=\"language-dart\">{}</code></pre></body></html>", code)
}

#[test]
fn addresses_are_those_of_the_documentation() {
    assert_eq!(INDEX_URL, "https://api.flutter.dev/flutter/cupertino/CupertinoIcons-class.html");
    assert_eq!(DETAIL_BASE, "https://api.flutter.dev/flutter/");
}

#[test]
fn success_is_a_status_from_200_to_299() {
    assert!(!status_is_success(0));
    assert!(!status_is_success(100));
    assert!(!status_is_success(199));
    assert!(status_is_success(200));
    assert!(status_is_success(204));
    assert!(status_is_success(299));
    assert!(!status_is_success(300));
    assert!(!status_is_success(301));
    assert!(!status_is_success(404));
    assert!(!status_is_success(500));
    assert!(!status_is_success(u16::MAX));
}

#[test]
fn reply_with_success_gives_the_page() {
    let got = check_reply("https://example.org/a", answered(200, "<p>body</p>"));
    assert_eq!(got, Ok(page("<p>body</p>")));
    let got = check_reply("https://example.org/a", answered(299, ""));
    assert_eq!(got, Ok(page("")));
}

#[test]
fn reply_with_other_status_is_a_fetch_error() {
    let got = check_reply("https://example.org/a", answered(404, "<p>not found</p>"));
    assert_eq!(
        got,
        Err(ScrapeError::Fetch {
            url: "https://example.org/a".to_string(),
            cause: FetchCause::Status(404),
        })
    );
    let got = check_reply("https://example.org/b", answered(302, ""));
    assert_eq!(
        got,
        Err(ScrapeError::Fetch {
            url: "https://example.org/b".to_string(),
            cause: FetchCause::Status(302),
        })
    );
}

#[test]
fn failed_request_is_a_fetch_error() {
    let got = check_reply("https://example.org/a", FetchReply::Failed("connection reset".to_string()));
    assert_eq!(
        got,
        Err(ScrapeError::Fetch {
            url: "https://example.org/a".to_string(),
            cause: FetchCause::Transport("connection reset".to_string()),
        })
    );
}

#[test]
fn links_are_made_absolute_in_order() {
    let listed = vec![candidate("add", "cupertino/a.html"), candidate("close", "/b.html")];
    let joined = absolute_candidates(&listed);
    assert_eq!(
        joined,
        vec![
            candidate("add", "https://api.flutter.dev/flutter/cupertino/a.html"),
            candidate("close", "https://api.flutter.dev/flutter//b.html"),
        ]
    );
    assert_eq!(absolute_candidates(&vec![]), vec![]);
}

#[test]
fn index_reply_gives_candidates_with_absolute_links() {
    let index = "<section id=\"constants\">\
        <dt class=\"constant\"><a href=\"cupertino/CupertinoIcons/add-constant.html\">add</a></dt>\
        <dt class=\"constant\"><a href=\"cupertino/CupertinoIcons/iconFont-constant.html\">iconFont</a></dt>\
        <dt class=\"constant\"><a href=\"cupertino/CupertinoIcons/bell-constant.html\">bell</a></dt>\
        </section>";
    let found = index_candidates(answered(200, index)).unwrap();
    assert_eq!(
        found,
        vec![
            candidate("add", "https://api.flutter.dev/flutter/cupertino/CupertinoIcons/add-constant.html"),
            candidate("bell", "https://api.flutter.dev/flutter/cupertino/CupertinoIcons/bell-constant.html"),
        ]
    );
}

#[test]
fn index_reply_with_bad_status_is_a_fetch_error() {
    let index = "<section id=\"constants\"><dt class=\"constant\"><a href=\"a.html\">add</a></dt></section>";
    assert_eq!(
        index_candidates(answered(503, index)),
        Err(ScrapeError::Fetch { url: INDEX_URL.to_string(), cause: FetchCause::Status(503) })
    );
}

#[test]
fn index_request_that_failed_is_a_fetch_error() {
    assert_eq!(
        index_candidates(FetchReply::Failed("dns error".to_string())),
        Err(ScrapeError::Fetch {
            url: INDEX_URL.to_string(),
            cause: FetchCause::Transport("dns error".to_string()),
        })
    );
}

#[test]
fn index_page_of_other_layout_is_a_mismatch() {
    assert_eq!(
        index_candidates(answered(200, "<html><body><h1>Moved</h1></body></html>")),
        Err(ScrapeError::StructuralMismatch(Mismatch::Container))
    );
    assert_eq!(
        index_candidates(answered(
            200,
            "<section id=\"constants\"><dt class=\"constant\">add</dt></section>"
        )),
        Err(ScrapeError::StructuralMismatch(Mismatch::Link))
    );
}

#[test]
fn index_page_without_entries_gives_no_candidates() {
    assert_eq!(index_candidates(answered(200, "<section id=\"constants\"></section>")), Ok(vec![]));
}

#[test]
fn sample_with_literal_gives_the_icon() {
    let add = candidate("add", "https://example.org/a.html");
    let icon = icon_from_sample(&add, Some("const IconData(0xf101, fontFamily: x)".to_string())).unwrap();
    assert_eq!(icon.icon_name(), "add");
    assert_eq!(icon.icon_code(), "0xf101");
}

#[test]
fn sample_gives_its_first_literal() {
    let add = candidate("add", "https://example.org/a.html");
    let icon = icon_from_sample(&add, Some("IconData(0xAAA, 0xBBB)".to_string())).unwrap();
    assert_eq!(icon.icon_code(), "0xAAA");
}

#[test]
fn missing_sample_is_code_block_not_found() {
    let add = candidate("add", "https://example.org/a.html");
    assert_eq!(
        icon_from_sample(&add, None),
        Err(ScrapeError::CodeBlockNotFound { url: "https://example.org/a.html".to_string() })
    );
}

#[test]
fn sample_without_literal_is_hex_not_parsed() {
    let add = candidate("add", "https://example.org/a.html");
    assert_eq!(
        icon_from_sample(&add, Some("const IconData(61697)".to_string())),
        Err(ScrapeError::HexNotParsed { url: "https://example.org/a.html".to_string() })
    );
    assert_eq!(
        icon_from_sample(&add, Some(String::new())),
        Err(ScrapeError::HexNotParsed { url: "https://example.org/a.html".to_string() })
    );
}

#[test]
fn detail_reply_gives_the_icon() {
    let close = candidate("close", "https://example.org/b.html");
    let icon = resolve_detail(&close, answered(200, &detail("IconData close = IconData(0xf102)"))).unwrap();
    assert_eq!(icon.icon_name(), "close");
    assert_eq!(icon.icon_code(), "0xf102");
}

#[test]
fn detail_reply_with_bad_status_is_a_fetch_error() {
    let close = candidate("close", "https://example.org/b.html");
    assert_eq!(
        resolve_detail(&close, answered(404, &detail("IconData(0xf102)"))),
        Err(ScrapeError::Fetch {
            url: "https://example.org/b.html".to_string(),
            cause: FetchCause::Status(404),
        })
    );
}

#[test]
fn detail_request_that_failed_is_a_fetch_error() {
    let close = candidate("close", "https://example.org/b.html");
    assert_eq!(
        resolve_detail(&close, FetchReply::Failed("timed out".to_string())),
        Err(ScrapeError::Fetch {
            url: "https://example.org/b.html".to_string(),
            cause: FetchCause::Transport("timed out".to_string()),
        })
    );
}

#[test]
fn detail_page_without_sample_is_code_block_not_found() {
    let close = candidate("close", "https://example.org/b.html");
    assert_eq!(
        resolve_detail(&close, answered(200, "<html><body><code>IconData(0xf102)</code></body></html>")),
        Err(ScrapeError::CodeBlockNotFound { url: "https://example.org/b.html".to_string() })
    );
}

#[test]
fn detail_page_without_literal_is_hex_not_parsed() {
    let close = candidate("close", "https://example.org/b.html");
    assert_eq!(
        resolve_detail(&close, answered(200, &detail("IconData close"))),
        Err(ScrapeError::HexNotParsed { url: "https://example.org/b.html".to_string() })
    );
}

#[test]
fn literal_outside_the_sample_does_not_count() {
    let close = candidate("close", "https://example.org/b.html");
    let body = format!("<p>0xdead</p>{}<p>0xbeef</p>", detail("IconData(0xf102)"));
    let icon = resolve_detail(&close, answered(200, &body)).unwrap();
    assert_eq!(icon.icon_code(), "0xf102");
    let body = format!("<p>0xdead</p>{}", detail("IconData close"));
    assert_eq!(
        resolve_detail(&close, answered(200, &body)),
        Err(ScrapeError::HexNotParsed { url: "https://example.org/b.html".to_string() })
    );
}

#[test]
fn candidate_without_name_gives_no_icon() {
    let nameless = candidate("", "https://example.org/n.html");
    assert_eq!(
        icon_from_sample(&nameless, Some("IconData(0xf101)".to_string())),
        Err(ScrapeError::StructuralMismatch(Mismatch::Name))
    );
    assert_eq!(
        resolve_detail(&nameless, answered(200, &detail("IconData(0xf101)"))),
        Err(ScrapeError::StructuralMismatch(Mismatch::Name))
    );
}

#[test]
fn candidate_without_name_fails_first_by_its_page() {
    let nameless = candidate("", "https://example.org/n.html");
    assert_eq!(
        icon_from_sample(&nameless, None),
        Err(ScrapeError::CodeBlockNotFound { url: "https://example.org/n.html".to_string() })
    );
    assert_eq!(
        icon_from_sample(&nameless, Some("IconData()".to_string())),
        Err(ScrapeError::HexNotParsed { url: "https://example.org/n.html".to_string() })
    );
    assert_eq!(
        resolve_detail(&nameless, answered(404, "")),
        Err(ScrapeError::Fetch {
            url: "https://example.org/n.html".to_string(),
            cause: FetchCause::Status(404),
        })
    );
}

#[test]
fn index_reply_lists_an_entry_without_name() {
    let index = "<section id=\"constants\">\
        <dt class=\"constant\"><a href=\"n.html\"></a></dt>\
        <dt class=\"constant\"><a href=\"a.html\">add</a></dt>\
        </section>";
    assert_eq!(
        index_candidates(answered(200, index)),
        Ok(vec![
            candidate("", "https://api.flutter.dev/flutter/n.html"),
            candidate("add", "https://api.flutter.dev/flutter/a.html"),
        ])
    );
}
