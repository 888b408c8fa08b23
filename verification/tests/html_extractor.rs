use icon_scraper::error::Mismatch;
use icon_scraper::error::ScrapeError;
use icon_scraper::html::candidates_from_scan;
use icon_scraper::html::find_code_sample;
use icon_scraper::html::list_constant_nodes;
use icon_scraper::html::Page;
use icon_scraper::html::PAGE_LIMIT;
use icon_scraper::model::Candidate;

fn page(text: &str) -> Page {
    Page::new(text.to_string()).unwrap()
}

fn entry(name: &str, href: &str) -> String {
    format!(
        "<dt id=\"{}\" class=\"constant\"><span class=\"name\"><a href=\"{}\">{}</a></span></dt>",
        name, href, name
    )
}

fn index(entries: &[String]) -> Page {
    page(&format!(
        "<html><body><section id=\"constants\"><dl>{}</dl></section></body></html>",
        entries.concat()
    ))
}

fn pairs(found: &[Candidate]) -> Vec<(String, String)> {
    found.iter().map(|c| (c.name().to_string(), c.link().to_string())).collect()
}

fn pair(name: &str, link: &str) -> (String, String) {
    (name.to_string(), link.to_string())
}

#[test]
fn page_keeps_its_text() {
    let made = Page::new("<p>text</p>".to_string()).unwrap();
    assert_eq!(made.text(), "<p>text</p>");
    assert_eq!(made.clone(), made);
    assert_eq!(PAGE_LIMIT, 715_827_882);
    assert_eq!(PAGE_LIMIT, (1usize << 31) / 3);
}

#[test]
fn page_takes_no_text_beyond_its_limit() {
    assert_eq!(Page::new("a".repeat(PAGE_LIMIT + 1)), None);
    let made = Page::new("a".repeat(PAGE_LIMIT)).unwrap();
    assert_eq!(made.text().len(), PAGE_LIMIT);
}

#[test]
fn lists_entries_in_page_order() {
    let found = list_constant_nodes(&index(&[
        entry("add", "cupertino/CupertinoIcons/add-constant.html"),
        entry("close", "cupertino/CupertinoIcons/close-constant.html"),
        entry("zoom_in", "cupertino/CupertinoIcons/zoom_in-constant.html"),
    ]))
    .unwrap();
    assert_eq!(
        pairs(&found),
        vec![
            pair("add", "cupertino/CupertinoIcons/add-constant.html"),
            pair("close", "cupertino/CupertinoIcons/close-constant.html"),
            pair("zoom_in", "cupertino/CupertinoIcons/zoom_in-constant.html"),
        ]
    );
}

#[test]
fn reserved_names_are_left_out_at_the_front() {
    let found = list_constant_nodes(&index(&[
        entry("iconFont", "f.html"),
        entry("iconFontPackage", "p.html"),
        entry("add", "a.html"),
        entry("close", "b.html"),
    ]))
    .unwrap();
    assert_eq!(pairs(&found), vec![pair("add", "a.html"), pair("close", "b.html")]);
}

#[test]
fn reserved_names_are_left_out_in_the_middle() {
    let found = list_constant_nodes(&index(&[
        entry("add", "a.html"),
        entry("iconFont", "f.html"),
        entry("close", "b.html"),
        entry("iconFontPackage", "p.html"),
        entry("zoom", "z.html"),
    ]))
    .unwrap();
    assert_eq!(
        pairs(&found),
        vec![pair("add", "a.html"), pair("close", "b.html"), pair("zoom", "z.html")]
    );
}

#[test]
fn reserved_names_are_left_out_at_the_end() {
    let found = list_constant_nodes(&index(&[
        entry("add", "a.html"),
        entry("close", "b.html"),
        entry("iconFontPackage", "p.html"),
        entry("iconFont", "f.html"),
    ]))
    .unwrap();
    assert_eq!(pairs(&found), vec![pair("add", "a.html"), pair("close", "b.html")]);
}

#[test]
fn names_close_to_the_reserved_ones_are_kept() {
    let found = list_constant_nodes(&index(&[
        entry("iconfont", "1.html"),
        entry("iconFonts", "2.html"),
        entry("iconFontPackages", "3.html"),
        entry("IconFont", "4.html"),
    ]))
    .unwrap();
    assert_eq!(
        pairs(&found),
        vec![
            pair("iconfont", "1.html"),
            pair("iconFonts", "2.html"),
            pair("iconFontPackages", "3.html"),
            pair("IconFont", "4.html"),
        ]
    );
}

#[test]
fn page_of_reserved_names_only_lists_nothing() {
    let found =
        list_constant_nodes(&index(&[entry("iconFont", "f.html"), entry("iconFontPackage", "p.html")]))
            .unwrap();
    assert!(found.is_empty());
}

#[test]
fn equal_entries_are_all_listed() {
    let found =
        list_constant_nodes(&index(&[entry("add", "a.html"), entry("add", "a.html")])).unwrap();
    assert_eq!(pairs(&found), vec![pair("add", "a.html"), pair("add", "a.html")]);
}

#[test]
fn listing_the_same_page_again_gives_the_same() {
    let index = index(&[entry("add", "a.html"), entry("iconFont", "f.html"), entry("close", "b.html")]);
    let first = list_constant_nodes(&index).unwrap();
    let second = list_constant_nodes(&index).unwrap();
    assert_eq!(first, second);
    assert_eq!(first.len(), 2);
}

#[test]
fn missing_container_is_a_mismatch() {
    let listed = list_constant_nodes(&page(
        "<html><body><section id=\"properties\"><dl><dt class=\"constant\"><a href=\"a.html\">add</a></dt></dl></section></body></html>",
    ));
    assert_eq!(listed, Err(ScrapeError::StructuralMismatch(Mismatch::Container)));
}

#[test]
fn empty_page_is_a_mismatch() {
    assert_eq!(
        list_constant_nodes(&page("")),
        Err(ScrapeError::StructuralMismatch(Mismatch::Container))
    );
}

#[test]
fn empty_container_lists_nothing() {
    let found = list_constant_nodes(&index(&[])).unwrap();
    assert!(found.is_empty());
}

#[test]
fn entry_without_link_is_a_mismatch() {
    let listed = list_constant_nodes(&index(&[
        entry("add", "a.html"),
        "<dt class=\"constant\"><span>close</span></dt>".to_string(),
    ]));
    assert_eq!(listed, Err(ScrapeError::StructuralMismatch(Mismatch::Link)));
}

#[test]
fn entry_without_name_is_listed_like_any_other() {
    let found = list_constant_nodes(&index(&[
        entry("add", "a.html"),
        "<dt class=\"constant\"><a href=\"n.html\"></a></dt>".to_string(),
        entry("iconFont", "f.html"),
        entry("close", "b.html"),
    ]))
    .unwrap();
    assert_eq!(
        pairs(&found),
        vec![pair("add", "a.html"), pair("", "n.html"), pair("close", "b.html")]
    );
}

#[test]
fn entry_without_name_and_target_is_a_mismatch() {
    let listed = list_constant_nodes(&index(&[
        entry("add", "a.html"),
        "<dt class=\"constant\"><a></a></dt>".to_string(),
    ]));
    assert_eq!(listed, Err(ScrapeError::StructuralMismatch(Mismatch::Target)));
}

#[test]
fn entry_without_target_is_a_mismatch() {
    let listed = list_constant_nodes(&index(&[
        entry("add", "a.html"),
        "<dt class=\"constant\"><a name=\"close\">close</a></dt>".to_string(),
    ]));
    assert_eq!(listed, Err(ScrapeError::StructuralMismatch(Mismatch::Target)));
}

#[test]
fn reserved_entry_needs_no_target() {
    let found = list_constant_nodes(&index(&[
        "<dt class=\"constant\"><a>iconFont</a></dt>".to_string(),
        entry("add", "a.html"),
    ]))
    .unwrap();
    assert_eq!(pairs(&found), vec![pair("add", "a.html")]);
}

#[test]
fn first_entry_at_fault_decides_the_mismatch() {
    let listed = list_constant_nodes(&index(&[
        entry("add", "a.html"),
        "<dt class=\"constant\"><a>close</a></dt>".to_string(),
        "<dt class=\"constant\">plain</dt>".to_string(),
    ]));
    assert_eq!(listed, Err(ScrapeError::StructuralMismatch(Mismatch::Target)));
    let listed = list_constant_nodes(&index(&[
        "<dt class=\"constant\">plain</dt>".to_string(),
        "<dt class=\"constant\"><a>close</a></dt>".to_string(),
    ]));
    assert_eq!(listed, Err(ScrapeError::StructuralMismatch(Mismatch::Link)));
}

#[test]
fn entries_outside_the_container_are_not_listed() {
    let found = list_constant_nodes(&page(
        "<html><body>\
         <dl><dt class=\"constant\"><a href=\"x.html\">outside</a></dt></dl>\
         <section id=\"constants\"><dl><dt class=\"constant\"><a href=\"a.html\">add</a></dt></dl></section>\
         <dl><dt class=\"constant\"><a href=\"y.html\">after</a></dt></dl>\
         </body></html>",
    ))
    .unwrap();
    assert_eq!(pairs(&found), vec![pair("add", "a.html")]);
}

#[test]
fn only_elements_of_the_entry_class_are_entries() {
    let found = list_constant_nodes(&page(
        "<section id=\"constants\">\
         <dt class=\"property\"><a href=\"x.html\">other</a></dt>\
         <dt class=\"constant deprecated\"><a href=\"y.html\">old</a></dt>\
         <dt class=\"constant\"><a href=\"a.html\">add</a></dt>\
         <dd><a href=\"z.html\">text</a></dd>\
         </section>",
    ))
    .unwrap();
    assert_eq!(pairs(&found), vec![pair("add", "a.html")]);
}

#[test]
fn first_link_of_an_entry_names_it() {
    let found = list_constant_nodes(&page(
        "<div id=\"constants\"><div class=\"constant\">\
         <span><a href=\"first.html\">first</a></span><a href=\"second.html\">second</a>\
         </div></div>",
    ))
    .unwrap();
    assert_eq!(pairs(&found), vec![pair("first", "first.html")]);
}

#[test]
fn link_text_is_taken_through_nested_elements() {
    let found = list_constant_nodes(&page(
        "<div id=\"constants\"><p class=\"constant\"><a href=\"a.html\">arrow<b>_up</b></a></p></div>",
    ))
    .unwrap();
    assert_eq!(pairs(&found), vec![pair("arrow_up", "a.html")]);
}

#[test]
fn scan_without_container_is_a_mismatch() {
    assert_eq!(
        candidates_from_scan(None),
        Err(ScrapeError::StructuralMismatch(Mismatch::Container))
    );
}

#[test]
fn scan_with_entries_gives_their_candidates() {
    let scan = Some(vec![
        Some(("iconFont".to_string(), None)),
        Some(("add".to_string(), Some("a.html".to_string()))),
        Some(("iconFontPackage".to_string(), Some("p.html".to_string()))),
        Some(("close".to_string(), Some("b.html".to_string()))),
    ]);
    let found = candidates_from_scan(scan).unwrap();
    assert_eq!(pairs(&found), vec![pair("add", "a.html"), pair("close", "b.html")]);
}

#[test]
fn scan_without_entries_gives_no_candidates() {
    assert_eq!(candidates_from_scan(Some(vec![])), Ok(vec![]));
}

#[test]
fn scan_reports_each_kind_of_fault() {
    assert_eq!(
        candidates_from_scan(Some(vec![None])),
        Err(ScrapeError::StructuralMismatch(Mismatch::Link))
    );
    assert_eq!(
        candidates_from_scan(Some(vec![Some(("".to_string(), None))])),
        Err(ScrapeError::StructuralMismatch(Mismatch::Target))
    );
    assert_eq!(
        candidates_from_scan(Some(vec![Some(("add".to_string(), None))])),
        Err(ScrapeError::StructuralMismatch(Mismatch::Target))
    );
}

#[test]
fn scan_reports_the_first_fault() {
    let scan = Some(vec![
        Some(("add".to_string(), Some("a.html".to_string()))),
        Some(("close".to_string(), None)),
        None,
    ]);
    assert_eq!(candidates_from_scan(scan), Err(ScrapeError::StructuralMismatch(Mismatch::Target)));
}

#[test]
fn code_sample_is_found() {
    let sample = find_code_sample(&page(
        "<html><body><section class=\"desc\"><pre class=\"language-dart\">\
         <code class=\"language-dart\">const IconData add = IconData(0xf489)</code></pre>\
         </section></body></html>",
    ));
    assert_eq!(sample, Some("const IconData add = IconData(0xf489)".to_string()));
}

#[test]
fn code_sample_needs_tag_and_class() {
    assert_eq!(find_code_sample(&page("<code>IconData(0xf489)</code>")), None);
    assert_eq!(find_code_sample(&page("<pre class=\"language-dart\">IconData(0xf489)</pre>")), None);
    assert_eq!(
        find_code_sample(&page("<code class=\"language-rust\">IconData(0xf489)</code>")),
        None
    );
    assert_eq!(find_code_sample(&page("")), None);
    assert_eq!(find_code_sample(&page("code language-dart 0xf489")), None);
}

#[test]
fn code_sample_may_have_more_classes() {
    let sample =
        find_code_sample(&page("<code class=\"hljs language-dart wide\">IconData(0xf101)</code>"));
    assert_eq!(sample, Some("IconData(0xf101)".to_string()));
}

#[test]
fn first_code_sample_is_taken() {
    let sample = find_code_sample(&page(
        "<code class=\"language-yaml\">skipped</code>\
         <code class=\"language-dart\">first 0x1</code>\
         <code class=\"language-dart\">second 0x2</code>",
    ));
    assert_eq!(sample, Some("first 0x1".to_string()));
}

#[test]
fn code_sample_text_runs_through_nested_elements() {
    let sample = find_code_sample(&page(
        "<code class=\"language-dart\">IconData(<span class=\"number\">0xf101</span>, fontFamily)</code>",
    ));
    assert_eq!(sample, Some("IconData(0xf101, fontFamily)".to_string()));
}

#[test]
fn empty_code_sample_is_still_a_sample() {
    assert_eq!(
        find_code_sample(&page("<code class=\"language-dart\"></code>")),
        Some(String::new())
    );
}

#[test]
fn scan_keeps_an_entry_without_name() {
    let scan = Some(vec![
        Some(("".to_string(), Some("n.html".to_string()))),
        Some(("add".to_string(), Some("a.html".to_string()))),
    ]);
    let found = candidates_from_scan(scan).unwrap();
    assert_eq!(pairs(&found), vec![pair("", "n.html"), pair("add", "a.html")]);
}
