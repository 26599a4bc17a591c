use cordis_magazines::model::{
    Article, Association, HeaderElement, Hit, HitsElement, Identifiers, RelationsElement,
    ResultElement, SearchResponse, WebLinkElement,
};
use cordis_magazines::pipeline::{collect_tasks, first_pdf_link, DownloadTask, Pagination};

fn link(typ: &str, url: &str) -> WebLinkElement {
    WebLinkElement {
        typ: typ.to_owned(),
        title: "a title".to_owned(),
        id: "an id".to_owned(),
        language: "en".to_owned(),
        phys_url: url.to_owned(),
    }
}

fn article(issue: &str, links: Vec<WebLinkElement>) -> Article {
    Article {
        title: "a magazine article".to_owned(),
        relations: vec![RelationsElement {
            associations: vec![Association { weblinks: links }],
        }],
        identifiers: Identifiers {
            issn: "1831-9947".to_owned(),
            catalogue_number: "ZZ-AC-17-002".to_owned(),
            cellar_id: "cellar:123".to_owned(),
            issue: issue.to_owned(),
        },
    }
}

fn response(total_hits: usize, page_size: usize, articles: Vec<Article>) -> SearchResponse {
    let hits: Vec<Hit> = articles
        .into_iter()
        .map(|a| Hit { score: "1.0".to_owned(), article: a })
        .collect();
    SearchResponse {
        result: ResultElement {
            header: HeaderElement {
                num_hits: hits.len(),
                total_hits,
                records: "records".to_owned(),
            },
        },
        hits: HitsElement { hits },
        page_size,
    }
}

#[test]
fn first_pdf_link_takes_first_match() {
    let a = article(
        "x",
        vec![
            link("formatHtml", "h"),
            link("formatPdf", "first"),
            link("formatPdf", "second"),
        ],
    );
    let l = first_pdf_link(&a).expect("a pdf link");
    assert_eq!(l.phys_url, "first");
}

#[test]
fn first_pdf_link_none_without_match() {
    let a = article("x", vec![link("formatHtml", "h")]);
    assert!(first_pdf_link(&a).is_none());
}

#[test]
fn collect_tasks_one_per_article_with_pdf() {
    let r = response(
        3,
        10,
        vec![
            article("a", vec![link("formatPdf", "ua")]),
            article("b", vec![link("formatHtml", "hb")]),
            article("c", vec![link("formatPdf", "uc")]),
        ],
    );
    let mut queue: Vec<DownloadTask> = Vec::new();
    collect_tasks(&r, &mut queue);
    assert_eq!(queue.len(), 2);
    assert_eq!(queue[0].issue, "a");
    assert_eq!(queue[0].url, "ua");
    assert_eq!(queue[1].issue, "c");
    assert_eq!(queue[1].url, "uc");
}

#[test]
fn collect_tasks_appends_after_existing() {
    let r = response(1, 10, vec![article("b", vec![link("formatPdf", "ub")])]);
    let mut queue = vec![DownloadTask { issue: "a".to_owned(), url: "ua".to_owned() }];
    collect_tasks(&r, &mut queue);
    assert_eq!(queue.len(), 2);
    assert_eq!(queue[0].issue, "a");
    assert_eq!(queue[1].issue, "b");
}

#[test]
fn pagination_walks_pages_in_order() {
    let mut p = Pagination::new();
    // 25 hits at 10 per page: three pages in all.
    let page1 = response(25, 10, vec![article("a", vec![link("formatPdf", "ua")])]);
    let next = p.on_response(&page1);
    assert_eq!(next, Some(2));
    assert_eq!(p.num_pages, 3);
    assert_eq!(p.tasks.len(), 1);

    let page2 = response(25, 10, vec![article("b", vec![link("formatPdf", "ub")])]);
    let next = p.on_response(&page2);
    assert_eq!(next, Some(3));
    assert_eq!(p.tasks.len(), 2);
    assert_eq!(p.tasks[0].issue, "a");
    assert_eq!(p.tasks[1].issue, "b");

    // The response of the final page ends the phase without contributing
    // tasks: the page counter has reached the bound.
    let page3 = response(25, 10, vec![article("c", vec![link("formatPdf", "uc")])]);
    let next = p.on_response(&page3);
    assert_eq!(next, None);
    assert_eq!(p.tasks.len(), 2);
}

#[test]
fn pagination_single_page_contributes_nothing() {
    // With a single page the counter starts at the bound, so even the first
    // response is not mined for tasks.
    let mut p = Pagination::new();
    let only = response(5, 10, vec![article("a", vec![link("formatPdf", "ua")])]);
    let next = p.on_response(&only);
    assert_eq!(next, None);
    assert_eq!(p.num_pages, 1);
    assert!(p.tasks.is_empty());
}

#[test]
fn pagination_bound_read_once() {
    let mut p = Pagination::new();
    let page1 = response(30, 10, vec![]);
    assert_eq!(p.on_response(&page1), Some(2));
    assert_eq!(p.num_pages, 3);
    // A later response reporting a different total does not move the bound.
    let page2 = response(90, 10, vec![]);
    assert_eq!(p.on_response(&page2), Some(3));
    assert_eq!(p.num_pages, 3);
}

#[test]
fn pagination_keeps_queue_when_fetch_fails_midway() {
    // A transport failure between pages means no further response is fed
    // in; everything collected so far stays queued, and nothing has been
    // downloaded, since the download phase only starts after pagination.
    let mut p = Pagination::new();
    let page1 = response(25, 10, vec![article("a", vec![link("formatPdf", "ua")])]);
    assert_eq!(p.on_response(&page1), Some(2));
    // Fetching page 2 fails here; the run aborts with the queue intact.
    assert_eq!(p.tasks.len(), 1);
    assert_eq!(p.tasks[0].issue, "a");
    assert_eq!(p.tasks[0].url, "ua");
}

#[test]
fn dest_file_name_appends_pdf() {
    let t = DownloadTask { issue: "2017-002".to_owned(), url: "u".to_owned() };
    assert_eq!(t.dest_file_name(), "2017-002.pdf");
}

#[test]
fn existing_destination_is_not_downloaded_again() {
    let t = DownloadTask { issue: "x".to_owned(), url: "u".to_owned() };
    assert!(!t.should_download(true));
    assert!(t.should_download(false));
}
