use job_scraper::listing::{assemble_listings, build_listing, describe, ContainerFields};
use job_scraper::providers::JobTitle;

fn text(value: &str) -> Option<String> {
    Some(value.to_string())
}

fn container(title: Option<&str>, link: Option<&str>) -> ContainerFields {
    ContainerFields {
        title: title.map(str::to_owned),
        footer: None,
        bullets: Vec::new(),
        salary: None,
        link: link.map(str::to_owned),
    }
}

#[test]
fn describe_takes_the_footer_detail() {
    assert_eq!(describe(text("from the footer"), &Vec::new()), "from the footer");
}

#[test]
fn describe_prefers_the_footer_detail_to_the_bullets() {
    let bullets = vec!["one".to_string(), "two".to_string()];
    assert_eq!(describe(text("from the footer"), &bullets), "from the footer");
    assert_eq!(describe(text(""), &bullets), "");
}

#[test]
fn describe_falls_back_to_the_bullets() {
    let bullets = vec!["one".to_string(), "two".to_string()];
    assert_eq!(describe(None, &bullets), "one\ntwo");
}

#[test]
fn describe_without_either_is_empty() {
    assert_eq!(describe(None, &Vec::new()), "");
}

#[test]
fn build_listing_of_a_full_container() {
    let fields = ContainerFields {
        title: text("Senior React Developer"),
        footer: text("Remote, full time"),
        bullets: vec!["ignored".to_string()],
        salary: text("$2.060 - $3.090 por mes"),
        link: text("/rc/clk?jk=f78c"),
    };
    assert_eq!(
        build_listing("https://ec.indeed.com", fields),
        Some(JobTitle {
            name: "Senior React Developer".to_string(),
            description: "Remote, full time".to_string(),
            url: "https://ec.indeed.com/rc/clk?jk=f78c".to_string(),
            salary_info: text("$2.060 - $3.090 por mes"),
        })
    );
}

#[test]
fn build_listing_of_a_bare_container_has_an_empty_description() {
    assert_eq!(
        build_listing("https://ar.indeed.com", container(Some("Cook"), Some("/job/1"))),
        Some(JobTitle {
            name: "Cook".to_string(),
            description: String::new(),
            url: "https://ar.indeed.com/job/1".to_string(),
            salary_info: None,
        })
    );
}

#[test]
fn build_listing_without_a_title_is_none() {
    let mut fields = container(None, Some("/job/1"));
    fields.footer = text("detail");
    fields.bullets = vec!["a".to_string()];
    fields.salary = text("$1");
    assert_eq!(build_listing("https://ar.indeed.com", fields), None);
}

#[test]
fn build_listing_without_a_link_is_none() {
    let mut fields = container(Some("Cook"), None);
    fields.footer = text("detail");
    fields.salary = text("$1");
    assert_eq!(build_listing("https://ar.indeed.com", fields), None);
}

#[test]
fn build_listing_without_title_and_link_is_none() {
    assert_eq!(build_listing("https://ar.indeed.com", container(None, None)), None);
}

#[test]
fn build_listing_always_puts_the_domain_first() {
    let made = build_listing(
        "https://ec.indeed.com",
        container(Some("Cook"), Some("https://elsewhere.example/job")),
    )
    .unwrap();
    assert_eq!(made.url, "https://ec.indeed.comhttps://elsewhere.example/job");
}

#[test]
fn build_listing_with_a_title_without_text_is_none() {
    let mut fields = container(Some(""), Some("/job"));
    fields.footer = text("detail");
    fields.salary = text("$1");
    assert_eq!(build_listing("https://ec.indeed.com", fields), None);
}

#[test]
fn build_listing_keeps_an_empty_link() {
    let made = build_listing("https://ec.indeed.com", container(Some("Cook"), Some(""))).unwrap();
    assert_eq!(made.name, "Cook");
    assert_eq!(made.url, "https://ec.indeed.com");
}

#[test]
fn assemble_listings_of_no_container_is_empty() {
    assert_eq!(assemble_listings("https://ec.indeed.com", Vec::new()), Vec::new());
}

#[test]
fn assemble_listings_keeps_the_order_and_drops_the_incomplete() {
    let found = vec![
        container(Some("first"), Some("/1")),
        container(None, Some("/2")),
        container(Some("third"), None),
        container(Some("fourth"), Some("/4")),
        container(None, None),
    ];
    let listings = assemble_listings("https://ec.indeed.com", found);
    assert_eq!(listings.len(), 2);
    assert_eq!(listings[0].name, "first");
    assert_eq!(listings[0].url, "https://ec.indeed.com/1");
    assert_eq!(listings[1].name, "fourth");
    assert_eq!(listings[1].url, "https://ec.indeed.com/4");
}

#[test]
fn assemble_listings_of_incomplete_containers_only_is_empty() {
    let found = vec![container(None, Some("/2")), container(Some("third"), None)];
    assert!(assemble_listings("https://ec.indeed.com", found).is_empty());
}

#[test]
fn assemble_listings_gives_every_listing_a_name_and_a_url() {
    let found = vec![
        container(Some("a"), Some("")),
        container(Some("b"), Some("/b")),
        container(Some(""), Some("/c")),
    ];
    let listings = assemble_listings("https://ar.indeed.com", found);
    assert_eq!(listings.len(), 2);
    assert_eq!(listings[0].name, "a");
    assert_eq!(listings[1].name, "b");
    assert!(listings.iter().all(|listing| !listing.name.is_empty()));
    assert!(listings.iter().all(|listing| listing.url.starts_with("https://ar.indeed.com")));
}

#[test]
fn assemble_listings_drops_a_container_whose_title_has_no_text() {
    let found = vec![container(Some(""), Some("/job"))];
    assert!(assemble_listings("https://ec.indeed.com", found).is_empty());
}

#[test]
fn assemble_listings_one_for_each_complete_container() {
    let found: Vec<ContainerFields> =
        (0..10).map(|i| container(Some("job"), Some(&format!("/{i}")))).collect();
    let listings = assemble_listings("https://ar.indeed.com", found);
    assert_eq!(listings.len(), 10);
    assert_eq!(listings[9].url, "https://ar.indeed.com/9");
}
