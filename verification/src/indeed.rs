//! The Indeed job board.

use vstd::prelude::*;
use vstd::string::*;
use scraper::ElementRef;
use crate::listing::{
    assemble_listings, is_complete, lemma_all_complete, lemma_listings_have_names,
    lemma_listings_have_urls, lemma_listings_of_len, lemma_urls_begin_with_domain, listing_of,
    listings_of, ContainerFields, Fields,
};
use crate::page::{
    find_in, first_attribute_below, first_text_below, is_readable, matches_in, parse_document,
    parsed_document, read_first_attribute, read_first_text, read_texts, texts_below, LONGEST_TEXT,
};
use crate::providers::{JobQuery, JobScrapper, JobTitle, Listing, Regions};

verus! {

/// Marks the container of one posting.
pub const CONTAINER: &'static str = ".job_seen_beacon";

/// The title of a posting, inside its container.
pub const TITLE: &'static str = "h2.jobTitle span";

/// The footer detail of a posting.
pub const FOOTER: &'static str =
    ".job_seen_beacon div[role=\"presentation\"] .underShelfFooter .heading6 div";

/// The bullet lists of a posting.
pub const BULLETS: &'static str = ".job_seen_beacon div[role=\"presentation\"] ul";

/// The salary of a posting.
pub const SALARY: &'static str = ".salary-snippet-container > div";

/// The anchors of a posting.
pub const ANCHOR: &'static str = ".job_seen_beacon a";

/// The attribute that holds an anchor's target.
pub const TARGET: &'static str = "href";

/// What a provider says of itself.
#[derive(Debug)]
pub struct JobProviderInfo {
    pub name: &'static str,
    pub base_domain_url: &'static str,
    pub region: Regions,
}

/// The Indeed site of one region.
pub struct IndeedProvider {
    pub provider_info: JobProviderInfo,
}

/// The host of a region's site.
pub open spec fn host_of(region: Regions) -> Seq<char> {
    match region {
        Regions::AR => "ar.indeed.com"@,
        Regions::EC => "ec.indeed.com"@,
    }
}

/// The address of a region's site.
pub open spec fn site_of(region: Regions) -> Seq<char> {
    "https://"@ + host_of(region)
}

/// The address of a site is never empty.
pub proof fn lemma_site_has_address(region: Regions)
    ensures
        site_of(region).len() > 0,
{
    reveal_strlit("https://");
}

/// What a container of a search page holds.
pub open spec fn container_fields(container: ElementRef<'static>) -> Fields {
    Fields {
        title: first_text_below(container, TITLE@),
        footer: first_text_below(container, FOOTER@),
        bullets: texts_below(container, BULLETS@),
        salary: first_text_below(container, SALARY@),
        link: first_attribute_below(container, ANCHOR@, TARGET@),
    }
}

/// The containers of a search page, in the order in which the page holds
/// them. A text too long to be parsed is a page without containers.
pub open spec fn containers_in(content: Seq<char>) -> Seq<ElementRef<'static>> {
    if is_readable(content) {
        matches_in(parsed_document(content), CONTAINER@)
    } else {
        Seq::empty()
    }
}

/// What each container of a search page holds, container by container.
pub open spec fn page_fields(content: Seq<char>) -> Seq<Fields> {
    containers_in(content).map_values(|container: ElementRef<'static>| container_fields(container))
}

/// Reads what one container holds.
fn read_container(container: &ElementRef<'_>) -> (fields: ContainerFields)
    ensures
        fields.deep_view() == container_fields(*container),
{
    ContainerFields {
        title: read_first_text(container, TITLE),
        footer: read_first_text(container, FOOTER),
        bullets: read_texts(container, BULLETS),
        salary: read_first_text(container, SALARY),
        link: read_first_attribute(container, ANCHOR, TARGET),
    }
}

/// Reads what each container of a search page holds. A text of more than
/// `LONGEST_TEXT` bytes is not parsed: nothing is found in it.
pub fn scan_page(content: &str) -> (found: Vec<ContainerFields>)
    ensures
        found.deep_view() == page_fields(content@),
        !is_readable(content@) ==> found@.len() == 0,
{
    if content.len() > LONGEST_TEXT {
        let found: Vec<ContainerFields> = Vec::new();
        assert(found.deep_view() =~= page_fields(content@));
        return found;
    }
    let document = parse_document(content);
    let containers = find_in(&document, CONTAINER);
    let mut found: Vec<ContainerFields> = Vec::new();
    let mut i: usize = 0;
    while i < containers.len()
        invariant
            i <= containers.len(),
            found.len() == i,
            forall|k: int|
                0 <= k < i ==> (#[trigger] found@[k]).deep_view() == container_fields(
                    containers@[k],
                ),
        decreases containers.len() - i,
    {
        found.push(read_container(&containers[i]));
        i = i + 1;
    }
    assert(found.deep_view() =~= containers@.map_values(
        |container: ElementRef<'static>| container_fields(container),
    ));
    found
}

impl IndeedProvider {
    /// The provider for the site of `region`.
    pub fn new(region: Regions) -> (provider: Self)
        ensures
            provider.provider_info.name@ == "Indeed"@,
            provider.provider_info.base_domain_url@ == "indeed.com"@,
            provider.provider_info.region == region,
    {
        Self {
            provider_info: JobProviderInfo {
                name: "Indeed",
                base_domain_url: "indeed.com",
                region,
            },
        }
    }
}

impl JobScrapper for IndeedProvider {
    open spec fn domain(&self) -> Seq<char> {
        site_of(self.provider_info.region)
    }

    open spec fn search_address(&self, query: JobQuery) -> Seq<char> {
        self.domain() + "/jobs?q="@ + query.term()
    }

    open spec fn listings(&self, content: Seq<char>) -> Seq<Listing> {
        listings_of(self.domain(), page_fields(content))
    }

    /// One listing for each container of the page that has a title with
    /// text in it and a linked anchor, in the order of the containers.
    /// There are no more listings than containers, so none for a page
    /// without containers, and each has a name and an address.
    fn find_job_titles(&self, content: &str) -> (found: Vec<JobTitle>)
        ensures
            found@.len() <= containers_in(content@).len(),
            forall|j: int| 0 <= j < found@.len() ==> (#[trigger] found@[j]).name@.len() > 0,
            forall|j: int| 0 <= j < found@.len() ==> (#[trigger] found@[j]).url@.len() > 0,
    {
        let domain = self.get_domain();
        let found = assemble_listings(domain.as_str(), scan_page(content));
        proof {
            lemma_site_has_address(self.provider_info.region);
            lemma_listings_of_len(self.domain(), page_fields(content@));
            lemma_listings_have_urls(self.domain(), page_fields(content@));
            lemma_listings_have_names(self.domain(), page_fields(content@));
            assert forall|j: int| 0 <= j < found@.len() implies (#[trigger] found@[j]).name@.len()
                > 0 && found@[j].url@.len() > 0 by {
                assert(found.deep_view()[j] == found@[j].deep_view());
            }
        }
        found
    }

    /// The site's address, the search path and the term, as it is given.
    fn search_url(&self, query: &JobQuery) -> (url: String) {
        let search = match query.search {
            Some(text) => text,
            None => "",
        };
        proof {
            reveal_strlit("");
            assert(""@ =~= Seq::<char>::empty());
        }
        self.get_domain().concat("/jobs?q=").concat(search)
    }

    fn get_domain(&self) -> (domain: String) {
        let host = match self.provider_info.region {
            Regions::AR => "ar.indeed.com",
            Regions::EC => "ec.indeed.com",
        };
        String::from_str("https://").concat(host)
    }
}

/// A page without a container holds no listing.
pub proof fn lemma_page_without_containers(provider: IndeedProvider, content: Seq<char>)
    requires
        containers_in(content).len() == 0,
    ensures
        provider.listings(content) == Seq::<Listing>::empty(),
{
    assert(listings_of(provider.domain(), page_fields(content)) =~= Seq::<Listing>::empty());
}

/// Every listing of a page has an address.
pub proof fn lemma_page_listings_have_urls(provider: IndeedProvider, content: Seq<char>)
    ensures
        forall|j: int|
            0 <= j < provider.listings(content).len() ==> (#[trigger] provider.listings(
                content,
            )[j]).url.len() > 0,
{
    lemma_site_has_address(provider.provider_info.region);
    lemma_listings_have_urls(provider.domain(), page_fields(content));
}

/// The address of every listing of a page begins with the address of the
/// provider's site.
pub proof fn lemma_page_urls_begin_with_domain(provider: IndeedProvider, content: Seq<char>)
    ensures
        forall|j: int|
            0 <= j < provider.listings(content).len() ==> provider.domain().is_prefix_of(
                (#[trigger] provider.listings(content)[j]).url,
            ),
{
    lemma_urls_begin_with_domain(provider.domain(), page_fields(content));
}

/// Every listing of a page has a name.
pub proof fn lemma_page_listings_have_names(provider: IndeedProvider, content: Seq<char>)
    ensures
        forall|j: int|
            0 <= j < provider.listings(content).len() ==> (#[trigger] provider.listings(
                content,
            )[j]).name.len() > 0,
{
    lemma_listings_have_names(provider.domain(), page_fields(content));
}

/// A text too long to be parsed holds no listing.
pub proof fn lemma_unreadable_page(provider: IndeedProvider, content: Seq<char>)
    requires
        !is_readable(content),
    ensures
        provider.listings(content) == Seq::<Listing>::empty(),
{
    lemma_page_without_containers(provider, content);
}

/// A page whose containers all have a title with text in it and a linked
/// anchor holds one listing for each container.
pub proof fn lemma_page_of_complete_containers(provider: IndeedProvider, content: Seq<char>)
    requires
        forall|i: int|
            0 <= i < containers_in(content).len() ==> is_complete(
                container_fields(#[trigger] containers_in(content)[i]),
            ),
    ensures
        provider.listings(content).len() == containers_in(content).len(),
        forall|i: int|
            0 <= i < containers_in(content).len() ==> #[trigger] provider.listings(content)[i]
                == listing_of(provider.domain(), container_fields(containers_in(content)[i])),
{
    let found = page_fields(content);
    assert forall|i: int| 0 <= i < found.len() implies is_complete(#[trigger] found[i]) by {
        assert(found[i] == container_fields(containers_in(content)[i]));
    }
    lemma_all_complete(provider.domain(), found);
}

} // verus!
