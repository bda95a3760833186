//! From what a page holds to listings.
//!
//! A search page wraps each posting in a container. What a provider finds
//! in one container is a `ContainerFields`; whether that makes a listing,
//! and which, is decided here.

use vstd::prelude::*;
use vstd::string::*;
use crate::providers::{JobTitle, Listing};
use crate::text::{join_lines, joined_lines};

verus! {

/// What was found in one container. Each part may be missing.
#[derive(Debug, PartialEq, Eq)]
pub struct ContainerFields {
    /// The text of the first title element. It is empty where the element
    /// holds no text.
    pub title: Option<String>,
    /// The text of the first footer detail element.
    pub footer: Option<String>,
    /// The text of each bullet list, in document order.
    pub bullets: Vec<String>,
    /// The text of the first salary element.
    pub salary: Option<String>,
    /// The link target of the first anchor. A container without an anchor
    /// has none, and so has one whose first anchor has no target.
    pub link: Option<String>,
}

/// A container's fields as contracts see them.
pub struct Fields {
    pub title: Option<Seq<char>>,
    pub footer: Option<Seq<char>>,
    pub bullets: Seq<Seq<char>>,
    pub salary: Option<Seq<char>>,
    pub link: Option<Seq<char>>,
}

impl DeepView for ContainerFields {
    type V = Fields;

    open spec fn deep_view(&self) -> Fields {
        Fields {
            title: self.title.deep_view(),
            footer: self.footer.deep_view(),
            bullets: self.bullets.deep_view(),
            salary: self.salary.deep_view(),
            link: self.link.deep_view(),
        }
    }
}

/// The description: the footer detail where there is one, else the bullet
/// lists, one to a line. Without either it is empty.
pub open spec fn description_of(footer: Option<Seq<char>>, bullets: Seq<Seq<char>>) -> Seq<char> {
    match footer {
        Some(text) => text,
        None => joined_lines(bullets),
    }
}

/// A container makes a listing when it has a title with text in it, and a
/// link.
pub open spec fn is_complete(fields: Fields) -> bool {
    fields.title matches Some(text) && text.len() > 0 && fields.link is Some
}

/// The listing that a complete container makes on the site `domain`.
pub open spec fn listing_of(domain: Seq<char>, fields: Fields) -> Listing
    recommends
        is_complete(fields),
{
    Listing {
        name: fields.title->0,
        description: description_of(fields.footer, fields.bullets),
        url: domain + fields.link->0,
        salary_info: fields.salary,
    }
}

/// The listings of the complete containers among `found`, in their order.
/// The others make none.
pub open spec fn listings_of(domain: Seq<char>, found: Seq<Fields>) -> Seq<Listing>
    decreases found.len(),
{
    if found.len() == 0 {
        Seq::empty()
    } else if is_complete(found.last()) {
        listings_of(domain, found.drop_last()).push(listing_of(domain, found.last()))
    } else {
        listings_of(domain, found.drop_last())
    }
}

/// Chooses the description of a container.
pub fn describe(footer: Option<String>, bullets: &Vec<String>) -> (description: String)
    ensures
        description@ == description_of(footer.deep_view(), bullets.deep_view()),
{
    match footer {
        Some(text) => text,
        None => join_lines(bullets),
    }
}

/// Makes the listing of one container, or none where the title or the link
/// is missing, or the title is without text.
pub fn build_listing(domain: &str, fields: ContainerFields) -> (made: Option<JobTitle>)
    ensures
        made is Some <==> is_complete(fields.deep_view()),
        made matches Some(listing) ==> listing.deep_view() == listing_of(
            domain@,
            fields.deep_view(),
        ),
{
    let ContainerFields { title, footer, bullets, salary, link } = fields;
    match (title, link) {
        (Some(name), Some(target)) => {
            if name.as_str().is_empty() {
                None
            } else {
                let description = describe(footer, &bullets);
                let url = String::from_str(domain).concat(target.as_str());
                Some(JobTitle { name, description, url, salary_info: salary })
            }
        },
        _ => None,
    }
}

/// Makes the listings of a page's containers: one for each complete
/// container, in the order of the containers; the others are passed over.
pub fn assemble_listings(domain: &str, found: Vec<ContainerFields>) -> (listings: Vec<JobTitle>)
    ensures
        listings.deep_view() == listings_of(domain@, found.deep_view()),
{
    let ghost items = found@;
    let ghost all = found.deep_view();
    let mut listings: Vec<JobTitle> = Vec::new();
    for fields in iter: found
        invariant
            iter.seq() == items,
            all.len() == items.len(),
            forall|k: int| 0 <= k < items.len() ==> all[k] == #[trigger] items[k].deep_view(),
            listings.deep_view() == listings_of(domain@, all.take(iter.index() as int)),
    {
        proof {
            let n = iter.index() as int;
            assert(all.take(n + 1).drop_last() == all.take(n));
            assert(all.take(n + 1).last() == fields.deep_view());
        }
        let ghost before = listings.deep_view();
        match build_listing(domain, fields) {
            Some(listing) => {
                listings.push(listing);
                assert(listings.deep_view() == before.push(listing.deep_view()));
            },
            None => {},
        }
    }
    proof {
        assert(all.take(items.len() as int) == all);
    }
    listings
}

/// Containers are judged one by one: the listings of a page in two parts
/// are those of the first part, then those of the second.
pub proof fn lemma_listings_of_parts(domain: Seq<char>, first: Seq<Fields>, second: Seq<Fields>)
    ensures
        listings_of(domain, first + second) == listings_of(domain, first) + listings_of(
            domain,
            second,
        ),
    decreases second.len(),
{
    if second.len() == 0 {
        assert(first + second == first);
    } else {
        lemma_listings_of_parts(domain, first, second.drop_last());
        assert((first + second).drop_last() == first + second.drop_last());
        assert((first + second).last() == second.last());
    }
}

/// Without containers there are no listings.
pub proof fn lemma_no_container_no_listing(domain: Seq<char>, found: Seq<Fields>)
    requires
        found.len() == 0,
    ensures
        listings_of(domain, found).len() == 0,
{
}

/// There are never more listings than containers.
pub proof fn lemma_listings_of_len(domain: Seq<char>, found: Seq<Fields>)
    ensures
        listings_of(domain, found).len() <= found.len(),
    decreases found.len(),
{
    if found.len() > 0 {
        lemma_listings_of_len(domain, found.drop_last());
    }
}

/// Where every container is complete, each makes its listing: there are as
/// many listings as containers, the `i`-th from the `i`-th.
pub proof fn lemma_all_complete(domain: Seq<char>, found: Seq<Fields>)
    requires
        forall|i: int| 0 <= i < found.len() ==> is_complete(#[trigger] found[i]),
    ensures
        listings_of(domain, found).len() == found.len(),
        forall|i: int|
            0 <= i < found.len() ==> #[trigger] listings_of(domain, found)[i] == listing_of(
                domain,
                found[i],
            ),
    decreases found.len(),
{
    if found.len() > 0 {
        lemma_all_complete(domain, found.drop_last());
    }
}

/// Every listing is the listing of a complete container.
pub proof fn lemma_listing_has_container(domain: Seq<char>, found: Seq<Fields>, j: int) -> (i: int)
    requires
        0 <= j < listings_of(domain, found).len(),
    ensures
        0 <= i < found.len(),
        is_complete(found[i]),
        listings_of(domain, found)[j] == listing_of(domain, found[i]),
    decreases found.len(),
{
    if is_complete(found.last()) && j == listings_of(domain, found.drop_last()).len() {
        found.len() - 1
    } else {
        lemma_listing_has_container(domain, found.drop_last(), j)
    }
}

/// A listing on a site with an address has an address of its own, whatever
/// its container holds.
pub proof fn lemma_listings_have_urls(domain: Seq<char>, found: Seq<Fields>)
    requires
        domain.len() > 0,
    ensures
        forall|j: int|
            0 <= j < listings_of(domain, found).len() ==> (#[trigger] listings_of(
                domain,
                found,
            )[j]).url.len() > 0,
{
    assert forall|j: int| 0 <= j < listings_of(domain, found).len() implies (#[trigger] listings_of(
        domain,
        found,
    )[j]).url.len() > 0 by {
        let i = lemma_listing_has_container(domain, found, j);
    }
}

/// The address of every listing begins with the address of the site.
pub proof fn lemma_urls_begin_with_domain(domain: Seq<char>, found: Seq<Fields>)
    ensures
        forall|j: int|
            0 <= j < listings_of(domain, found).len() ==> domain.is_prefix_of(
                (#[trigger] listings_of(domain, found)[j]).url,
            ),
{
    assert forall|j: int| 0 <= j < listings_of(domain, found).len() implies domain.is_prefix_of(
        (#[trigger] listings_of(domain, found)[j]).url,
    ) by {
        let i = lemma_listing_has_container(domain, found, j);
        let link = found[i].link->0;
        assert((domain + link).subrange(0, domain.len() as int) =~= domain);
    }
}

/// Every listing has a name, whatever the containers hold.
pub proof fn lemma_listings_have_names(domain: Seq<char>, found: Seq<Fields>)
    ensures
        forall|j: int|
            0 <= j < listings_of(domain, found).len() ==> (#[trigger] listings_of(
                domain,
                found,
            )[j]).name.len() > 0,
{
    assert forall|j: int| 0 <= j < listings_of(domain, found).len() implies (#[trigger] listings_of(
        domain,
        found,
    )[j]).name.len() > 0 by {
        let i = lemma_listing_has_container(domain, found, j);
    }
}

/// A container with a title that has text and a link, but with neither
/// footer detail nor bullet list, makes a listing with an empty
/// description.
pub proof fn lemma_bare_container(domain: Seq<char>, fields: Fields)
    requires
        is_complete(fields),
        fields.footer is None,
        fields.bullets.len() == 0,
    ensures
        listings_of(domain, seq![fields]) == seq![listing_of(domain, fields)],
        listing_of(domain, fields).description == Seq::<char>::empty(),
{
    lemma_all_complete(domain, seq![fields]);
    assert(listings_of(domain, seq![fields]) =~= seq![listing_of(domain, fields)]);
}

/// The footer detail, where there is one, is the description, whatever the
/// bullet lists hold.
pub proof fn lemma_footer_comes_first(domain: Seq<char>, fields: Fields)
    requires
        fields.footer is Some,
    ensures
        listing_of(domain, fields).description == fields.footer->0,
{
}

/// A container without a title, with a title without text, or without a
/// link, is passed over: the page has the listings that it would have
/// without that container, whatever else the container holds.
pub proof fn lemma_incomplete_container_is_dropped(
    domain: Seq<char>,
    before: Seq<Fields>,
    fields: Fields,
    after: Seq<Fields>,
)
    requires
        !is_complete(fields),
    ensures
        listings_of(domain, before + seq![fields] + after) == listings_of(domain, before + after),
{
    lemma_listings_of_parts(domain, before + seq![fields], after);
    lemma_listings_of_parts(domain, before, seq![fields]);
    lemma_listings_of_parts(domain, before, after);
    assert(listings_of(domain, seq![fields]) == Seq::<Listing>::empty()) by {
        assert(seq![fields].last() == fields);
        assert(seq![fields].drop_last() == Seq::<Fields>::empty());
        assert(listings_of(domain, Seq::<Fields>::empty()) == Seq::<Listing>::empty());
    }
    assert(listings_of(domain, before) + Seq::<Listing>::empty() == listings_of(domain, before));
}

} // verus!
