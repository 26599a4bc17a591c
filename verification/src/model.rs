//! Typed model of one page of search results: the header with the total hit
//! count, and the list of hits, each carrying one article with its
//! identifiers and nested web links.

use vstd::prelude::*;

verus! {

use vstd::arithmetic::div_mod::{lemma_fundamental_div_mod, lemma_fundamental_div_mod_converse};

/// Header of a search response: hit counts and the record range, as the
/// server reports them.
#[derive(Debug)]
pub struct HeaderElement {
    pub num_hits: usize,
    pub total_hits: usize,
    pub records: String,
}

/// The `result` element of a response: it wraps the header.
pub struct ResultElement {
    pub header: HeaderElement,
}

/// The identifiers attached to one article.
#[derive(Debug)]
pub struct Identifiers {
    pub issn: String,
    pub catalogue_number: String,
    pub cellar_id: String,
    pub issue: String,
}

impl Clone for Identifiers {
    fn clone(&self) -> (res: Self)
        ensures
            res == *self,
    {
        Identifiers {
            issn: self.issn.clone(),
            catalogue_number: self.catalogue_number.clone(),
            cellar_id: self.cellar_id.clone(),
            issue: self.issue.clone(),
        }
    }
}

impl Identifiers {
    /// The magazine issue code, used as the output file name stem.
    pub fn issue(&self) -> (r: &str)
        ensures
            r@ == self.issue@,
    {
        self.issue.as_str()
    }
}

/// A typed external reference attached to an association: a type tag and a
/// physical URL, plus descriptive fields.
#[derive(Debug)]
pub struct WebLinkElement {
    pub typ: String,
    pub title: String,
    pub id: String,
    pub language: String,
    pub phys_url: String,
}

impl Clone for WebLinkElement {
    fn clone(&self) -> (res: Self)
        ensures
            res == *self,
    {
        WebLinkElement {
            typ: self.typ.clone(),
            title: self.title.clone(),
            id: self.id.clone(),
            language: self.language.clone(),
            phys_url: self.phys_url.clone(),
        }
    }
}

/// One association inside a relation: a list of web links.
#[derive(Debug)]
pub struct Association {
    pub weblinks: Vec<WebLinkElement>,
}

/// The `relations` element of an article: a list of associations.
#[derive(Debug)]
pub struct RelationsElement {
    pub associations: Vec<Association>,
}

/// One magazine article: its title, its nested relations, and its
/// identifiers. Immutable once built from a response.
#[derive(Debug)]
pub struct Article {
    pub title: String,
    pub relations: Vec<RelationsElement>,
    pub identifiers: Identifiers,
}

/// All web links of one association, in document order.
pub open spec fn links_of_association(a: Association) -> Seq<WebLinkElement> {
    a.weblinks@
}

/// All web links of a list of associations, flattened in document order.
pub open spec fn links_of_associations(assocs: Seq<Association>) -> Seq<WebLinkElement>
    decreases assocs.len(),
{
    if assocs.len() == 0 {
        Seq::empty()
    } else {
        links_of_associations(assocs.drop_last()) + links_of_association(assocs.last())
    }
}

/// All web links of a list of relations, flattened in document order.
pub open spec fn links_of_relations(rels: Seq<RelationsElement>) -> Seq<WebLinkElement>
    decreases rels.len(),
{
    if rels.len() == 0 {
        Seq::empty()
    } else {
        links_of_relations(rels.drop_last()) + links_of_associations(rels.last().associations@)
    }
}

/// All web links of one article, across all relations and associations, in
/// document order.
pub open spec fn article_links(a: Article) -> Seq<WebLinkElement> {
    links_of_relations(a.relations@)
}

/// Whether a web link carries the given type tag.
pub open spec fn has_type(l: WebLinkElement, tag: Seq<char>) -> bool {
    l.typ@ == tag
}

impl Article {
    /// The identifiers of this article.
    pub fn identifiers(&self) -> (r: &Identifiers)
        ensures
            r == &self.identifiers,
    {
        &self.identifiers
    }

    /// Every web link found in any association of any relation, in document
    /// order.
    pub fn weblinks(&self) -> (r: Vec<WebLinkElement>)
        ensures
            r@ == article_links(*self),
    {
        let mut r: Vec<WebLinkElement> = Vec::new();
        let rels: &Vec<RelationsElement> = &self.relations;
        let mut i: usize = 0;
        while i < rels.len()
            invariant
                i <= rels.len(),
                rels == &self.relations,
                r@ == links_of_relations(rels@.take(i as int)),
            decreases rels.len() - i,
        {
            let assocs: &Vec<Association> = &rels[i].associations;
            let mut j: usize = 0;
            while j < assocs.len()
                invariant
                    i < rels.len(),
                    j <= assocs.len(),
                    rels == &self.relations,
                    assocs == &rels@[i as int].associations,
                    r@ == links_of_relations(rels@.take(i as int))
                        + links_of_associations(assocs@.take(j as int)),
                decreases assocs.len() - j,
            {
                let links: &Vec<WebLinkElement> = &assocs[j].weblinks;
                let mut k: usize = 0;
                while k < links.len()
                    invariant
                        i < rels.len(),
                        j < assocs.len(),
                        k <= links.len(),
                        rels == &self.relations,
                        assocs == &rels@[i as int].associations,
                        links == &assocs@[j as int].weblinks,
                        r@ == links_of_relations(rels@.take(i as int))
                            + links_of_associations(assocs@.take(j as int))
                            + links@.take(k as int),
                    decreases links.len() - k,
                {
                    r.push(links[k].clone());
                    proof {
                        assert(links@.take(k + 1 as int) =~= links@.take(k as int).push(
                            links@[k as int],
                        ));
                    }
                    k += 1;
                }
                proof {
                    assert(links@.take(links@.len() as int) =~= links@);
                    assert(assocs@.take(j + 1 as int).drop_last() =~= assocs@.take(j as int));
                    assert(assocs@.take(j + 1 as int).last() == assocs@[j as int]);
                }
                j += 1;
            }
            proof {
                assert(assocs@.take(assocs@.len() as int) =~= assocs@);
                assert(rels@.take(i + 1 as int).drop_last() =~= rels@.take(i as int));
                assert(rels@.take(i + 1 as int).last() == rels@[i as int]);
            }
            i += 1;
        }
        proof {
            assert(rels@.take(rels@.len() as int) =~= rels@);
        }
        r
    }

    /// Every web link of this article whose type tag equals `type_tag`, in
    /// document order; empty when none matches.
    pub fn weblinks_of(&self, type_tag: &str) -> (r: Vec<WebLinkElement>)
        ensures
            r@ == article_links(*self).filter(|l: WebLinkElement| has_type(l, type_tag@)),
    {
        let tag: String = type_tag.to_owned();
        let all = self.weblinks();
        let ghost pred = |l: WebLinkElement| has_type(l, type_tag@);
        let mut r: Vec<WebLinkElement> = Vec::new();
        let mut i: usize = 0;
        proof {
            assert(all@.take(0) =~= Seq::<WebLinkElement>::empty());
            assert(all@.take(0).filter(pred) =~= Seq::<WebLinkElement>::empty()) by {
                reveal(Seq::filter);
            }
        }
        while i < all.len()
            invariant
                i <= all.len(),
                all@ == article_links(*self),
                tag@ == type_tag@,
                pred == (|l: WebLinkElement| has_type(l, type_tag@)),
                r@ == all@.take(i as int).filter(pred),
            decreases all.len() - i,
        {
            let keep = all[i].typ == tag;
            if keep {
                r.push(all[i].clone());
            }
            proof {
                assert(all@.take(i + 1 as int) =~= all@.take(i as int).push(all@[i as int]));
                all@.take(i as int).lemma_filter_push(all@[i as int], pred);
            }
            i += 1;
        }
        proof {
            assert(all@.take(all@.len() as int) =~= all@);
        }
        r
    }
}

/// The first web link of the given type among `links`, in document order, if
/// any matches.
pub open spec fn first_link_of_type(links: Seq<WebLinkElement>, tag: Seq<char>) -> Option<
    WebLinkElement,
>
    decreases links.len(),
{
    if links.len() == 0 {
        None
    } else if has_type(links.first(), tag) {
        Some(links.first())
    } else {
        first_link_of_type(links.drop_first(), tag)
    }
}

/// When no link of `links` carries the tag, the filtered sequence is empty
/// and there is no first link of that type.
pub proof fn lemma_no_link_of_type(links: Seq<WebLinkElement>, tag: Seq<char>)
    requires
        forall|i: int| 0 <= i < links.len() ==> !has_type(#[trigger] links[i], tag),
    ensures
        links.filter(|l: WebLinkElement| has_type(l, tag)) == Seq::<WebLinkElement>::empty(),
        first_link_of_type(links, tag) is None,
    decreases links.len(),
{
    reveal(Seq::filter);
    if links.len() > 0 {
        lemma_no_link_of_type(links.drop_last(), tag);
        assert(links.drop_first().len() == links.len() - 1);
        lemma_no_link_of_type(links.drop_first(), tag);
    }
}

/// The first link of a type is the head of the sequence of all links of that
/// type: one exists exactly when the filtered sequence is not empty.
pub proof fn lemma_first_link_of_type_is_head_of_filter(
    links: Seq<WebLinkElement>,
    tag: Seq<char>,
)
    ensures
        first_link_of_type(links, tag) == (if links.filter(
            |l: WebLinkElement| has_type(l, tag),
        ).len() == 0 {
            None::<WebLinkElement>
        } else {
            Some(links.filter(|l: WebLinkElement| has_type(l, tag))[0])
        }),
    decreases links.len(),
{
    reveal(Seq::filter);
    let pred = |l: WebLinkElement| has_type(l, tag);
    if links.len() > 0 {
        lemma_first_link_of_type_is_head_of_filter(links.drop_last(), tag);
        if links.len() == 1 {
            assert(links.drop_last().filter(pred) =~= Seq::<WebLinkElement>::empty());
            assert(links.first() == links.last());
        } else {
            assert(links.drop_last().first() == links.first());
            assert(links.drop_last().drop_first() =~= links.drop_first().drop_last());
            lemma_first_link_of_type_is_head_of_filter(links.drop_first(), tag);
            lemma_first_link_of_type_is_head_of_filter(links.drop_first().drop_last(), tag);
        }
    }
}

/// One search hit: the relevance score as the server printed it, and the
/// article itself. The score is kept as text because nothing here computes
/// with it.
#[derive(Debug)]
pub struct Hit {
    pub score: String,
    pub article: Article,
}

impl Hit {
    /// The article of this hit.
    pub fn article(&self) -> (r: &Article)
        ensures
            r == &self.article,
    {
        &self.article
    }
}

/// The `hits` element of a response: the list of hits of one page.
#[derive(Debug)]
pub struct HitsElement {
    pub hits: Vec<Hit>,
}

/// One page of search results, together with the page size that was
/// requested of the server. Pagination arithmetic uses that same page size,
/// so the derived page count matches the pages the server will serve.
pub struct SearchResponse {
    pub result: ResultElement,
    pub hits: HitsElement,
    pub page_size: usize,
}

/// Number of result pages needed to cover `total_hits` hits when the server
/// returns at most `page_size` hits per page: the ceiling of the quotient.
pub open spec fn spec_num_pages(total_hits: nat, page_size: nat) -> nat {
    if total_hits % page_size == 0 {
        total_hits / page_size
    } else {
        total_hits / page_size + 1
    }
}

/// The derived page count is the ceiling of `total_hits / page_size`, and
/// the floor exactly when `total_hits` is a multiple of `page_size`.
pub proof fn lemma_num_pages_is_ceil(total_hits: nat, page_size: nat)
    requires
        page_size > 0,
    ensures
        spec_num_pages(total_hits, page_size) == (total_hits as int + page_size as int - 1) / (
        page_size as int),
        total_hits % page_size == 0 ==> spec_num_pages(total_hits, page_size) == total_hits
            / page_size,
{
    let t = total_hits as int;
    let p = page_size as int;
    let q = t / p;
    let r = t % p;
    lemma_fundamental_div_mod(t, p);
    if r == 0 {
        assert(t + p - 1 == q * p + (p - 1));
        lemma_fundamental_div_mod_converse(t + p - 1, p, q, p - 1);
    } else {
        assert(t + p - 1 == (q + 1) * p + (r - 1)) by (nonlinear_arith)
            requires
                t == q * p + r,
        ;
        lemma_fundamental_div_mod_converse(t + p - 1, p, q + 1, r - 1);
    }
}

impl SearchResponse {
    /// The total number of hits the query matches, from the response header.
    pub fn total_hits(&self) -> (r: usize)
        ensures
            r == self.result.header.total_hits,
    {
        self.result.header.total_hits
    }

    /// The number of pages to request, at this response's page size, to
    /// receive every hit: the ceiling of `total_hits / page_size`.
    pub fn num_pages(&self) -> (r: usize)
        requires
            self.page_size > 0,
        ensures
            r == spec_num_pages(self.result.header.total_hits as nat, self.page_size as nat),
    {
        let total_hits = self.total_hits();
        if total_hits % self.page_size == 0 {
            total_hits / self.page_size
        } else {
            proof {
                assert(self.page_size != 1) by {
                    assert(total_hits as int % 1int == 0) by (nonlinear_arith);
                }
                assert(total_hits as int / self.page_size as int <= total_hits as int / 2) by {
                    vstd::arithmetic::div_mod::lemma_div_is_ordered_by_denominator(
                        total_hits as int,
                        2,
                        self.page_size as int,
                    );
                }
            }
            total_hits / self.page_size + 1
        }
    }

    /// The hits of this page.
    pub fn hits(&self) -> (r: &Vec<Hit>)
        ensures
            r == &self.hits.hits,
    {
        &self.hits.hits
    }

    /// The articles of this page, in response order.
    pub fn articles(&self) -> (r: Vec<&Article>)
        ensures
            r@.len() == self.hits.hits@.len(),
            forall|i: int| 0 <= i < r@.len() ==> r@[i] == &self.hits.hits@[i].article,
    {
        let hits: &Vec<Hit> = self.hits();
        let mut r: Vec<&Article> = Vec::new();
        let mut i: usize = 0;
        while i < hits.len()
            invariant
                i <= hits.len(),
                hits == &self.hits.hits,
                r@.len() == i,
                forall|j: int| 0 <= j < i ==> r@[j] == &self.hits.hits@[j].article,
            decreases hits.len() - i,
        {
            r.push(hits[i].article());
            i += 1;
        }
        r
    }
}

} // verus!
