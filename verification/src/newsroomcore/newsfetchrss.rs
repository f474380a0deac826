use vstd::prelude::*;

use crate::newsroomcore::datasources::{DataSourceView, DataSources};
use crate::newsroomcore::newsarticle::{ArticleView, NewsArticle};
use rand::seq::SliceRandom;

verus! {

/// The fields this reader cares about in one raw feed entry, each absent
/// when the feed omits it.
#[derive(Debug, PartialEq)]
pub struct FeedItem {
    pub author: Option<String>,
    pub title: Option<String>,
    pub description: Option<String>,
    pub link: Option<String>,
}

/// The content of a `FeedItem` value.
pub ghost struct FeedItemView {
    pub author: Option<Seq<char>>,
    pub title: Option<Seq<char>>,
    pub description: Option<Seq<char>>,
    pub link: Option<Seq<char>>,
}

impl View for FeedItem {
    type V = FeedItemView;

    open spec fn view(&self) -> FeedItemView {
        FeedItemView {
            author: self.author.deep_view(),
            title: self.title.deep_view(),
            description: self.description.deep_view(),
            link: self.link.deep_view(),
        }
    }
}

impl DeepView for FeedItem {
    type V = FeedItemView;

    open spec fn deep_view(&self) -> FeedItemView {
        self.view()
    }
}

/// A missing feed field becomes the empty string.
pub open spec fn or_empty(field: Option<Seq<char>>) -> Seq<char> {
    match field {
        Some(s) => s,
        None => Seq::empty(),
    }
}

/// The article one feed entry normalizes to: missing author, title or link
/// degrade to empty strings, and the entry is tagged with its source.
pub open spec fn article_of(item: FeedItemView, source: DataSourceView) -> ArticleView {
    ArticleView {
        authors: seq![or_empty(item.author)],
        title: or_empty(item.title),
        summary: or_empty(item.description),
        link: or_empty(item.link),
        source: source,
    }
}

/// The article list a whole feed normalizes to: entries with a description
/// are kept in order, entries without one are dropped.
pub open spec fn articles_of(items: Seq<FeedItemView>, source: DataSourceView) -> Seq<ArticleView>
    decreases items.len(),
{
    if items.len() == 0 {
        Seq::empty()
    } else {
        let rest = articles_of(items.drop_last(), source);
        if items.last().description is Some {
            rest.push(article_of(items.last(), source))
        } else {
            rest
        }
    }
}

/// The entry list the feed parser extracts from a document: a function of
/// the bytes alone, or nothing when they are not a well-formed feed.
pub uninterp spec fn parsed_feed(bytes: Seq<u8>) -> Option<Seq<FeedItemView>>;

/// Relies on rss::Channel::read_from to parse a feed document, and on the
/// rss item accessors to pick out each entry's author, title, description
/// and link. The outcome is a function of the bytes alone.
#[verifier::external_body]
fn parse_feed(bytes: &Vec<u8>) -> (r: Option<Vec<FeedItem>>)
    ensures
        r.deep_view() == parsed_feed(bytes@),
{
    let channel = match rss::Channel::read_from(&bytes[..]) {
        Ok(c) => c,
        Err(_) => return None,
    };
    Some(channel.items().iter().map(|item| FeedItem {
        author: item.author().map(str::to_string),
        title: item.title().map(str::to_string),
        description: item.description().map(str::to_string),
        link: item.link().map(str::to_string),
    }).collect())
}

/// Reformats raw feed entries into news articles, exactly as `articles_of`
/// describes: entries without a description are skipped, every other
/// missing field becomes an empty string, and each article carries the
/// given source.
pub fn channel_to_articles(items: Vec<FeedItem>, source: &DataSources) -> (articles: Vec<
    NewsArticle,
>)
    ensures
        articles.deep_view() == articles_of(items.deep_view(), source@),
{
    let mut articles: Vec<NewsArticle> = Vec::new();
    let mut i: usize = 0;
    while i < items.len()
        invariant
            i <= items.len(),
            articles.deep_view() =~= articles_of(items.deep_view().take(i as int), source@),
        decreases items.len() - i,
    {
        let ghost pre = articles.deep_view();
        let item = &items[i];
        match &item.description {
            Some(description) => {
                let author = match &item.author {
                    Some(a) => a.clone(),
                    None => String::new(),
                };
                let mut authors: Vec<String> = Vec::new();
                authors.push(author);
                let title = match &item.title {
                    Some(t) => t.clone(),
                    None => String::new(),
                };
                let summary = description.clone();
                let link = match &item.link {
                    Some(l) => l.clone(),
                    None => String::new(),
                };
                let article = NewsArticle { authors, title, summary, link, source: source.clone() };
                proof {
                    assert(article@.authors =~= article_of(items.deep_view()[i as int], source@)
                        .authors);
                    assert(article@ == article_of(items.deep_view()[i as int], source@));
                }
                articles.push(article);
            },
            None => {},
        }
        i = i + 1;
        proof {
            let items_v = items.deep_view();
            assert(items_v.take(i as int).drop_last() =~= items_v.take(i - 1));
            assert(items_v.take(i as int).last() == items_v[i - 1]);
            if items_v[i - 1].description is Some {
                assert(articles.deep_view() =~= pre.push(article_of(items_v[i - 1], source@)));
            }
        }
    }
    proof {
        assert(items.deep_view().take(items.len() as int) =~= items.deep_view());
    }
    articles
}

/// Normalizes a fetched feed document: the articles of the entries that
/// `parsed_feed` finds in the bytes, and no articles at all when the bytes
/// are not a well-formed feed.
pub fn articles_from_feed(bytes: &Vec<u8>, source: &DataSources) -> (articles: Vec<NewsArticle>)
    ensures
        match parsed_feed(bytes@) {
            Some(items) => articles.deep_view() == articles_of(items, source@),
            None => articles.deep_view() == Seq::<ArticleView>::empty(),
        },
{
    match parse_feed(bytes) {
        Some(items) => channel_to_articles(items, source),
        None => {
            let empty: Vec<NewsArticle> = Vec::new();
            proof {
                assert(empty.deep_view() =~= Seq::<ArticleView>::empty());
            }
            empty
        },
    }
}

#[verifier::external_type_specification]
#[verifier::external_body]
pub struct ExThreadRng(rand::rngs::ThreadRng);

/// Relies on rand::thread_rng: hands out the thread-local generator.
#[verifier::external_body]
fn fresh_rng() -> rand::rngs::ThreadRng {
    rand::thread_rng()
}

/// Relies on rand's SliceRandom::shuffle: it permutes the slice in place
/// by a sequence of swaps, so exactly the same articles remain, in an
/// order that depends on the generator.
#[verifier::external_body]
fn shuffle_articles(rng: &mut rand::rngs::ThreadRng, articles: &mut Vec<NewsArticle>)
    ensures
        final(articles)@.len() == old(articles)@.len(),
        final(articles).deep_view().to_multiset() == old(articles).deep_view().to_multiset(),
{
    articles.shuffle(rng);
}

/// The aggregation step once every source has reported: the combined list
/// is shuffled so that no single source dominates the top of the display.
/// Exactly the collected articles come back, in some order.
pub fn finalize_aggregate(articles: Vec<NewsArticle>) -> (shuffled: Vec<NewsArticle>)
    ensures
        shuffled.deep_view().len() == articles.deep_view().len(),
        shuffled.deep_view().to_multiset() == articles.deep_view().to_multiset(),
{
    let mut shuffled = articles;
    let mut rng = fresh_rng();
    shuffle_articles(&mut rng, &mut shuffled);
    shuffled
}

} // verus!
