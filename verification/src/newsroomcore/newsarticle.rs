use vstd::prelude::*;

use crate::newsroomcore::datasources::{DataSourceView, DataSources};

verus! {

/// One normalized feed entry: the data the reader cares about, extracted
/// from a feed item, together with the source that produced it. Immutable
/// after creation.
#[derive(Debug, PartialEq)]
pub struct NewsArticle {
    pub authors: Vec<String>,
    pub title: String,
    pub summary: String,
    pub link: String,
    pub source: DataSources,
}

/// The content of a `NewsArticle` value, all strings as character sequences.
pub ghost struct ArticleView {
    pub authors: Seq<Seq<char>>,
    pub title: Seq<char>,
    pub summary: Seq<char>,
    pub link: Seq<char>,
    pub source: DataSourceView,
}

impl View for NewsArticle {
    type V = ArticleView;

    open spec fn view(&self) -> ArticleView {
        ArticleView {
            authors: self.authors.deep_view(),
            title: self.title@,
            summary: self.summary@,
            link: self.link@,
            source: self.source@,
        }
    }
}

impl DeepView for NewsArticle {
    type V = ArticleView;

    open spec fn deep_view(&self) -> ArticleView {
        self.view()
    }
}

impl Clone for NewsArticle {
    /// Cloning an article preserves every field.
    fn clone(&self) -> (r: Self)
        ensures
            r@ == self@,
    {
        let authors = self.authors.clone();
        proof {
            assert(authors.deep_view() =~= self.authors.deep_view());
        }
        NewsArticle {
            authors,
            title: self.title.clone(),
            summary: self.summary.clone(),
            link: self.link.clone(),
            source: self.source.clone(),
        }
    }
}

} // verus!
