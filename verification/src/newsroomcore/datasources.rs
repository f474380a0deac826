use vstd::prelude::*;

verus! {

/// A named feed endpoint. Immutable once constructed; every article carries
/// the source it came from.
#[derive(Debug, PartialEq)]
pub struct DataSources {
    pub name: String,
    pub url: String,
}

/// The content of a `DataSources` value: both fields as character sequences.
pub ghost struct DataSourceView {
    pub name: Seq<char>,
    pub url: Seq<char>,
}

impl View for DataSources {
    type V = DataSourceView;

    open spec fn view(&self) -> DataSourceView {
        DataSourceView { name: self.name@, url: self.url@ }
    }
}

impl DeepView for DataSources {
    type V = DataSourceView;

    open spec fn deep_view(&self) -> DataSourceView {
        self.view()
    }
}

impl Clone for DataSources {
    /// Cloning a source preserves its name and url.
    fn clone(&self) -> (r: Self)
        ensures
            r@ == self@,
    {
        DataSources { name: self.name.clone(), url: self.url.clone() }
    }
}

} // verus!
