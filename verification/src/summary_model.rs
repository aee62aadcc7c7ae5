use vstd::prelude::*;

verus! {

/// One summarized article; all three fields are required on the wire.
#[derive(Debug)]
pub struct Article {
    pub title: String,
    pub description: String,
    pub link: String,
}

/// Ghost image of an [`Article`], with every string replaced by its view.
pub ghost struct ArticleView {
    pub title: Seq<char>,
    pub description: Seq<char>,
    pub link: Seq<char>,
}

impl View for Article {
    type V = ArticleView;

    open spec fn view(&self) -> ArticleView {
        ArticleView {
            title: self.title@,
            description: self.description@,
            link: self.link@,
        }
    }
}

/// The body of one category: an optional article count and the articles themselves.
#[derive(Debug)]
pub struct CategoryDetails {
    pub category_count: Option<usize>,
    pub articles: Vec<Article>,
}

/// Ghost image of a [`CategoryDetails`].
pub ghost struct CategoryDetailsView {
    pub category_count: Option<usize>,
    pub articles: Seq<ArticleView>,
}

impl View for CategoryDetails {
    type V = CategoryDetailsView;

    open spec fn view(&self) -> CategoryDetailsView {
        CategoryDetailsView {
            category_count: self.category_count,
            articles: self.articles@.map_values(|a: Article| a@),
        }
    }
}

/// A named grouping of articles. On the wire a category is a single-key
/// mapping from the name to the details; inputs with zero or several keys are
/// rejected when a summary is read, so one name/details pair always suffices.
#[derive(Debug)]
pub struct Category {
    pub name: String,
    pub details: CategoryDetails,
}

/// Ghost image of a [`Category`].
pub ghost struct CategoryView {
    pub name: Seq<char>,
    pub details: CategoryDetailsView,
}

impl View for Category {
    type V = CategoryView;

    open spec fn view(&self) -> CategoryView {
        CategoryView { name: self.name@, details: self.details@ }
    }
}

/// The payload of a structured summary: a total article count and the categories.
#[derive(Debug)]
pub struct ArticlesData {
    pub total: usize,
    pub summary: Vec<Category>,
}

/// Ghost image of an [`ArticlesData`].
pub ghost struct ArticlesDataView {
    pub total: usize,
    pub summary: Seq<CategoryView>,
}

impl View for ArticlesData {
    type V = ArticlesDataView;

    open spec fn view(&self) -> ArticlesDataView {
        ArticlesDataView {
            total: self.total,
            summary: self.summary@.map_values(|c: Category| c@),
        }
    }
}

/// A structured summary as produced by the generative backend.
#[derive(Debug)]
pub struct ArticlesResponse {
    pub message: String,
    pub data: ArticlesData,
}

/// Ghost image of an [`ArticlesResponse`].
pub ghost struct ArticlesResponseView {
    pub message: Seq<char>,
    pub data: ArticlesDataView,
}

impl View for ArticlesResponse {
    type V = ArticlesResponseView;

    open spec fn view(&self) -> ArticlesResponseView {
        ArticlesResponseView { message: self.message@, data: self.data@ }
    }
}

impl ArticlesResponse {
    /// Packs a message and a data payload into a summary.
    pub fn new(message: String, data: ArticlesData) -> (r: Self)
        ensures
            r.message == message,
            r.data == data,
    {
        Self { message, data }
    }
}

impl ArticlesData {
    /// Packs a total and a category list into a summary payload.
    pub fn new(total: usize, summary: Vec<Category>) -> (r: Self)
        ensures
            r.total == total,
            r.summary == summary,
    {
        Self { total, summary }
    }

    /// The total number of articles the backend reported.
    pub fn total_articles(&self) -> (r: usize)
        ensures
            r == self.total,
    {
        self.total
    }

    /// The number of categories in the summary.
    pub fn category_count(&self) -> (r: usize)
        ensures
            r == self.summary@.len(),
    {
        self.summary.len()
    }
}

impl Category {
    /// The category's name.
    pub fn get_name(&self) -> (r: &String)
        ensures
            r == &self.name,
    {
        &self.name
    }

    /// The category's details.
    pub fn get_details(&self) -> (r: &CategoryDetails)
        ensures
            r == &self.details,
    {
        &self.details
    }
}

impl CategoryDetails {
    /// The number of articles grouped under this category.
    pub fn article_count(&self) -> (r: usize)
        ensures
            r == self.articles@.len(),
    {
        self.articles.len()
    }
}

} // verus!
