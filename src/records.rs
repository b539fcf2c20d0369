use vstd::prelude::*;
use crate::text::same_text;

verus! {

/// The publication state of an article.
#[derive(Clone, Copy, Debug, PartialEq, Eq, Structural)]
pub enum ArticleStatus {
    Draft,
    Published,
}

pub open spec fn status_label(s: ArticleStatus) -> Seq<char> {
    match s {
        ArticleStatus::Draft => "draft"@,
        ArticleStatus::Published => "published"@,
    }
}

impl ArticleStatus {
    /// The stored label of the state.
    pub fn label(&self) -> (r: &'static str)
        ensures
            r@ == status_label(*self),
    {
        match self {
            ArticleStatus::Draft => "draft",
            ArticleStatus::Published => "published",
        }
    }

    /// Reads a stored label; anything but the two labels is refused.
    pub fn parse(text: &str) -> (r: Option<ArticleStatus>)
        ensures
            r is Some <==> (text@ == "draft"@ || text@ == "published"@),
            r is Some ==> status_label(r->0) == text@,
    {
        if same_text(text, "draft") {
            Some(ArticleStatus::Draft)
        } else if same_text(text, "published") {
            Some(ArticleStatus::Published)
        } else {
            None
        }
    }
}

/// The body of a quote creation request.
#[derive(Clone, Debug)]
pub struct NewQuote {
    pub text: String,
    pub author: String,
}

} // verus!
