//! One-line summaries of articles, posts and plain strings.

use vstd::prelude::*;

verus! {

/// A value that can be summarized in one line.
pub trait Summary {
    /// The one-line summary of the value.
    fn summarize(&self) -> String;
}

/// A news article.
pub struct NewsArticle {
    pub headline: String,
    pub location: String,
    pub author: String,
    pub content: String,
}

/// The summary of an article: `<headline>, by <author> (<location>)`.
pub open spec fn article_summary(headline: Seq<char>, author: Seq<char>, location: Seq<char>) -> Seq<
    char,
> {
    headline + ", by "@ + author + " ("@ + location + ")"@
}

impl Summary for NewsArticle {
    fn summarize(&self) -> (r: String)
        ensures
            r@ == article_summary(self.headline@, self.author@, self.location@),
    {
        let mut s = self.headline.clone();
        s.append(", by ");
        s.append(self.author.as_str());
        s.append(" (");
        s.append(self.location.as_str());
        s.append(")");
        s
    }
}

/// A short post.
pub struct Tweet {
    pub username: String,
    pub content: String,
    pub reply: bool,
    pub retweet: bool,
}

/// The summary of a post: `<username>: <content>`.
pub open spec fn tweet_summary(username: Seq<char>, content: Seq<char>) -> Seq<char> {
    username + ": "@ + content
}

impl Summary for Tweet {
    fn summarize(&self) -> (r: String)
        ensures
            r@ == tweet_summary(self.username@, self.content@),
    {
        let mut s = self.username.clone();
        s.append(": ");
        s.append(self.content.as_str());
        s
    }
}

impl Summary for String {
    /// A string is its own summary.
    fn summarize(&self) -> (r: String)
        ensures
            r@ == self@,
    {
        self.clone()
    }
}

} // verus!
