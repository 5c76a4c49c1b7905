//! Short one-line summaries of articles and posts, behind traits.
use vstd::prelude::*;

verus! {

/// A type that can be summarised in one line.
pub trait Summary {
    /// The text of the summary.
    spec fn summary(&self) -> Seq<char>;

    /// Returns the summary.
    fn summarize(&self) -> (r: String)
        ensures
            r@ == self.summary(),
    ;
}

/// A summary that needs nothing of the value: a fixed invitation to read on.
pub trait Summary2 {
    /// Returns `(read more...)`.
    fn summarize2(&self) -> (r: String)
        ensures
            r@ == "(read more...)"@,
    {
        String::from_str("(read more...)")
    }
}

/// A summary built from the author's handle.
pub trait Summary3 {
    /// The text that names the author.
    spec fn author(&self) -> Seq<char>;

    /// Returns the text that names the author.
    fn summarize_author(&self) -> (r: String)
        ensures
            r@ == self.author(),
    ;

    /// Returns `(read more from `, the author, and `...)`.
    fn summarize3(&self) -> (r: String)
        ensures
            r@ == "(read more from "@ + self.author() + "...)"@,
    {
        let mut s = String::from_str("(read more from ");
        let author = self.summarize_author();
        s.append(author.as_str());
        s.append("...)");
        s
    }
}

/// A news article.
pub struct NewsArticle {
    pub headline: String,
    pub location: String,
    pub author: String,
    pub content: String,
}

impl Summary for NewsArticle {
    /// The headline, the author and, in parentheses, the place.
    open spec fn summary(&self) -> Seq<char> {
        self.headline@ + ", by "@ + self.author@ + " ("@ + self.location@ + ")"@
    }

    fn summarize(&self) -> (r: String) {
        let mut s = self.headline.clone();
        s.append(", by ");
        s.append(self.author.as_str());
        s.append(" (");
        s.append(self.location.as_str());
        s.append(")");
        s
    }
}

impl Summary2 for NewsArticle {}

/// A short post.
pub struct Tweet {
    pub username: String,
    pub content: String,
    pub reply: bool,
    pub retweet: bool,
}

impl Summary for Tweet {
    /// The user name, a colon and the content.
    open spec fn summary(&self) -> Seq<char> {
        self.username@ + ": "@ + self.content@
    }

    fn summarize(&self) -> (r: String) {
        let mut s = self.username.clone();
        s.append(": ");
        s.append(self.content.as_str());
        s
    }
}

impl Summary3 for Tweet {
    /// The user name after an `@`.
    open spec fn author(&self) -> Seq<char> {
        "@"@ + self.username@
    }

    fn summarize_author(&self) -> (r: String) {
        let mut s = String::from_str("@");
        s.append(self.username.as_str());
        s
    }
}

/// Returns a summarisable post by `user`.
pub fn return_summarizable() -> (r: Tweet)
    ensures
        r.username@ == "user"@,
        r.content@ == "contentx contentx"@,
        !r.reply,
        !r.retweet,
{
    Tweet {
        username: String::from_str("user"),
        content: String::from_str("contentx contentx"),
        reply: false,
        retweet: false,
    }
}

} // verus!
