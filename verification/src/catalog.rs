//! The catalog's data model: entries, news items, and the fixed tables of
//! entry kinds and categories that the browse view steps through.

use vstd::prelude::*;

verus! {

/// One catalog entry (a tool, a skill or an MCP server).
#[derive(Debug, PartialEq, Eq)]
pub struct Entry {
    pub kind: String,
    pub slug: String,
    pub name: String,
    pub tagline: String,
    pub pricing: Option<String>,
    pub categories: Vec<String>,
    pub homepage_url: String,
    pub install_snippet: Option<String>,
    pub description: Option<String>,
    pub repo_url: Option<String>,
    pub docs_url: Option<String>,
}

fn clone_opt_string(s: &Option<String>) -> (res: Option<String>)
    ensures
        res == *s,
{
    match s {
        Some(v) => Some(v.clone()),
        None => None,
    }
}

fn clone_strings(v: &Vec<String>) -> (res: Vec<String>)
    ensures
        res@ == v@,
        res.deep_view() == v.deep_view(),
{
    let mut out: Vec<String> = Vec::new();
    let mut i: usize = 0;
    while i < v.len()
        invariant
            i <= v.len(),
            out@ == v@.subrange(0, i as int),
        decreases v.len() - i,
    {
        out.push(v[i].clone());
        i = i + 1;
    }
    assert(out.deep_view() =~= v.deep_view());
    out
}

/// The mathematical value of an [`Entry`]: every text as a sequence of characters.
#[verifier::ext_equal]
pub struct EntryView {
    pub kind: Seq<char>,
    pub slug: Seq<char>,
    pub name: Seq<char>,
    pub tagline: Seq<char>,
    pub pricing: Option<Seq<char>>,
    pub categories: Seq<Seq<char>>,
    pub homepage_url: Seq<char>,
    pub install_snippet: Option<Seq<char>>,
    pub description: Option<Seq<char>>,
    pub repo_url: Option<Seq<char>>,
    pub docs_url: Option<Seq<char>>,
}

impl View for Entry {
    type V = EntryView;

    open spec fn view(&self) -> EntryView {
        EntryView {
            kind: self.kind@,
            slug: self.slug@,
            name: self.name@,
            tagline: self.tagline@,
            pricing: self.pricing.deep_view(),
            categories: self.categories.deep_view(),
            homepage_url: self.homepage_url@,
            install_snippet: self.install_snippet.deep_view(),
            description: self.description.deep_view(),
            repo_url: self.repo_url.deep_view(),
            docs_url: self.docs_url.deep_view(),
        }
    }
}

impl DeepView for Entry {
    type V = EntryView;

    open spec fn deep_view(&self) -> EntryView {
        self@
    }
}

impl Clone for Entry {
    fn clone(&self) -> (res: Self)
        ensures
            res@ == self@,
    {
        Entry {
            kind: self.kind.clone(),
            slug: self.slug.clone(),
            name: self.name.clone(),
            tagline: self.tagline.clone(),
            pricing: clone_opt_string(&self.pricing),
            categories: clone_strings(&self.categories),
            homepage_url: self.homepage_url.clone(),
            install_snippet: clone_opt_string(&self.install_snippet),
            description: clone_opt_string(&self.description),
            repo_url: clone_opt_string(&self.repo_url),
            docs_url: clone_opt_string(&self.docs_url),
        }
    }
}

/// One news item of the recent AI dev news feed.
#[derive(Debug, PartialEq, Eq)]
pub struct NewsItem {
    pub title: String,
    pub summary: String,
    pub source_name: String,
    pub source_url: String,
    pub topics: Vec<String>,
    pub posted_at: String,
}

/// The mathematical value of a [`NewsItem`].
#[verifier::ext_equal]
pub struct NewsItemView {
    pub title: Seq<char>,
    pub summary: Seq<char>,
    pub source_name: Seq<char>,
    pub source_url: Seq<char>,
    pub topics: Seq<Seq<char>>,
    pub posted_at: Seq<char>,
}

impl View for NewsItem {
    type V = NewsItemView;

    open spec fn view(&self) -> NewsItemView {
        NewsItemView {
            title: self.title@,
            summary: self.summary@,
            source_name: self.source_name@,
            source_url: self.source_url@,
            topics: self.topics.deep_view(),
            posted_at: self.posted_at@,
        }
    }
}

impl DeepView for NewsItem {
    type V = NewsItemView;

    open spec fn deep_view(&self) -> NewsItemView {
        self@
    }
}

impl Clone for NewsItem {
    fn clone(&self) -> (res: Self)
        ensures
            res@ == self@,
    {
        NewsItem {
            title: self.title.clone(),
            summary: self.summary.clone(),
            source_name: self.source_name.clone(),
            source_url: self.source_url.clone(),
            topics: clone_strings(&self.topics),
            posted_at: self.posted_at.clone(),
        }
    }
}


/// How many entry kinds the browse view steps through.
pub const KIND_COUNT: usize = 3;

/// How many categories the browse view steps through.
pub const CATEGORY_COUNT: usize = 21;

/// The entry kinds: the slug sent to the API and the label shown, by position.
pub open spec fn kind_spec(i: int) -> (Seq<char>, Seq<char>) {
    if i == 0 {
        ("tool"@, "Tools"@)
    } else if i == 1 {
        ("skill"@, "Skills"@)
    } else {
        ("mcp"@, "MCPs"@)
    }
}

/// The kind at position `i`: its slug and its label.
pub fn kind_at(i: usize) -> (r: (&'static str, &'static str))
    requires
        i < KIND_COUNT,
    ensures
        r.0@ == kind_spec(i as int).0,
        r.1@ == kind_spec(i as int).1,
{
    if i == 0 {
        ("tool", "Tools")
    } else if i == 1 {
        ("skill", "Skills")
    } else {
        ("mcp", "MCPs")
    }
}

/// The categories: the slug sent to the API and the label shown, by position.
pub open spec fn category_spec(i: int) -> (Seq<char>, Seq<char>) {
    if i == 0 {
        ("agent-framework"@, "Agent Frameworks"@)
    } else if i == 1 {
        ("typescript"@, "TypeScript"@)
    } else if i == 2 {
        ("python"@, "Python"@)
    } else if i == 3 {
        ("llm"@, "LLMs"@)
    } else if i == 4 {
        ("embedding"@, "Embeddings"@)
    } else if i == 5 {
        ("vector-db"@, "Vector DBs"@)
    } else if i == 6 {
        ("rag"@, "RAG"@)
    } else if i == 7 {
        ("mcp-server"@, "MCP Servers"@)
    } else if i == 8 {
        ("cli"@, "CLIs"@)
    } else if i == 9 {
        ("sdk"@, "SDKs"@)
    } else if i == 10 {
        ("ui"@, "UI"@)
    } else if i == 11 {
        ("testing"@, "Testing"@)
    } else if i == 12 {
        ("observability"@, "Observability"@)
    } else if i == 13 {
        ("deployment"@, "Deployment"@)
    } else if i == 14 {
        ("search"@, "Search"@)
    } else if i == 15 {
        ("code-gen"@, "Code Gen"@)
    } else if i == 16 {
        ("data"@, "Data"@)
    } else if i == 17 {
        ("voice"@, "Voice"@)
    } else if i == 18 {
        ("multimodal"@, "Multimodal"@)
    } else if i == 19 {
        ("fine-tuning"@, "Fine-Tuning"@)
    } else {
        ("other"@, "Other"@)
    }
}

/// The category at position `i`: its slug and its label.
pub fn category_at(i: usize) -> (r: (&'static str, &'static str))
    requires
        i < CATEGORY_COUNT,
    ensures
        r.0@ == category_spec(i as int).0,
        r.1@ == category_spec(i as int).1,
{
    if i == 0 {
        ("agent-framework", "Agent Frameworks")
    } else if i == 1 {
        ("typescript", "TypeScript")
    } else if i == 2 {
        ("python", "Python")
    } else if i == 3 {
        ("llm", "LLMs")
    } else if i == 4 {
        ("embedding", "Embeddings")
    } else if i == 5 {
        ("vector-db", "Vector DBs")
    } else if i == 6 {
        ("rag", "RAG")
    } else if i == 7 {
        ("mcp-server", "MCP Servers")
    } else if i == 8 {
        ("cli", "CLIs")
    } else if i == 9 {
        ("sdk", "SDKs")
    } else if i == 10 {
        ("ui", "UI")
    } else if i == 11 {
        ("testing", "Testing")
    } else if i == 12 {
        ("observability", "Observability")
    } else if i == 13 {
        ("deployment", "Deployment")
    } else if i == 14 {
        ("search", "Search")
    } else if i == 15 {
        ("code-gen", "Code Gen")
    } else if i == 16 {
        ("data", "Data")
    } else if i == 17 {
        ("voice", "Voice")
    } else if i == 18 {
        ("multimodal", "Multimodal")
    } else if i == 19 {
        ("fine-tuning", "Fine-Tuning")
    } else {
        ("other", "Other")
    }
}

} // verus!
