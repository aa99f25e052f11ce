//! Page metadata for search engines and link previews, set through chained
//! builder calls.
use crate::text::texts;
use vstd::prelude::*;

verus! {

/// The metadata of one page.
#[derive(Clone, Debug)]
pub struct Seo {
    /// Title (about 60 characters).
    pub title: String,
    /// Description (about 160 characters).
    pub description: String,
    pub keywords: Vec<String>,
    pub author: Option<String>,
    pub canonical_url: Option<String>,
    pub lang: Option<String>,
    /// ISO 8601 date.
    pub updated: Option<String>,
    pub og_image: Option<String>,
    pub og_type: Option<String>,
    pub twitter_card: Option<String>,
    pub json_ld: Option<String>,
    pub content_type: Option<String>,
    pub slug: Option<String>,
}

/// The text of an optional string.
pub open spec fn opt_text(o: Option<String>) -> Option<Seq<char>> {
    match o {
        Some(s) => Some(s@),
        None => None,
    }
}

/// What a `Seo` holds, as plain text.
pub ghost struct SeoView {
    pub title: Seq<char>,
    pub description: Seq<char>,
    pub keywords: Seq<Seq<char>>,
    pub author: Option<Seq<char>>,
    pub canonical_url: Option<Seq<char>>,
    pub lang: Option<Seq<char>>,
    pub updated: Option<Seq<char>>,
    pub og_image: Option<Seq<char>>,
    pub og_type: Option<Seq<char>>,
    pub twitter_card: Option<Seq<char>>,
    pub json_ld: Option<Seq<char>>,
    pub content_type: Option<Seq<char>>,
    pub slug: Option<Seq<char>>,
}

impl View for Seo {
    type V = SeoView;

    open spec fn view(&self) -> SeoView {
        SeoView {
            title: self.title@,
            description: self.description@,
            keywords: texts(self.keywords@),
            author: opt_text(self.author),
            canonical_url: opt_text(self.canonical_url),
            lang: opt_text(self.lang),
            updated: opt_text(self.updated),
            og_image: opt_text(self.og_image),
            og_type: opt_text(self.og_type),
            twitter_card: opt_text(self.twitter_card),
            json_ld: opt_text(self.json_ld),
            content_type: opt_text(self.content_type),
            slug: opt_text(self.slug),
        }
    }
}

/// Metadata with every field empty or unset.
pub open spec fn empty_seo() -> SeoView {
    SeoView {
        title: seq![],
        description: seq![],
        keywords: seq![],
        author: None,
        canonical_url: None,
        lang: None,
        updated: None,
        og_image: None,
        og_type: None,
        twitter_card: None,
        json_ld: None,
        content_type: None,
        slug: None,
    }
}

impl Default for Seo {
    fn default() -> (r: Self)
        ensures
            r@ == empty_seo(),
    {
        Seo::new()
    }
}

impl Seo {
    /// Metadata with every field empty or unset.
    pub fn new() -> (r: Self)
        ensures
            r@ == empty_seo(),
    {
        let r = Seo {
            title: String::new(),
            description: String::new(),
            keywords: Vec::new(),
            author: None,
            canonical_url: None,
            lang: None,
            updated: None,
            og_image: None,
            og_type: None,
            twitter_card: None,
            json_ld: None,
            content_type: None,
            slug: None,
        };
        assert(r@.keywords =~= seq![]);
        r
    }

    /// Sets the page title.
    pub fn with_title(&mut self, t: &str) -> (r: &mut Self)
        ensures
            r@ == (SeoView { title: t@, ..old(self)@ }),
            *final(self) == *final(r),
    {
        self.title = t.to_owned();
        self
    }

    /// Sets the page description.
    pub fn with_desc(&mut self, d: &str) -> (r: &mut Self)
        ensures
            r@ == (SeoView { description: d@, ..old(self)@ }),
            *final(self) == *final(r),
    {
        self.description = d.to_owned();
        self
    }

    /// Replaces the keywords, keeping their order.
    pub fn with_keywords(&mut self, ks: &[&str]) -> (r: &mut Self)
        ensures
            r@ == (SeoView { keywords: ks@.map_values(|k: &str| k@), ..old(self)@ }),
            *final(self) == *final(r),
    {
        let mut v: Vec<String> = Vec::new();
        let mut i: usize = 0;
        while i < ks.len()
            invariant
                i <= ks@.len(),
                texts(v@) =~= ks@.take(i as int).map_values(|k: &str| k@),
            decreases ks@.len() - i,
        {
            let ghost before = v@;
            v.push(ks[i].to_owned());
            assert(texts(v@) =~= texts(before).push(ks@[i as int]@));
            assert(ks@.take(i + 1).map_values(|k: &str| k@) =~= ks@.take(i as int).map_values(
                |k: &str| k@,
            ).push(ks@[i as int]@));
            i = i + 1;
        }
        assert(ks@.take(i as int) =~= ks@);
        self.keywords = v;
        self
    }

    /// Sets the author of the content.
    pub fn with_author(&mut self, a: &str) -> (r: &mut Self)
        ensures
            r@ == (SeoView { author: Some(a@), ..old(self)@ }),
            *final(self) == *final(r),
    {
        self.author = Some(a.to_owned());
        self
    }

    /// Sets the language of the content (for example `fr`).
    pub fn with_lang(&mut self, l: &str) -> (r: &mut Self)
        ensures
            r@ == (SeoView { lang: Some(l@), ..old(self)@ }),
            *final(self) == *final(r),
    {
        self.lang = Some(l.to_owned());
        self
    }

    /// Sets when the content was last updated (ISO 8601).
    pub fn with_updated(&mut self, u: &str) -> (r: &mut Self)
        ensures
            r@ == (SeoView { updated: Some(u@), ..old(self)@ }),
            *final(self) == *final(r),
    {
        self.updated = Some(u.to_owned());
        self
    }

    /// Sets the structured data block.
    pub fn with_json_ld(&mut self, j: &str) -> (r: &mut Self)
        ensures
            r@ == (SeoView { json_ld: Some(j@), ..old(self)@ }),
            *final(self) == *final(r),
    {
        self.json_ld = Some(j.to_owned());
        self
    }

    /// Sets the kind of content (work, author, season, event).
    pub fn with_content_type(&mut self, c: &str) -> (r: &mut Self)
        ensures
            r@ == (SeoView { content_type: Some(c@), ..old(self)@ }),
            *final(self) == *final(r),
    {
        self.content_type = Some(c.to_owned());
        self
    }

    /// Sets the canonical address of the page.
    pub fn with_canonical(&mut self, url: &str) -> (r: &mut Self)
        ensures
            r@ == (SeoView { canonical_url: Some(url@), ..old(self)@ }),
            *final(self) == *final(r),
    {
        self.canonical_url = Some(url.to_owned());
        self
    }

    /// Sets the slug of the page.
    pub fn with_slug(&mut self, s: &str) -> (r: &mut Self)
        ensures
            r@ == (SeoView { slug: Some(s@), ..old(self)@ }),
            *final(self) == *final(r),
    {
        self.slug = Some(s.to_owned());
        self
    }

    /// Sets the image shown when the page is shared.
    pub fn with_og_image(&mut self, img: &str) -> (r: &mut Self)
        ensures
            r@ == (SeoView { og_image: Some(img@), ..old(self)@ }),
            *final(self) == *final(r),
    {
        self.og_image = Some(img.to_owned());
        self
    }

    /// Sets the kind of page for sharing (website, article, book).
    pub fn with_og_type(&mut self, t: &str) -> (r: &mut Self)
        ensures
            r@ == (SeoView { og_type: Some(t@), ..old(self)@ }),
            *final(self) == *final(r),
    {
        self.og_type = Some(t.to_owned());
        self
    }

    /// Sets the card layout used when the page is shared.
    pub fn with_twitter_card(&mut self, c: &str) -> (r: &mut Self)
        ensures
            r@ == (SeoView { twitter_card: Some(c@), ..old(self)@ }),
            *final(self) == *final(r),
    {
        self.twitter_card = Some(c.to_owned());
        self
    }

    /// Uses the plain summary card for shared links.
    pub fn twitter_summary(&mut self) -> (r: &mut Self)
        ensures
            r@ == (SeoView { twitter_card: Some("summary"@), ..old(self)@ }),
            *final(self) == *final(r),
    {
        self.twitter_card = Some("summary".to_owned());
        self
    }
}

} // verus!
