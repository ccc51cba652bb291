//! The page that sends a visitor on to the destination.

use crate::decimal::{decimal, render_u64};
use vstd::prelude::*;
use vstd::string::*;

verus! {

/// The document up to the page title.
pub const OPEN_TITLE: &'static str = "\n        <html>\n            <head>\n              <title>";

/// From the page title to the page description.
pub const OPEN_DESCRIPTION: &'static str = "</title>\n              <meta name=\"description\" content=\"";

/// From the page description to the Open Graph URL.
pub const OPEN_OG_URL: &'static str = "\">\n\n              <meta property=\"og:url\" content=\"";

/// From the Open Graph URL to the Open Graph title.
pub const OPEN_OG_TITLE: &'static str = "\">\n              <meta property=\"og:type\" content=\"website\">\n              <meta property=\"og:title\" content=\"";

/// From the Open Graph title to the Open Graph description.
pub const OPEN_OG_DESCRIPTION: &'static str = "\">\n              <meta property=\"og:description\" content=\"";

/// From the Open Graph description to the Open Graph image.
pub const OPEN_OG_IMAGE: &'static str = "\">\n              <meta property=\"og:image\" content=\"";

/// From the Open Graph image to the Twitter card domain.
pub const OPEN_TWITTER_DOMAIN: &'static str = "\">\n\n              <meta name=\"twitter:card\" content=\"summary_large_image\">\n              <meta property=\"twitter:domain\" content=\"";

/// From the Twitter card domain to the Twitter card URL.
pub const OPEN_TWITTER_URL: &'static str = "\">\n              <meta property=\"twitter:url\" content=\"";

/// From the Twitter card URL to the Twitter card title.
pub const OPEN_TWITTER_TITLE: &'static str = "\">\n              <meta name=\"twitter:title\" content=\"";

/// From the Twitter card title to the Twitter card description.
pub const OPEN_TWITTER_DESCRIPTION: &'static str = "\">\n              <meta name=\"twitter:description\" content=\"";

/// From the Twitter card description to the Twitter card image.
pub const OPEN_TWITTER_IMAGE: &'static str = "\">\n              <meta name=\"twitter:image\" content=\"";

/// From the Twitter card image to the delay of the refresh.
pub const OPEN_REFRESH: &'static str = "\">\n\n              <meta http-equiv=\"refresh\" content=\"";

/// From the delay of the refresh to its target.
pub const OPEN_REFRESH_URL: &'static str = "; url=";

/// The document after the target of the refresh.
pub const CLOSE_PAGE: &'static str = "\" />\n\n            </head>\n            <body>\n                <h1>Redirecting...</h1>\n            </body>\n        </html>";

/// What the page says about the site: its head, its preview card and the
/// delay of the redirect. None of it depends on the destination.
#[derive(Debug, Clone, PartialEq, Eq)]
pub struct PageMeta {
    /// The page title.
    pub title: String,
    /// The page description.
    pub description: String,
    /// The title of the preview card.
    pub card_title: String,
    /// The description of the preview card.
    pub card_description: String,
    /// The URL of the image of the preview card.
    pub card_image: String,
    /// The domain that the preview card names.
    pub domain: String,
    /// Seconds before the browser moves on to the destination.
    pub delay_seconds: u64,
}

/// The mathematical content of a [`PageMeta`].
pub struct PageMetaView {
    pub title: Seq<char>,
    pub description: Seq<char>,
    pub card_title: Seq<char>,
    pub card_description: Seq<char>,
    pub card_image: Seq<char>,
    pub domain: Seq<char>,
    pub delay_seconds: u64,
}

impl View for PageMeta {
    type V = PageMetaView;

    open spec fn view(&self) -> PageMetaView {
        PageMetaView {
            title: self.title@,
            description: self.description@,
            card_title: self.card_title@,
            card_description: self.card_description@,
            card_image: self.card_image@,
            domain: self.domain@,
            delay_seconds: self.delay_seconds,
        }
    }
}

/// What the service says about itself.
pub open spec fn standard_meta() -> PageMetaView {
    PageMetaView {
        title: "Lil Nouns"@,
        description: "Lil Nouns are just like Nouns, but Lil!"@,
        card_title: "Your Site Title"@,
        card_description: "A description of your site."@,
        card_image: "https://your-site.com/image.png"@,
        domain: "lilnouns.click"@,
        delay_seconds: 5,
    }
}

/// The redirect page for the destination `url`: an HTML document whose head
/// holds the title and description, the Open Graph and Twitter card fields,
/// and a refresh to `url` after the delay. The destination appears three
/// times, unchanged; the texts of `meta` are copied as they are.
pub open spec fn spec_redirect_page(meta: PageMetaView, url: Seq<char>) -> Seq<char> {
    OPEN_TITLE@ +
        meta.title +
        OPEN_DESCRIPTION@ +
        meta.description +
        OPEN_OG_URL@ +
        url +
        OPEN_OG_TITLE@ +
        meta.card_title +
        OPEN_OG_DESCRIPTION@ +
        meta.card_description +
        OPEN_OG_IMAGE@ +
        meta.card_image +
        OPEN_TWITTER_DOMAIN@ +
        meta.domain +
        OPEN_TWITTER_URL@ +
        url +
        OPEN_TWITTER_TITLE@ +
        meta.card_title +
        OPEN_TWITTER_DESCRIPTION@ +
        meta.card_description +
        OPEN_TWITTER_IMAGE@ +
        meta.card_image +
        OPEN_REFRESH@ +
        decimal(meta.delay_seconds as nat) +
        OPEN_REFRESH_URL@ +
        url +
        CLOSE_PAGE@
}

impl PageMeta {
    /// What the service says about itself.
    pub fn standard() -> (meta: PageMeta)
        ensures
            meta@ == standard_meta(),
    {
        PageMeta {
            title: String::from_str("Lil Nouns"),
            description: String::from_str("Lil Nouns are just like Nouns, but Lil!"),
            card_title: String::from_str("Your Site Title"),
            card_description: String::from_str("A description of your site."),
            card_image: String::from_str("https://your-site.com/image.png"),
            domain: String::from_str("lilnouns.click"),
            delay_seconds: 5,
        }
    }
}

/// Writes the redirect page for the destination `url`.
pub fn render_redirect_page(meta: &PageMeta, url: &str) -> (page: String)
    ensures
        page@ == spec_redirect_page(meta@, url@),
{
    let mut page = String::from_str(OPEN_TITLE);
    page.append(meta.title.as_str());
    page.append(OPEN_DESCRIPTION);
    page.append(meta.description.as_str());
    page.append(OPEN_OG_URL);
    page.append(url);
    page.append(OPEN_OG_TITLE);
    page.append(meta.card_title.as_str());
    page.append(OPEN_OG_DESCRIPTION);
    page.append(meta.card_description.as_str());
    page.append(OPEN_OG_IMAGE);
    page.append(meta.card_image.as_str());
    page.append(OPEN_TWITTER_DOMAIN);
    page.append(meta.domain.as_str());
    page.append(OPEN_TWITTER_URL);
    page.append(url);
    page.append(OPEN_TWITTER_TITLE);
    page.append(meta.card_title.as_str());
    page.append(OPEN_TWITTER_DESCRIPTION);
    page.append(meta.card_description.as_str());
    page.append(OPEN_TWITTER_IMAGE);
    page.append(meta.card_image.as_str());
    page.append(OPEN_REFRESH);
    page.append(render_u64(meta.delay_seconds).as_str());
    page.append(OPEN_REFRESH_URL);
    page.append(url);
    page.append(CLOSE_PAGE);
    page
}

} // verus!
