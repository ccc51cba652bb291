//! The catalogue of known destinations.

use crate::decimal::{decimal, render_u64};
use crate::text::{begins_with, holds, texts};
use vstd::prelude::*;
use vstd::string::*;

verus! {

/// A family of sites.
#[derive(Debug, Clone, Copy, PartialEq, Eq, Structural)]
pub enum Community {
    LilNouns,
}

/// An application within a community.
#[derive(Debug, Clone, Copy, PartialEq, Eq, Structural)]
pub enum Platform {
    Ethereum,
    PropLot,
    MetaGov,
}

impl Community {
    /// The number that stands for the community inside a short code.
    /// Zero is never assigned.
    pub open spec fn spec_ordinal(self) -> u64 {
        match self {
            Community::LilNouns => 1,
        }
    }

    /// The community that an ordinal stands for, if any.
    pub open spec fn spec_from_ordinal(ordinal: u64) -> Option<Community> {
        if ordinal == 1 {
            Some(Community::LilNouns)
        } else {
            None
        }
    }

    /// The number that stands for the community inside a short code.
    pub fn ordinal(&self) -> (n: u64)
        ensures
            n == self.spec_ordinal(),
            n >= 1,
    {
        match self {
            Community::LilNouns => 1,
        }
    }

    /// The community that an ordinal stands for, if any.
    pub fn from_ordinal(ordinal: u64) -> (found: Option<Community>)
        ensures
            found == Community::spec_from_ordinal(ordinal),
            found matches Some(c) ==> c.spec_ordinal() == ordinal,
    {
        if ordinal == 1 {
            Some(Community::LilNouns)
        } else {
            None
        }
    }
}

impl Platform {
    /// The number that stands for the platform inside a short code.
    /// Zero is never assigned.
    pub open spec fn spec_ordinal(self) -> u64 {
        match self {
            Platform::Ethereum => 1,
            Platform::PropLot => 2,
            Platform::MetaGov => 3,
        }
    }

    /// The platform that an ordinal stands for, if any.
    pub open spec fn spec_from_ordinal(ordinal: u64) -> Option<Platform> {
        if ordinal == 1 {
            Some(Platform::Ethereum)
        } else if ordinal == 2 {
            Some(Platform::PropLot)
        } else if ordinal == 3 {
            Some(Platform::MetaGov)
        } else {
            None
        }
    }

    /// The number that stands for the platform inside a short code.
    pub fn ordinal(&self) -> (n: u64)
        ensures
            n == self.spec_ordinal(),
            n >= 1,
    {
        match self {
            Platform::Ethereum => 1,
            Platform::PropLot => 2,
            Platform::MetaGov => 3,
        }
    }

    /// The platform that an ordinal stands for, if any.
    pub fn from_ordinal(ordinal: u64) -> (found: Option<Platform>)
        ensures
            found == Platform::spec_from_ordinal(ordinal),
            found matches Some(p) ==> p.spec_ordinal() == ordinal,
    {
        if ordinal == 1 {
            Some(Platform::Ethereum)
        } else if ordinal == 2 {
            Some(Platform::PropLot)
        } else if ordinal == 3 {
            Some(Platform::MetaGov)
        } else {
            None
        }
    }
}

/// One entry of the catalogue: the URLs of one platform of one community.
///
/// A URL belongs to the template when its host is one of `hosts` and its
/// path is the segments of `path` followed by the item's number. The
/// destination of an item is `base_url`, a slash and the item's number.
#[derive(Debug, Clone, PartialEq, Eq)]
pub struct Template {
    pub community: Community,
    pub platform: Platform,
    pub hosts: Vec<String>,
    pub path: Vec<String>,
    pub base_url: String,
}

/// The mathematical content of a [`Template`].
pub struct TemplateView {
    pub community: Community,
    pub platform: Platform,
    pub hosts: Seq<Seq<char>>,
    pub path: Seq<Seq<char>>,
    pub base_url: Seq<char>,
}

impl View for Template {
    type V = TemplateView;

    open spec fn view(&self) -> TemplateView {
        TemplateView {
            community: self.community,
            platform: self.platform,
            hosts: texts(self.hosts@),
            path: texts(self.path@),
            base_url: self.base_url@,
        }
    }
}

impl TemplateView {
    /// The template's URLs live on `host`.
    pub open spec fn serves(self, host: Seq<char>) -> bool {
        self.hosts.contains(host)
    }

    /// The template's URLs live on `host` and `segments` begins with the
    /// template's path.
    pub open spec fn fits(self, host: Seq<char>, segments: Seq<Seq<char>>) -> bool {
        self.serves(host) && self.path.is_prefix_of(segments)
    }

    /// The template is the one for the pair of community and platform.
    pub open spec fn is_for(self, community: Community, platform: Platform) -> bool {
        self.community == community && self.platform == platform
    }

    /// The destination URL of item `item`.
    pub open spec fn url_for(self, item: u64) -> Seq<char> {
        self.base_url + seq!['/'] + decimal(item as nat)
    }

    /// The path segments of the destination URL of item `item`.
    pub open spec fn segments_for(self, item: u64) -> Seq<Seq<char>> {
        self.path.push(decimal(item as nat))
    }
}

impl Template {
    /// A template without hosts and with an empty path.
    pub fn new(community: Community, platform: Platform, base_url: &str) -> (t: Template)
        ensures
            t@ == (TemplateView {
                community,
                platform,
                hosts: Seq::empty(),
                path: Seq::empty(),
                base_url: base_url@,
            }),
    {
        let t = Template {
            community,
            platform,
            hosts: Vec::new(),
            path: Vec::new(),
            base_url: String::from_str(base_url),
        };
        assert(t@.hosts =~= Seq::empty());
        assert(t@.path =~= Seq::empty());
        t
    }

    /// The same template, also served on `host`.
    pub fn host(self, host: &str) -> (t: Template)
        ensures
            t@ == (TemplateView { hosts: self@.hosts.push(host@), ..self@ }),
    {
        let mut t = self;
        t.hosts.push(String::from_str(host));
        assert(t@.hosts =~= self@.hosts.push(host@));
        t
    }

    /// The same template, with `segment` added at the end of its path.
    pub fn segment(self, segment: &str) -> (t: Template)
        ensures
            t@ == (TemplateView { path: self@.path.push(segment@), ..self@ }),
    {
        let mut t = self;
        t.path.push(String::from_str(segment));
        assert(t@.path =~= self@.path.push(segment@));
        t
    }

    /// Whether a URL with this host and these path segments belongs to the
    /// template, whatever follows the template's path.
    pub fn fits(&self, host: &String, segments: &Vec<String>) -> (yes: bool)
        ensures
            yes == self@.fits(host@, texts(segments@)),
    {
        holds(&self.hosts, host) && begins_with(segments, &self.path)
    }

    /// The destination URL of item `item`.
    pub fn url_for(&self, item: u64) -> (url: String)
        ensures
            url@ == self@.url_for(item),
    {
        let mut url = self.base_url.clone();
        proof {
            reveal_strlit("/");
        }
        url.append("/");
        let number = render_u64(item);
        url.append(number.as_str());
        assert(url@ =~= self@.url_for(item));
        url
    }
}

/// Some entry of `entries` is served on `host`.
pub open spec fn spec_serves(entries: Seq<TemplateView>, host: Seq<char>) -> bool {
    exists|i: int| 0 <= i < entries.len() && (#[trigger] entries[i]).serves(host)
}

/// The first entry of `entries` that fits the host and the segments.
pub open spec fn spec_select(
    entries: Seq<TemplateView>,
    host: Seq<char>,
    segments: Seq<Seq<char>>,
) -> Option<TemplateView>
    decreases entries.len(),
{
    if entries.len() == 0 {
        None
    } else if entries[0].fits(host, segments) {
        Some(entries[0])
    } else {
        spec_select(entries.drop_first(), host, segments)
    }
}

/// The first entry of `entries` for the pair of community and platform.
pub open spec fn spec_lookup(
    entries: Seq<TemplateView>,
    community: Community,
    platform: Platform,
) -> Option<TemplateView>
    decreases entries.len(),
{
    if entries.len() == 0 {
        None
    } else if entries[0].is_for(community, platform) {
        Some(entries[0])
    } else {
        spec_lookup(entries.drop_first(), community, platform)
    }
}

/// An entry that `spec_select` picks fits the host and the segments.
pub proof fn lemma_selected_fits(
    entries: Seq<TemplateView>,
    host: Seq<char>,
    segments: Seq<Seq<char>>,
)
    ensures
        spec_select(entries, host, segments) matches Some(t) ==> t.fits(host, segments)
            && entries.contains(t),
    decreases entries.len(),
{
    if entries.len() > 0 {
        if entries[0].fits(host, segments) {
        } else {
            lemma_selected_fits(entries.drop_first(), host, segments);
            if let Some(t) = spec_select(entries, host, segments) {
                let i = choose|i: int|
                    0 <= i < entries.drop_first().len() && entries.drop_first()[i] == t;
                assert(entries[i + 1] == t);
            }
        }
    }
}

/// Where some entry is for the pair, `spec_lookup` finds an entry for it.
pub proof fn lemma_lookup_finds(
    entries: Seq<TemplateView>,
    community: Community,
    platform: Platform,
    i: int,
)
    requires
        0 <= i < entries.len(),
        entries[i].is_for(community, platform),
    ensures
        spec_lookup(entries, community, platform) matches Some(t) && t.is_for(
            community,
            platform,
        ),
    decreases entries.len(),
{
    if !entries[0].is_for(community, platform) {
        assert(entries.drop_first()[i - 1] == entries[i]);
        lemma_lookup_finds(entries.drop_first(), community, platform, i - 1);
    }
}

/// The catalogue that the service runs on.
///
/// Entries are tried in order: a template whose path continues the path of
/// another stands before it.
pub open spec fn standard_registry() -> Seq<TemplateView> {
    seq![
        TemplateView {
            community: Community::LilNouns,
            platform: Platform::MetaGov,
            hosts: seq!["lilnouns.wtf"@, "www.lilnouns.wtf"@],
            path: seq!["vote"@, "nounsdao"@],
            base_url: "https://lilnouns.wtf/vote/nounsdao"@,
        },
        TemplateView {
            community: Community::LilNouns,
            platform: Platform::Ethereum,
            hosts: seq!["lilnouns.wtf"@, "www.lilnouns.wtf"@],
            path: seq!["vote"@],
            base_url: "https://lilnouns.wtf/vote"@,
        },
        TemplateView {
            community: Community::LilNouns,
            platform: Platform::PropLot,
            hosts: seq!["lilnouns.proplot.wtf"@, "www.lilnouns.proplot.wtf"@],
            path: seq!["idea"@],
            base_url: "https://lilnouns.proplot.wtf/idea"@,
        },
    ]
}

/// A catalogue of templates, used alike to read URLs and to write them.
#[derive(Debug, Clone, PartialEq, Eq)]
pub struct Registry {
    pub entries: Vec<Template>,
}

impl View for Registry {
    type V = Seq<TemplateView>;

    open spec fn view(&self) -> Seq<TemplateView> {
        self.entries@.map_values(|t: Template| t@)
    }
}

impl Registry {
    /// The catalogue that the service runs on.
    pub fn standard() -> (registry: Registry)
        ensures
            registry@ == standard_registry(),
    {
        let meta_gov = Template::new(
            Community::LilNouns,
            Platform::MetaGov,
            "https://lilnouns.wtf/vote/nounsdao",
        ).host("lilnouns.wtf").host("www.lilnouns.wtf").segment("vote").segment("nounsdao");
        let ethereum = Template::new(
            Community::LilNouns,
            Platform::Ethereum,
            "https://lilnouns.wtf/vote",
        ).host("lilnouns.wtf").host("www.lilnouns.wtf").segment("vote");
        let prop_lot = Template::new(
            Community::LilNouns,
            Platform::PropLot,
            "https://lilnouns.proplot.wtf/idea",
        ).host("lilnouns.proplot.wtf").host("www.lilnouns.proplot.wtf").segment("idea");
        proof {
            let wanted = standard_registry();
            assert(meta_gov@.hosts =~= wanted[0].hosts);
            assert(meta_gov@.path =~= wanted[0].path);
            assert(ethereum@.hosts =~= wanted[1].hosts);
            assert(ethereum@.path =~= wanted[1].path);
            assert(prop_lot@.hosts =~= wanted[2].hosts);
            assert(prop_lot@.path =~= wanted[2].path);
        }
        let mut entries: Vec<Template> = Vec::new();
        entries.push(meta_gov);
        entries.push(ethereum);
        entries.push(prop_lot);
        let registry = Registry { entries };
        assert(registry@ =~= standard_registry());
        registry
    }

    /// Whether some template of the catalogue is served on `host`.
    pub fn serves(&self, host: &String) -> (yes: bool)
        ensures
            yes == spec_serves(self@, host@),
    {
        let mut i: usize = 0;
        while i < self.entries.len()
            invariant
                i <= self.entries.len(),
                forall|j: int| 0 <= j < i ==> !(#[trigger] self@[j]).serves(host@),
            decreases self.entries.len() - i,
        {
            if holds(&self.entries[i].hosts, host) {
                assert(self@[i as int].serves(host@));
                return true;
            }
            i = i + 1;
        }
        false
    }

    /// The first template that fits a URL with this host and these path
    /// segments.
    pub fn select(&self, host: &String, segments: &Vec<String>) -> (found: Option<&Template>)
        ensures
            match found {
                Some(t) => spec_select(self@, host@, texts(segments@)) == Some(t@),
                None => spec_select(self@, host@, texts(segments@)) is None,
            },
    {
        let mut i: usize = 0;
        assert(self@.skip(0) =~= self@);
        while i < self.entries.len()
            invariant
                i <= self.entries.len(),
                spec_select(self@, host@, texts(segments@)) == spec_select(
                    self@.skip(i as int),
                    host@,
                    texts(segments@),
                ),
            decreases self.entries.len() - i,
        {
            assert(self@.skip(i as int)[0] == self.entries[i as int]@);
            assert(self@.skip(i as int).drop_first() =~= self@.skip(i + 1));
            if self.entries[i].fits(host, segments) {
                return Some(&self.entries[i]);
            }
            i = i + 1;
        }
        None
    }

    /// The template for a pair of community and platform.
    pub fn lookup(&self, community: Community, platform: Platform) -> (found: Option<&Template>)
        ensures
            match found {
                Some(t) => spec_lookup(self@, community, platform) == Some(t@),
                None => spec_lookup(self@, community, platform) is None,
            },
    {
        let mut i: usize = 0;
        assert(self@.skip(0) =~= self@);
        while i < self.entries.len()
            invariant
                i <= self.entries.len(),
                spec_lookup(self@, community, platform) == spec_lookup(
                    self@.skip(i as int),
                    community,
                    platform,
                ),
            decreases self.entries.len() - i,
        {
            assert(self@.skip(i as int)[0] == self.entries[i as int]@);
            assert(self@.skip(i as int).drop_first() =~= self@.skip(i + 1));
            if self.entries[i].community == community && self.entries[i].platform == platform {
                return Some(&self.entries[i]);
            }
            i = i + 1;
        }
        None
    }
}


} // verus!
