//! What holds of the library as a whole.

use crate::address::{parsed_url, UrlPartsView};
use crate::codec::{spec_code, sqids_decode};
use crate::decimal::{
    decimal, is_digit, lemma_decimal_denotes, lemma_parse_decimal_inverts, numeral_digits,
    spec_parse_u64,
};
use crate::decoder::{spec_destination, spec_resolve_code};
use crate::encoder::{
    code_reads_back, spec_classify, spec_encode_url, spec_meaningful, ShortLinkView,
};
use crate::error::LinkError;
use crate::page::{spec_redirect_page, PageMetaView};
use crate::registry::{
    lemma_lookup_finds, lemma_selected_fits, spec_lookup, spec_select, spec_serves,
    standard_registry, Community, Platform, TemplateView,
};
use crate::routes::{
    answer_reads_back, spec_handle_creation, spec_handle_redirect, ReplyView, UrlPayloadView,
};
use crate::triple::{spec_triple_of, CodeTriple};
use vstd::prelude::*;

verus! {

/// The triple of item `item` under the template `template`.
pub open spec fn triple_for(template: TemplateView, item: u64) -> CodeTriple {
    CodeTriple { community: template.community, platform: template.platform, item }
}

/// The text of a path: each segment with a slash before it.
pub open spec fn path_text(segments: Seq<Seq<char>>) -> Seq<char>
    decreases segments.len(),
{
    if segments.len() == 0 {
        Seq::empty()
    } else {
        path_text(segments.drop_last()) + seq!['/'] + segments.last()
    }
}

/// The text of the `https` URL on `host` with the path `segments`.
pub open spec fn https_url(host: Seq<char>, segments: Seq<Seq<char>>) -> Seq<char> {
    "https://"@ + host + path_text(segments)
}

/// The URLs that the template writes are `https` URLs on its first host
/// whose path is the template's own path and the item's number.
pub open spec fn writes_what_it_reads(template: TemplateView) -> bool {
    template.hosts.len() > 0 && template.base_url == https_url(template.hosts[0], template.path)
}

/// The URL parser reads the `https` URL on `host` with the path `segments`
/// as it is written: it accepts the text and writes it back unchanged, and
/// it finds the host and, as meaningful path segments, the segments.
pub open spec fn parser_reads_back(host: Seq<char>, segments: Seq<Seq<char>>) -> bool {
    &&& parsed_url(https_url(host, segments)) matches Some(parts)
    &&& parts.text == https_url(host, segments)
    &&& parts.host == Some(host)
    &&& parts.segments matches Some(read)
    &&& spec_meaningful(read) == segments
}

/// The hosts of the standard catalogue are four different names, and its
/// path segments are three different words, none of which is a numeral.
pub proof fn lemma_standard_words()
    ensures
        "lilnouns.wtf"@.len() == 12,
        "www.lilnouns.wtf"@.len() == 16,
        "lilnouns.proplot.wtf"@.len() == 20,
        "www.lilnouns.proplot.wtf"@.len() == 24,
        "vote"@.len() == 4 && "vote"@[0] == 'v',
        "idea"@.len() == 4 && "idea"@[0] == 'i',
        "nounsdao"@.len() == 8 && "nounsdao"@[0] == 'n',
{
    reveal_strlit("lilnouns.wtf");
    reveal_strlit("www.lilnouns.wtf");
    reveal_strlit("lilnouns.proplot.wtf");
    reveal_strlit("www.lilnouns.proplot.wtf");
    reveal_strlit("vote");
    reveal_strlit("idea");
    reveal_strlit("nounsdao");
}

/// The hosts that the standard catalogue serves are these four.
pub proof fn lemma_standard_hosts(host: Seq<char>)
    ensures
        spec_serves(standard_registry(), host) <==> (host == "lilnouns.wtf"@ || host
            == "www.lilnouns.wtf"@ || host == "lilnouns.proplot.wtf"@ || host
            == "www.lilnouns.proplot.wtf"@),
{
    let entries = standard_registry();
    if host == "lilnouns.wtf"@ {
        assert(entries[0].hosts[0] == host);
        assert(entries[0].serves(host));
    }
    if host == "www.lilnouns.wtf"@ {
        assert(entries[0].hosts[1] == host);
        assert(entries[0].serves(host));
    }
    if host == "lilnouns.proplot.wtf"@ {
        assert(entries[2].hosts[0] == host);
        assert(entries[2].serves(host));
    }
    if host == "www.lilnouns.proplot.wtf"@ {
        assert(entries[2].hosts[1] == host);
        assert(entries[2].serves(host));
    }
}

/// No community and no platform has the ordinal zero: the first two numbers
/// of a triple are positive, and zero is read back as nothing.
pub proof fn law_ordinals_are_positive(triple: CodeTriple)
    ensures
        triple.spec_numbers()[0] >= 1,
        triple.spec_numbers()[1] >= 1,
        Community::spec_from_ordinal(0) is None,
        Platform::spec_from_ordinal(0) is None,
{
}

/// The numbers of a triple are read back as the triple.
pub proof fn law_triple_round_trip(triple: CodeTriple)
    ensures
        spec_triple_of(triple.spec_numbers()) == Ok::<CodeTriple, LinkError>(triple),
{
}

/// The shortest numeral of a number of 64 bits is read as that number.
pub proof fn law_item_number_round_trip(item: u64)
    ensures
        spec_parse_u64(decimal(item as nat)) == Some(item),
{
    lemma_decimal_denotes(item as nat);
    lemma_parse_decimal_inverts(item as nat);
    assert(is_digit(decimal(item as nat)[0]));
}

/// The standard catalogue recognizes every URL of its three shapes, whatever
/// the item. For each of its templates, each host of the template and each
/// numeral of a number of 64 bits: a URL on that host whose meaningful path
/// segments are the template's path and the numeral is classified as the
/// template's triple for that number.
pub proof fn law_numbered_url_is_classified(
    i: int,
    item: u64,
    numeral: Seq<char>,
    parts: UrlPartsView,
)
    requires
        0 <= i < standard_registry().len(),
        spec_parse_u64(numeral) == Some(item),
        parts.host matches Some(host) && standard_registry()[i].serves(host),
        parts.segments matches Some(segments) && spec_meaningful(segments)
            == standard_registry()[i].path.push(numeral),
    ensures
        spec_classify(standard_registry(), parts) == Ok::<CodeTriple, LinkError>(
            triple_for(standard_registry()[i], item),
        ),
{
    let entries = standard_registry();
    let template = entries[i];
    let host = parts.host->0;
    let segments = template.path.push(numeral);
    lemma_standard_words();
    assert(numeral.len() > 0 && (numeral[0] == '+' || is_digit(numeral[0]))) by {
        let digits = numeral_digits(numeral);
        assert(is_digit(digits[0]));
    }
    assert(template.path =~= segments.subrange(0, template.path.len() as int));
    assert(template.fits(host, segments));
    assert(spec_serves(entries, host));
    reveal_with_fuel(spec_select, 4);
    assert(entries.drop_first()[0] == entries[1]);
    assert(entries.drop_first().drop_first()[0] == entries[2]);
    if i == 1 {
        assert(segments[1] == numeral);
        assert(!entries[0].path.is_prefix_of(segments)) by {
            if entries[0].path.is_prefix_of(segments) {
                assert(entries[0].path[1] == segments.subrange(0, 2)[1]);
            }
        }
    }
    if i == 2 {
        assert(!entries[0].serves(host));
        assert(!entries[1].serves(host));
    }
    assert(spec_select(entries, host, segments) == Some(template));
    assert(segments[template.path.len() as int] == numeral);
}

/// The standard catalogue reads what it writes. For each of its templates,
/// each host of the template and each item: a URL on that host whose
/// meaningful path segments are the template's path and the item's number is
/// classified as the template's triple for the item, and the numbers of that
/// triple lead back to the template's URL for the item.
pub proof fn law_catalogue_round_trip(i: int, item: u64, parts: UrlPartsView)
    requires
        0 <= i < standard_registry().len(),
        parts.host matches Some(host) && standard_registry()[i].serves(host),
        parts.segments matches Some(segments) && spec_meaningful(segments)
            == standard_registry()[i].segments_for(item),
    ensures
        spec_classify(standard_registry(), parts) == Ok::<CodeTriple, LinkError>(
            triple_for(standard_registry()[i], item),
        ),
        spec_destination(
            standard_registry(),
            triple_for(standard_registry()[i], item).spec_numbers(),
        ) == Ok::<Seq<char>, LinkError>(standard_registry()[i].url_for(item)),
{
    let entries = standard_registry();
    law_item_number_round_trip(item);
    law_numbered_url_is_classified(i, item, decimal(item as nat), parts);
    reveal_with_fuel(spec_lookup, 4);
    assert(entries.drop_first()[0] == entries[1]);
    assert(entries.drop_first().drop_first()[0] == entries[2]);
    law_triple_round_trip(triple_for(entries[i], item));
}

/// A request to shorten a URL of one of the three shapes is answered with
/// the URL as the parser writes it back and the code of the triple. For each
/// template of the standard catalogue and each numeral of a number of 64
/// bits: where the parser finds in the URL of the request a host of the
/// template and, as meaningful path segments, the template's path and the
/// numeral, the reply is that answer, with status 200, unless the codec
/// reports an error.
pub proof fn law_numbered_url_is_shortened(
    i: int,
    item: u64,
    numeral: Seq<char>,
    request: UrlPayloadView,
)
    requires
        0 <= i < standard_registry().len(),
        spec_parse_u64(numeral) == Some(item),
    ensures
        ({
            let template = standard_registry()[i];
            let numbers = triple_for(template, item).spec_numbers();
            ({
                &&& parsed_url(request.url) matches Some(parts)
                &&& parts.host matches Some(host)
                &&& template.serves(host)
                &&& parts.segments matches Some(segments)
                &&& spec_meaningful(segments) == template.path.push(numeral)
            }) ==> {
                &&& spec_handle_creation(Some(request)) == (match spec_code(numbers) {
                    Some(code) => ReplyView::Created(
                        UrlPayloadView { url: parsed_url(request.url)->0.text, sqid: Some(code) },
                    ),
                    None => ReplyView::BadRequest,
                })
                &&& spec_code(numbers) is Some ==> spec_handle_creation(Some(request)).status()
                    == 200
            }
        }),
{
    if let Some(parts) = parsed_url(request.url) {
        if parts.host is Some && standard_registry()[i].serves(parts.host->0)
            && parts.segments is Some && spec_meaningful(parts.segments->0)
            == standard_registry()[i].path.push(numeral) {
            law_numbered_url_is_classified(i, item, numeral, parts);
        }
    }
}

/// Each template of the standard catalogue writes the URLs that it reads:
/// its URL for an item is the `https` URL on its first host whose path
/// segments are the segments that the template expects for the item.
pub proof fn law_standard_catalogue_is_coherent(i: int, item: u64)
    requires
        0 <= i < standard_registry().len(),
    ensures
        writes_what_it_reads(standard_registry()[i]),
        standard_registry()[i].url_for(item) == https_url(
            standard_registry()[i].hosts[0],
            standard_registry()[i].segments_for(item),
        ),
{
    let template = standard_registry()[i];
    reveal_with_fuel(path_text, 4);
    reveal_strlit("https://");
    reveal_strlit("lilnouns.wtf");
    reveal_strlit("lilnouns.proplot.wtf");
    reveal_strlit("vote");
    reveal_strlit("idea");
    reveal_strlit("nounsdao");
    reveal_strlit("https://lilnouns.wtf/vote/nounsdao");
    reveal_strlit("https://lilnouns.wtf/vote");
    reveal_strlit("https://lilnouns.proplot.wtf/idea");
    let path = template.path;
    if i == 0 {
        assert(path.drop_last() =~= seq!["vote"@]);
        assert(path.drop_last().drop_last() =~= Seq::<Seq<char>>::empty());
    } else {
        assert(path.drop_last() =~= Seq::<Seq<char>>::empty());
    }
    assert(template.base_url =~= https_url(template.hosts[0], path));
    let segments = template.segments_for(item);
    assert(segments.drop_last() =~= path);
    assert(template.url_for(item) =~= https_url(template.hosts[0], segments));
}

/// Shortening a destination and resolving the code gives the destination.
/// For each template of the standard catalogue and each item, let `link` be
/// what `encode_url` returned for the template's URL for the item: it is the
/// short link of that URL, and its code is read back as the numbers of the
/// URL's triple. If the URL parser reads the URL as it is written, then the
/// link holds the URL unchanged and its code resolves to the URL.
pub proof fn law_short_link_round_trip(i: int, item: u64, link: ShortLinkView)
    requires
        0 <= i < standard_registry().len(),
        spec_encode_url(standard_registry()[i].url_for(item)) == Ok::<ShortLinkView, LinkError>(
            link,
        ),
        code_reads_back(standard_registry()[i].url_for(item), link.code),
    ensures
        ({
            let template = standard_registry()[i];
            let url = template.url_for(item);
            parser_reads_back(template.hosts[0], template.segments_for(item)) ==> {
                &&& link.url == url
                &&& Some(link.code) == spec_code(triple_for(template, item).spec_numbers())
                &&& spec_resolve_code(link.code) == Ok::<Seq<char>, LinkError>(url)
            }
        }),
{
    let template = standard_registry()[i];
    law_standard_catalogue_is_coherent(i, item);
    if parser_reads_back(template.hosts[0], template.segments_for(item)) {
        let parts = parsed_url(template.url_for(item))->0;
        assert(template.hosts[0] == parts.host->0);
        assert(template.serves(parts.host->0));
        law_catalogue_round_trip(i, item, parts);
    }
}

/// The code that a request to shorten a destination is answered with leads
/// to the redirect page of that destination. For each template of the
/// standard catalogue and each item, let `answer` be what `handle_creation`
/// answered to a request for the template's URL for the item. If the URL
/// parser reads the URL as it is written, then the answer holds the URL
/// unchanged, and a request for the answer's code is answered, with status
/// 200, by the redirect page of the URL.
pub proof fn law_created_code_redirects(
    i: int,
    item: u64,
    request: UrlPayloadView,
    answer: UrlPayloadView,
    meta: PageMetaView,
)
    requires
        0 <= i < standard_registry().len(),
        request.url == standard_registry()[i].url_for(item),
        spec_handle_creation(Some(request)) == ReplyView::Created(answer),
        answer_reads_back(request, ReplyView::Created(answer)),
    ensures
        ({
            let template = standard_registry()[i];
            parser_reads_back(template.hosts[0], template.segments_for(item)) ==> {
                &&& answer.url == request.url
                &&& spec_handle_redirect(answer.sqid, meta) == ReplyView::Page(
                    spec_redirect_page(meta, request.url),
                )
                &&& spec_handle_redirect(answer.sqid, meta).status() == 200
            }
        }),
{
    let link = spec_encode_url(request.url)->Ok_0;
    law_short_link_round_trip(i, item, link);
}

/// What the encoder recognizes, the decoder resolves: under any catalogue,
/// the numbers of a triple that a URL was classified as lead to a
/// destination, written by a template for the triple's community and
/// platform.
pub proof fn law_classified_is_resolvable(entries: Seq<TemplateView>, parts: UrlPartsView)
    ensures
        spec_classify(entries, parts) matches Ok(triple) ==> {
            &&& spec_lookup(entries, triple.community, triple.platform) matches Some(template)
            &&& template.is_for(triple.community, triple.platform)
            &&& spec_destination(entries, triple.spec_numbers()) == Ok::<Seq<char>, LinkError>(
                template.url_for(triple.item),
            )
        },
{
    if let Ok(triple) = spec_classify(entries, parts) {
        let host = parts.host->0;
        let segments = match parts.segments {
            Some(list) => spec_meaningful(list),
            None => Seq::empty(),
        };
        lemma_selected_fits(entries, host, segments);
        let selected = spec_select(entries, host, segments)->0;
        let i = choose|i: int| 0 <= i < entries.len() && entries[i] == selected;
        lemma_lookup_finds(entries, triple.community, triple.platform, i);
        law_triple_round_trip(triple);
    }
}

/// What the decoder resolves, the encoder recognizes: every pair of a
/// community and a platform has exactly one template in the standard
/// catalogue. Decoded numbers with known ordinals lead to the URL that this
/// template writes for the third number, and by `law_catalogue_round_trip`
/// that URL's host and path are classified as the same triple.
pub proof fn law_standard_catalogue_is_complete(numbers: Seq<u64>)
    requires
        numbers.len() >= 3,
        numbers[0] == 1,
        1 <= numbers[1] <= 3,
    ensures
        exists|i: int|
            {
                &&& 0 <= i < standard_registry().len()
                &&& spec_triple_of(numbers) == Ok::<CodeTriple, LinkError>(
                    triple_for(#[trigger] standard_registry()[i], numbers[2]),
                )
                &&& spec_destination(standard_registry(), numbers) == Ok::<Seq<char>, LinkError>(
                    standard_registry()[i].url_for(numbers[2]),
                )
            },
{
    let entries = standard_registry();
    reveal_with_fuel(spec_lookup, 4);
    assert(entries.drop_first()[0] == entries[1]);
    assert(entries.drop_first().drop_first()[0] == entries[2]);
    let i: int = if numbers[1] == 3 {
        0
    } else if numbers[1] == 1 {
        1
    } else {
        2
    };
    assert(spec_triple_of(numbers) == Ok::<CodeTriple, LinkError>(
        triple_for(entries[i], numbers[2]),
    ));
}

/// Shortening depends on the text of the URL alone: two calls of
/// `encode_url` on the same text come to the same link or the same failure.
pub proof fn law_encoding_is_deterministic(
    url: Seq<char>,
    first: Result<ShortLinkView, LinkError>,
    second: Result<ShortLinkView, LinkError>,
)
    requires
        first == spec_encode_url(url),
        second == spec_encode_url(url),
    ensures
        first == second,
{
}

/// Resolving depends on the text of the code alone: two calls of
/// `resolve_code` on the same text come to the same URL or the same failure.
pub proof fn law_resolving_is_deterministic(
    code: Seq<char>,
    first: Result<Seq<char>, LinkError>,
    second: Result<Seq<char>, LinkError>,
)
    requires
        first == spec_resolve_code(code),
        second == spec_resolve_code(code),
    ensures
        first == second,
{
}

/// A URL without a host, or with a host that no template of the catalogue
/// serves, is refused as `UnknownHost`, whatever its path.
pub proof fn law_unknown_host_is_refused(entries: Seq<TemplateView>, parts: UrlPartsView)
    requires
        parts.host matches Some(host) ==> !spec_serves(entries, host),
    ensures
        spec_classify(entries, parts) == Err::<CodeTriple, LinkError>(LinkError::UnknownHost),
{
}

/// A URL on a served host whose meaningful path segments begin with the path
/// of no template on that host is refused as `UnrecognizedPath`; so is one
/// with more segments after the template's path than the item's number.
pub proof fn law_unmatched_path_is_refused(entries: Seq<TemplateView>, parts: UrlPartsView)
    requires
        parts.host matches Some(host) && spec_serves(entries, host),
        parts.segments is Some,
        ({
            let host = parts.host->0;
            let segments = spec_meaningful(parts.segments->0);
            ||| forall|i: int| 0 <= i < entries.len() ==> !(#[trigger] entries[i]).fits(host, segments)
            ||| spec_select(entries, host, segments) matches Some(template) && segments.len()
                > template.path.len() + 1
        }),
    ensures
        spec_classify(entries, parts) == Err::<CodeTriple, LinkError>(
            LinkError::UnrecognizedPath,
        ),
{
    let host = parts.host->0;
    let segments = spec_meaningful(parts.segments->0);
    lemma_selected_fits(entries, host, segments);
    if let Some(template) = spec_select(entries, host, segments) {
        if forall|i: int| 0 <= i < entries.len() ==> !(#[trigger] entries[i]).fits(host, segments) {
            let i = choose|i: int| 0 <= i < entries.len() && entries[i] == template;
            assert(entries[i].fits(host, segments));
        }
    }
}

/// On the hosts of lilnouns.wtf the standard catalogue knows only paths that
/// begin with `vote`, and on the hosts of lilnouns.proplot.wtf only paths
/// that begin with `idea`: a URL on one of these hosts whose first meaningful
/// path segment is another word, or that has none, fits no template and is
/// refused as `UnrecognizedPath`.
pub proof fn law_foreign_path_is_refused(parts: UrlPartsView)
    requires
        parts.host matches Some(host) && spec_serves(standard_registry(), host),
        parts.segments is Some,
        ({
            let host = parts.host->0;
            let segments = spec_meaningful(parts.segments->0);
            let word = if host == "lilnouns.wtf"@ || host == "www.lilnouns.wtf"@ {
                "vote"@
            } else {
                "idea"@
            };
            segments.len() == 0 || segments[0] != word
        }),
    ensures
        forall|i: int|
            0 <= i < standard_registry().len() ==> !(#[trigger] standard_registry()[i]).fits(
                parts.host->0,
                spec_meaningful(parts.segments->0),
            ),
        spec_classify(standard_registry(), parts) == Err::<CodeTriple, LinkError>(
            LinkError::UnrecognizedPath,
        ),
{
    let entries = standard_registry();
    let host = parts.host->0;
    let segments = spec_meaningful(parts.segments->0);
    lemma_standard_hosts(host);
    lemma_standard_words();
    assert forall|i: int| 0 <= i < entries.len() implies !(#[trigger] entries[i]).fits(
        host,
        segments,
    ) by {
        let path = entries[i].path;
        if entries[i].fits(host, segments) {
            assert(path[0] == segments.subrange(0, path.len() as int)[0]);
        }
    }
    law_unmatched_path_is_refused(entries, parts);
}

/// A text with a character that is not a digit, other than a plus sign in
/// front, is no numeral and names no item; neither does the empty text or a
/// lone plus sign.
pub proof fn law_non_numeric_names_no_item(segment: Seq<char>, at: int)
    requires
        ({
            ||| segment.len() == 0
            ||| segment =~= seq!['+']
            ||| 0 <= at < segment.len() && !is_digit(segment[at]) && !(at == 0 && segment[at]
                == '+')
        }),
    ensures
        spec_parse_u64(segment) is None,
{
    let digits = numeral_digits(segment);
    if segment.len() > 0 && !(segment =~= seq!['+']) {
        if segment[0] == '+' {
            if 0 <= at < segment.len() && !is_digit(segment[at]) && at != 0 {
                assert(digits[at - 1] == segment[at]);
            } else {
                assert(segment.len() == 1);
                assert(segment =~= seq!['+']);
            }
        } else {
            assert(digits[at] == segment[at]);
        }
    }
}

/// A URL that fits a template but whose segment after the template's path is
/// missing, or is no numeral of a number of 64 bits, is refused as
/// `InvalidItemId`.
pub proof fn law_bad_item_is_refused(entries: Seq<TemplateView>, parts: UrlPartsView)
    requires
        parts.host matches Some(host) && spec_serves(entries, host),
        parts.segments is Some,
        ({
            let segments = spec_meaningful(parts.segments->0);
            &&& spec_select(entries, parts.host->0, segments) matches Some(template)
            &&& segments.len() <= template.path.len() + 1
            &&& segments.len() == template.path.len() + 1 ==> spec_parse_u64(segments.last())
                is None
        }),
    ensures
        spec_classify(entries, parts) == Err::<CodeTriple, LinkError>(LinkError::InvalidItemId),
{
    let segments = spec_meaningful(parts.segments->0);
    lemma_selected_fits(entries, parts.host->0, segments);
}

/// Where classifying what the parser read from a URL fails, shortening the
/// URL fails in the same way, and the request to shorten it is answered with
/// status 400. A text that the parser rejects is answered likewise.
pub proof fn law_refused_url_is_bad_request(request: UrlPayloadView)
    ensures
        parsed_url(request.url) is None ==> spec_encode_url(request.url) == Err::<
            ShortLinkView,
            LinkError,
        >(LinkError::InvalidUrl),
        parsed_url(request.url) matches Some(parts) ==> (spec_classify(
            standard_registry(),
            parts,
        ) matches Err(e) ==> spec_encode_url(request.url) == Err::<ShortLinkView, LinkError>(e)),
        spec_encode_url(request.url) is Err ==> spec_handle_creation(Some(request))
            == ReplyView::BadRequest,
        ReplyView::BadRequest.status() == 400,
{
}

/// Decoded numbers that are fewer than three, or that begin with a number
/// that is no community's ordinal, or continue with one that is no
/// platform's, lead to no destination under any catalogue; the failure says
/// which of the three it was. The ordinals are 1 for the one community and
/// 1 to 3 for the platforms.
pub proof fn law_bad_numbers_are_refused(entries: Seq<TemplateView>, numbers: Seq<u64>)
    ensures
        numbers.len() < 3 ==> spec_destination(entries, numbers) == Err::<Seq<char>, LinkError>(
            LinkError::InvalidCode,
        ),
        numbers.len() >= 3 && numbers[0] != 1 ==> spec_destination(entries, numbers) == Err::<
            Seq<char>,
            LinkError,
        >(LinkError::UnknownCommunity),
        numbers.len() >= 3 && numbers[0] == 1 && !(1 <= numbers[1] <= 3) ==> spec_destination(
            entries,
            numbers,
        ) == Err::<Seq<char>, LinkError>(LinkError::UnknownPlatform),
{
}

/// A request that names no code, or a code that resolves to no destination,
/// is answered with status 400; in particular a code that decodes to fewer
/// than three numbers or to an ordinal that is not in use.
pub proof fn law_refused_code_is_bad_request(code: Seq<char>, meta: PageMetaView)
    ensures
        spec_handle_redirect(None, meta) == ReplyView::BadRequest,
        spec_resolve_code(code) is Err ==> spec_handle_redirect(Some(code), meta)
            == ReplyView::BadRequest,
        ({
            let numbers = sqids_decode(code);
            numbers.len() < 3 || numbers[0] != 1 || !(1 <= numbers[1] <= 3)
        }) ==> spec_handle_redirect(Some(code), meta) == ReplyView::BadRequest,
        ReplyView::BadRequest.status() == 400,
{
    law_bad_numbers_are_refused(standard_registry(), sqids_decode(code));
}

} // verus!
