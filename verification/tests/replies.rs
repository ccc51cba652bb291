use lilnouns_click::page::{render_redirect_page, PageMeta};
use lilnouns_click::routes::{handle_creation, handle_redirect, Reply, UrlPayload, BAD_REQUEST};
use sqids::Sqids;

fn code_of(numbers: &[u64]) -> String {
    Sqids::default().encode(numbers).unwrap()
}

fn document(meta: &PageMeta, url: &str) -> String {
    format!(
        "
        <html>
            <head>
              <title>{}</title>
              <meta name=\"description\" content=\"{}\">

              <meta property=\"og:url\" content=\"{}\">
              <meta property=\"og:type\" content=\"website\">
              <meta property=\"og:title\" content=\"{}\">
              <meta property=\"og:description\" content=\"{}\">
              <meta property=\"og:image\" content=\"{}\">

              <meta name=\"twitter:card\" content=\"summary_large_image\">
              <meta property=\"twitter:domain\" content=\"{}\">
              <meta property=\"twitter:url\" content=\"{}\">
              <meta name=\"twitter:title\" content=\"{}\">
              <meta name=\"twitter:description\" content=\"{}\">
              <meta name=\"twitter:image\" content=\"{}\">

              <meta http-equiv=\"refresh\" content=\"5; url={}\" />

            </head>
            <body>
                <h1>Redirecting...</h1>
            </body>
        </html>",
        meta.title,
        meta.description,
        url,
        meta.card_title,
        meta.card_description,
        meta.card_image,
        meta.domain,
        url,
        meta.card_title,
        meta.card_description,
        meta.card_image,
        url,
    )
}

fn request(url: &str) -> UrlPayload {
    UrlPayload { url: url.to_string(), sqid: None }
}

#[test]
fn standard_meta_names_the_site() {
    let meta = PageMeta::standard();
    assert_eq!(meta.title, "Lil Nouns");
    assert_eq!(meta.description, "Lil Nouns are just like Nouns, but Lil!");
    assert_eq!(meta.card_title, "Your Site Title");
    assert_eq!(meta.card_description, "A description of your site.");
    assert_eq!(meta.card_image, "https://your-site.com/image.png");
    assert_eq!(meta.domain, "lilnouns.click");
    assert_eq!(meta.delay_seconds, 5);
}

#[test]
fn page_is_the_document_with_the_url_in_three_places() {
    let meta = PageMeta::standard();
    let url = "https://lilnouns.wtf/vote/42";
    let page = render_redirect_page(&meta, url);
    assert_eq!(page, document(&meta, url));
    assert_eq!(page.matches(url).count(), 3);
}

#[test]
fn page_refreshes_after_five_seconds() {
    let page = render_redirect_page(&PageMeta::standard(), "https://lilnouns.wtf/vote/42");
    assert!(page.contains(
        "<meta http-equiv=\"refresh\" content=\"5; url=https://lilnouns.wtf/vote/42\" />"
    ));
    assert!(page.contains("<title>Lil Nouns</title>"));
    assert!(page.contains("<meta property=\"og:url\" content=\"https://lilnouns.wtf/vote/42\">"));
    assert!(page.contains("<meta property=\"twitter:url\" content=\"https://lilnouns.wtf/vote/42\">"));
    assert!(page.contains("<meta property=\"twitter:domain\" content=\"lilnouns.click\">"));
    assert!(page.starts_with("\n        <html>\n            <head>\n"));
    assert!(page.ends_with("<h1>Redirecting...</h1>\n            </body>\n        </html>"));
}

#[test]
fn page_follows_the_meta_it_is_given() {
    let meta = PageMeta {
        title: "T".to_string(),
        description: "D".to_string(),
        card_title: "CT".to_string(),
        card_description: "CD".to_string(),
        card_image: "https://img.example/i.png".to_string(),
        domain: "short.example".to_string(),
        delay_seconds: 120,
    };
    let page = render_redirect_page(&meta, "https://lilnouns.proplot.wtf/idea/5");
    let five = document(&meta, "https://lilnouns.proplot.wtf/idea/5");
    assert_eq!(page, five.replace("content=\"5; url=", "content=\"120; url="));
    assert!(page.contains("<title>T</title>"));
    assert!(page.contains("<meta name=\"description\" content=\"D\">"));
    assert!(page.contains("<meta property=\"og:title\" content=\"CT\">"));
    assert!(page.contains("<meta name=\"twitter:description\" content=\"CD\">"));
    assert!(page.contains("<meta name=\"twitter:image\" content=\"https://img.example/i.png\">"));
}

#[test]
fn page_of_the_empty_url_has_empty_targets() {
    let meta = PageMeta::standard();
    assert_eq!(render_redirect_page(&meta, ""), document(&meta, ""));
}

#[test]
fn statuses_are_200_and_400() {
    assert_eq!(Reply::Page(String::new()).status(), 200);
    assert_eq!(Reply::Created(request("")).status(), 200);
    assert_eq!(Reply::BadRequest.status(), 400);
    assert_eq!(BAD_REQUEST, "Bad Request");
}

#[test]
fn redirect_answers_with_the_page_of_the_destination() {
    let meta = PageMeta::standard();
    let reply = handle_redirect(Some(&code_of(&[1, 1, 42])), &meta);
    assert_eq!(reply, Reply::Page(document(&meta, "https://lilnouns.wtf/vote/42")));
    assert_eq!(reply.status(), 200);
    let reply = handle_redirect(Some(&code_of(&[1, 2, 5])), &meta);
    assert_eq!(reply, Reply::Page(document(&meta, "https://lilnouns.proplot.wtf/idea/5")));
    let reply = handle_redirect(Some(&code_of(&[1, 3, 7])), &meta);
    assert_eq!(reply, Reply::Page(document(&meta, "https://lilnouns.wtf/vote/nounsdao/7")));
}

#[test]
fn redirect_without_a_code_is_a_bad_request() {
    let reply = handle_redirect(None, &PageMeta::standard());
    assert_eq!(reply, Reply::BadRequest);
    assert_eq!(reply.status(), 400);
}

#[test]
fn redirect_of_a_bad_code_is_a_bad_request() {
    let meta = PageMeta::standard();
    for code in [String::new(), "???".to_string(), code_of(&[1, 1]), code_of(&[1, 9, 3]), code_of(&[7, 1, 3])] {
        let reply = handle_redirect(Some(&code), &meta);
        assert_eq!(reply, Reply::BadRequest);
        assert_eq!(reply.status(), 400);
    }
}

#[test]
fn creation_answers_with_url_and_code() {
    let reply = handle_creation(Some(&request("https://lilnouns.wtf/vote/42")));
    assert_eq!(
        reply,
        Reply::Created(UrlPayload {
            url: "https://lilnouns.wtf/vote/42".to_string(),
            sqid: Some(code_of(&[1, 1, 42])),
        })
    );
    assert_eq!(reply.status(), 200);
}

#[test]
fn creation_answers_for_an_item_beyond_32_bits() {
    let reply = handle_creation(Some(&request("https://lilnouns.wtf/vote/4294967296")));
    assert_eq!(
        reply,
        Reply::Created(UrlPayload {
            url: "https://lilnouns.wtf/vote/4294967296".to_string(),
            sqid: Some(code_of(&[1, 1, 4_294_967_296])),
        })
    );
    assert_eq!(reply.status(), 200);
    let meta = PageMeta::standard();
    assert_eq!(
        handle_redirect(Some(&code_of(&[1, 1, 4_294_967_296])), &meta),
        Reply::Page(document(&meta, "https://lilnouns.wtf/vote/4294967296"))
    );
}

#[test]
fn creation_ignores_the_code_of_the_request() {
    let with_code = UrlPayload {
        url: "https://lilnouns.wtf/vote/nounsdao/7".to_string(),
        sqid: Some("whatever".to_string()),
    };
    assert_eq!(
        handle_creation(Some(&with_code)),
        handle_creation(Some(&request("https://lilnouns.wtf/vote/nounsdao/7")))
    );
    assert_eq!(
        handle_creation(Some(&with_code)),
        Reply::Created(UrlPayload {
            url: "https://lilnouns.wtf/vote/nounsdao/7".to_string(),
            sqid: Some(code_of(&[1, 3, 7])),
        })
    );
}

#[test]
fn creation_without_a_body_is_a_bad_request() {
    let reply = handle_creation(None);
    assert_eq!(reply, Reply::BadRequest);
    assert_eq!(reply.status(), 400);
}

#[test]
fn creation_of_a_refused_url_is_a_bad_request() {
    for url in [
        "",
        "not a url",
        "https://example.com/vote/1",
        "https://lilnouns.wtf/foo/1",
        "https://lilnouns.wtf/vote/abc",
        "https://lilnouns.wtf/vote",
        "https://lilnouns.wtf/vote/18446744073709551616",
    ] {
        let reply = handle_creation(Some(&request(url)));
        assert_eq!(reply, Reply::BadRequest);
        assert_eq!(reply.status(), 400);
    }
}

#[test]
fn created_code_leads_to_the_page_of_the_url() {
    let meta = PageMeta::standard();
    let url = "https://lilnouns.proplot.wtf/idea/5";
    match handle_creation(Some(&request(url))) {
        Reply::Created(answer) => {
            assert_eq!(answer.url, url);
            let reply = handle_redirect(answer.sqid.as_deref(), &meta);
            assert_eq!(reply, Reply::Page(document(&meta, url)));
        }
        other => panic!("unexpected reply {:?}", other),
    }
}
