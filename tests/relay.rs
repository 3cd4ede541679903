use feedfilter::channel::{FeedChannel, FeedItem};
use feedfilter::filter::{keeps_title, retain_unblocked};
use feedfilter::relay::{
    accept_body, accept_head, content_type_or_default, render_feed, respond, status_is_success,
    FeedError, FeedQuery, UpstreamHead, APP, DEFAULT_CONTENT_TYPE, ERROR_CONTENT_TYPE,
};

fn rss_with_titles(titles: &[Option<&str>]) -> Vec<u8> {
    let mut xml = String::from(
        "<?xml version=\"1.0\" encoding=\"UTF-8\"?><rss version=\"2.0\"><channel>\
         <title>Example</title><link>http://example.com/</link><description>Things</description>",
    );
    for (i, t) in titles.iter().enumerate() {
        xml.push_str("<item>");
        if let Some(t) = t {
            xml.push_str(&format!("<title>{}</title>", t));
        }
        xml.push_str(&format!("<link>http://example.com/{}</link></item>", i));
    }
    xml.push_str("</channel></rss>");
    xml.into_bytes()
}

fn terms(ts: &[&str]) -> Vec<String> {
    ts.iter().map(|t| t.to_string()).collect()
}

fn titles_of(xml: &str) -> Vec<Option<String>> {
    let ch = rss::Channel::read_from(xml.as_bytes()).expect("output is RSS");
    ch.items().iter().map(|i| i.title().map(String::from)).collect()
}

fn ok_head(status: u16, text: &str, ct: Option<&str>) -> Result<UpstreamHead, String> {
    Ok(UpstreamHead {
        status,
        status_text: text.to_string(),
        content_type: ct.map(String::from),
    })
}

#[test]
fn title_without_term_is_kept() {
    assert!(keeps_title(&Some("Beta".to_string()), &terms(&["Alpha"])));
}

#[test]
fn title_containing_term_is_dropped() {
    assert!(!keeps_title(&Some("Gamma Alpha".to_string()), &terms(&["Alpha"])));
}

#[test]
fn title_equal_to_term_is_dropped() {
    assert!(!keeps_title(&Some("Alpha".to_string()), &terms(&["Alpha"])));
}

#[test]
fn match_is_case_sensitive() {
    assert!(keeps_title(&Some("alpha".to_string()), &terms(&["Alpha"])));
}

#[test]
fn missing_title_is_always_kept() {
    assert!(keeps_title(&None, &terms(&["Alpha", ""])));
}

#[test]
fn empty_title_is_not_missing() {
    assert!(!keeps_title(&Some(String::new()), &terms(&[""])));
}

#[test]
fn no_terms_keep_every_title() {
    assert!(keeps_title(&Some("Alpha".to_string()), &terms(&[])));
}

#[test]
fn any_term_is_enough() {
    assert!(!keeps_title(&Some("Beta news".to_string()), &terms(&["Alpha", "news"])));
}

#[test]
fn parse_reads_items_in_order() {
    let body = rss_with_titles(&[Some("Alpha"), None, Some("Beta")]);
    let ch = FeedChannel::parse(&body).ok().expect("parses");
    let titles: Vec<Option<String>> = ch.items().iter().map(|i| i.title().clone()).collect();
    assert_eq!(titles, vec![Some("Alpha".to_string()), None, Some("Beta".to_string())]);
}

#[test]
fn item_title_is_read_from_the_item() {
    let mut entry = rss::Item::default();
    entry.set_title("Headline".to_string());
    let item = FeedItem::from_rss(entry);
    assert_eq!(item.title(), &Some("Headline".to_string()));
    assert!(FeedItem::from_rss(rss::Item::default()).title().is_none());
}

#[test]
fn parse_rejects_json() {
    assert!(FeedChannel::parse(b"{\"items\": []}").is_err());
}

#[test]
fn retain_keeps_order_of_survivors() {
    let body = rss_with_titles(&[Some("Alpha"), Some("Beta"), None, Some("Gamma Alpha"), Some("Delta")]);
    let ch = FeedChannel::parse(&body).ok().expect("parses");
    let mut items = Vec::new();
    for it in ch.items() {
        items.push(FeedItem::from_rss(it.entry().clone()));
    }
    retain_unblocked(&mut items, &terms(&["Alpha"]));
    let titles: Vec<Option<String>> = items.iter().map(|i| i.title().clone()).collect();
    assert_eq!(titles, vec![Some("Beta".to_string()), None, Some("Delta".to_string())]);
    assert_eq!(items[1].entry().link(), Some("http://example.com/2"));
}

#[test]
fn xml_round_trip_keeps_surviving_titles() {
    let body = rss_with_titles(&[Some("Alpha"), Some("Beta"), None, Some("Gamma")]);
    let mut ch = FeedChannel::parse(&body).ok().expect("parses");
    ch.retain_unblocked(&terms(&["Gamma"]));
    let xml = ch.into_xml();
    assert_eq!(
        titles_of(&xml),
        vec![Some("Alpha".to_string()), Some("Beta".to_string()), None]
    );
    let again = FeedChannel::parse(xml.as_bytes()).ok().expect("parses again");
    assert_eq!(again.items().len(), 3);
}

#[test]
fn channel_metadata_passes_through() {
    let body = rss_with_titles(&[Some("Alpha")]);
    let mut ch = FeedChannel::parse(&body).ok().expect("parses");
    ch.retain_unblocked(&terms(&["Alpha"]));
    let out = rss::Channel::read_from(ch.into_xml().as_bytes()).unwrap();
    assert_eq!(out.title(), "Example");
    assert_eq!(out.link(), "http://example.com/");
    assert_eq!(out.description(), "Things");
    assert!(out.items().is_empty());
}

#[test]
fn alpha_beta_gamma_alpha_leaves_beta() {
    let body = rss_with_titles(&[Some("Alpha"), Some("Beta"), Some("Gamma Alpha")]);
    let resp = render_feed(&body, DEFAULT_CONTENT_TYPE.to_string(), &terms(&["Alpha"]))
        .ok()
        .expect("renders");
    assert_eq!(resp.status, 200);
    assert_eq!(resp.server.as_deref(), Some(APP));
    assert_eq!(titles_of(&resp.body), vec![Some("Beta".to_string())]);
}

#[test]
fn no_filter_keeps_all_items() {
    let body = rss_with_titles(&[Some("Alpha"), None, Some("Beta")]);
    let resp = render_feed(&body, DEFAULT_CONTENT_TYPE.to_string(), &terms(&[]))
        .ok()
        .expect("renders");
    assert_eq!(
        titles_of(&resp.body),
        vec![Some("Alpha".to_string()), None, Some("Beta".to_string())]
    );
}

#[test]
fn upstream_server_error_is_bad_gateway_fetch() {
    let head = accept_head(ok_head(500, "500 Internal Server Error", Some("text/xml")));
    let err = match head {
        Err(e) => e,
        Ok(_) => panic!("a 500 must fail"),
    };
    assert!(matches!(err, FeedError::Fetch(_)));
    let resp = respond(Err(err));
    assert_eq!(resp.status, 502);
    assert_eq!(resp.content_type, ERROR_CONTENT_TYPE);
    assert!(resp.server.is_none());
    assert_eq!(
        resp.body,
        "Failed to fetch upstream feed: upstream answered with HTTP status 500 Internal Server Error"
    );
}

#[test]
fn upstream_client_error_is_fetch_too() {
    assert!(matches!(
        accept_head(ok_head(404, "404 Not Found", None)),
        Err(FeedError::Fetch(_))
    ));
}

#[test]
fn transport_failure_is_fetch() {
    let r = accept_head(Err("connection refused".to_string()));
    match r {
        Err(FeedError::Fetch(c)) => assert_eq!(c, "connection refused"),
        _ => panic!("expected a fetch error"),
    }
}

#[test]
fn non_rss_body_is_bad_gateway_parse() {
    let r = accept_body(
        Ok(b"{\"hello\": \"world\"}".to_vec()),
        "application/json".to_string(),
        &terms(&[]),
    );
    let err = match r {
        Err(e) => e,
        Ok(_) => panic!("JSON is no RSS"),
    };
    assert!(matches!(err, FeedError::Parse(_)));
    assert_eq!(err.status(), 502);
    let resp = respond(Err(err));
    assert_eq!(resp.status, 502);
    assert!(resp.body.starts_with("Failed to parse upstream body: "));
    assert!(resp.body.len() > "Failed to parse upstream body: ".len());
}

#[test]
fn body_read_failure_is_read() {
    let r = accept_body(Err("stream reset".to_string()), DEFAULT_CONTENT_TYPE.to_string(), &terms(&[]));
    let err = match r {
        Err(e) => e,
        Ok(_) => panic!("expected a read error"),
    };
    assert_eq!(err.message(), "Failed to read upstream body: stream reset");
    assert_eq!(err.into_response().status, 502);
}

#[test]
fn content_type_mirrors_upstream() {
    let ct = accept_head(ok_head(200, "200 OK", Some("application/xml")));
    assert_eq!(ct.ok().expect("accepted"), "application/xml");
}

#[test]
fn content_type_defaults_when_absent() {
    let ct = accept_head(ok_head(204, "204 No Content", None));
    assert_eq!(ct.ok().expect("accepted"), "application/rss+xml; charset=UTF-8");
    assert_eq!(content_type_or_default(None), DEFAULT_CONTENT_TYPE);
}

#[test]
fn rendered_feed_carries_given_content_type() {
    let body = rss_with_titles(&[Some("Alpha")]);
    let r = accept_body(Ok(body), "text/xml; charset=utf-8".to_string(), &terms(&[]));
    let resp = respond(r);
    assert_eq!(resp.status, 200);
    assert_eq!(resp.content_type, "text/xml; charset=utf-8");
    assert_eq!(resp.server.as_deref(), Some("feedfilter/0.1.0"));
}

#[test]
fn success_range_is_2xx() {
    assert!(!status_is_success(199));
    assert!(status_is_success(200));
    assert!(status_is_success(299));
    assert!(!status_is_success(300));
    assert!(!status_is_success(500));
}

#[test]
fn error_messages_name_their_kind() {
    assert_eq!(FeedError::Fetch("x".to_string()).message(), "Failed to fetch upstream feed: x");
    assert_eq!(FeedError::Parse("y".to_string()).message(), "Failed to parse upstream body: y");
}

#[test]
fn query_holds_url_and_terms() {
    let q = FeedQuery::new("http://example.com/feed".to_string(), terms(&["a", "b"]));
    assert_eq!(q.url, "http://example.com/feed");
    assert_eq!(q.filter, vec!["a".to_string(), "b".to_string()]);
}
