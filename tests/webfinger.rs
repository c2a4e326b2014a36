use portfolio::status::Status;
use portfolio::webfinger::{nodeinfo, webfinger, webfinger_for_url, AvailableLink, UrlParts, UserAgent, WebFinger};

fn assert_base_finger(result: Result<WebFinger, Status>) {
    let data = match result {
        Ok(wf) => wf,
        Err(_) => panic!("Expected 200"),
    };

    assert_eq!(data.subject, "acct:avghelper@fosstodon.org");
    assert_eq!(
        data.aliases,
        vec![
            "https://average.name/@average",
            "https://average.name/@avg",
            "https://average.name/@avghelper",
            "https://fosstodon.org/@avghelper",
            "https://fosstodon.org/users/avghelper",
        ]
    );

    let links = data.links;
    assert_eq!(links.len(), 3);

    let link0 = links[0].clone();
    assert_eq!(link0.rel, "http://webfinger.net/rel/profile-page");
    assert_eq!(link0.kind.expect("kind should be present"), "text/html");
    assert_eq!(link0.href.expect("href should be present"), "https://fosstodon.org/@avghelper");

    let link1 = links[1].clone();
    assert_eq!(link1.rel, "self");
    assert_eq!(link1.kind.expect("kind should be present"), "application/activity+json");
    assert_eq!(link1.href.expect("href should be present"), "https://fosstodon.org/users/avghelper");

    let link2 = links[2].clone();
    assert_eq!(link2.rel, "http://ostatus.org/schema/1.0/subscribe");
    assert_eq!(
        link2.template.expect("template should be present"),
        "https://fosstodon.org/authorize_interaction?uri={uri}"
    );
}

#[test]
fn test_nodeinfo_returns_not_found_without_user_agent() {
    let no_user_agent = UserAgent(None);
    match nodeinfo(no_user_agent) {
        Ok(_) => panic!("Expected 404"),
        Err(status) => assert_eq!(status, Status::NotFound),
    }
}

#[test]
fn test_nodeinfo_returns_not_found_with_regular_user_agent() {
    let user_agent = UserAgent(Some("foo"));
    match nodeinfo(user_agent) {
        Ok(_) => panic!("Expected 404"),
        Err(status) => assert_eq!(status, Status::NotFound),
    }
}

#[test]
fn test_nodeinfo_returns_redirect_with_github_user_agent() {
    let user_agent = UserAgent(Some("GitHub-NodeinfoQuery"));
    match nodeinfo(user_agent) {
        Err(_) => panic!("Expected 302"),
        Ok(redirect) => {
            assert_eq!(redirect.status, Status::Found);
            assert_eq!(redirect.location, "https://fosstodon.org/.well-known/nodeinfo");
        }
    }
}

#[test]
fn nodeinfo_accepts_a_versioned_bot_agent() {
    let user_agent = UserAgent(Some("GitHub-NodeinfoQuery/2.0 (+https://github.com)"));
    assert_eq!(nodeinfo(user_agent).map(|r| r.status).ok(), Some(Status::Found));
    let lookalike = UserAgent(Some("Mozilla GitHub-NodeinfoQuery"));
    assert_eq!(nodeinfo(lookalike).err(), Some(Status::NotFound));
}

#[test]
fn test_webfinger_fails_if_resource_param_is_empty() {
    match webfinger("", None) {
        Ok(_) => panic!("Expected 400"),
        Err(status) => assert_eq!(status, Status::BadRequest),
    }
}

#[test]
fn test_webfinger_fails_if_resource_param_is_not_a_url() {
    match webfinger("foo", None) {
        Ok(_) => panic!("Expected 400"),
        Err(status) => assert_eq!(status, Status::BadRequest),
    }
}

#[test]
fn test_webfinger_fails_if_resource_param_is_only_protocol() {
    match webfinger("acct:", None) {
        Ok(_) => panic!("Expected 400"),
        Err(status) => assert_eq!(status, Status::BadRequest),
    }
}

#[test]
fn test_webfinger_fails_if_resource_param_is_not_acct() {
    match webfinger("https:foo.bar", None) {
        Ok(_) => panic!("Expected 404"),
        Err(status) => assert_eq!(status, Status::NotFound),
    }
}

#[test]
fn test_webfinger_fails_if_resource_url_param_host_is_not_known() {
    match webfinger("acct:foo.bar", None) {
        Ok(_) => panic!("Expected 404"),
        Err(status) => assert_eq!(status, Status::NotFound),
    }
}

#[test]
fn test_webfinger_fails_if_resource_account_param_host_is_not_known() {
    match webfinger("acct:foo@foo.bar", None) {
        Ok(_) => panic!("Expected 404"),
        Err(status) => assert_eq!(status, Status::NotFound),
    }
}

#[test]
fn webfinger_rejects_an_unknown_host_after_the_last_at() {
    assert_eq!(webfinger("acct:foo@unknown.host", None).err(), Some(Status::NotFound));
    assert_eq!(webfinger("acct:average.name@foo.bar", None).err(), Some(Status::NotFound));
    assert!(webfinger("acct:foo.bar@average.name", None).is_ok());
}

#[test]
fn test_webfinger_serializes_links_without_extra_keys() {
    let link = AvailableLink {
        rel: "foo",
        kind: None,
        href: None,
        template: None,
    };
    let object: serde_json::Map<String, serde_json::Value> = link
        .members()
        .into_iter()
        .map(|(k, v)| (k.to_string(), serde_json::Value::String(v.to_string())))
        .collect();
    let serialized = serde_json::to_string(&object);
    assert_eq!(serialized.expect("Link should serialize"), "{\"rel\":\"foo\"}");
}

#[test]
fn link_members_keep_their_order() {
    let link = AvailableLink::with_self("https://example.org/users/me");
    assert_eq!(
        link.members(),
        vec![
            ("rel", "self"),
            ("type", "application/activity+json"),
            ("href", "https://example.org/users/me"),
        ]
    );
    let follow = AvailableLink::with_subscribe_template("https://example.org/follow?uri={uri}");
    assert_eq!(
        follow.members(),
        vec![
            ("rel", "http://ostatus.org/schema/1.0/subscribe"),
            ("template", "https://example.org/follow?uri={uri}"),
        ]
    );
}

#[test]
fn test_webfinger_succeeds_with_resource_acct_average_name() {
    let res = webfinger("acct:average.name", None);
    assert_base_finger(res);
}

#[test]
fn test_webfinger_succeeds_with_resource_acct_average_average_name() {
    let res = webfinger("acct:average@average.name", None);
    assert_base_finger(res);
}

#[test]
fn test_webfinger_succeeds_with_resource_acct_fosstodon_org() {
    let res = webfinger("acct:fosstodon.org", None);
    assert_base_finger(res);
}

#[test]
fn test_webfinger_succeeds_with_resource_acct_avghelper_fosstodon_org() {
    let res = webfinger("acct:avghelper@fosstodon.org", None);
    assert_base_finger(res);
}

#[test]
fn test_webfinger_responds_with_rel_self() {
    let data = match webfinger("acct:avghelper@fosstodon.org", Some(vec!["self"])) {
        Ok(wf) => wf,
        Err(_) => panic!("Expected 200"),
    };
    assert_eq!(data.subject, "acct:avghelper@fosstodon.org");
    assert!(!data.aliases.is_empty(), "Aliases should be nonempty");

    let links = data.links;
    assert_eq!(links.len(), 1);

    let link0 = links[0].clone();
    assert_eq!(link0.rel, "self");
    assert_eq!(link0.kind.expect("kind should be present"), "application/activity+json");
    assert_eq!(link0.href.expect("href should be present"), "https://fosstodon.org/users/avghelper");
}

#[test]
fn webfinger_keeps_every_link_for_an_empty_rel_list() {
    let data = webfinger("acct:average.name", Some(vec![])).expect("Expected 200");
    assert_eq!(data.links.len(), 3);
}

#[test]
fn webfinger_keeps_links_in_order_for_several_rels() {
    let rels = vec!["http://ostatus.org/schema/1.0/subscribe", "unknown", "http://webfinger.net/rel/profile-page"];
    let data = webfinger("acct:average.name", Some(rels)).expect("Expected 200");
    let kept: Vec<&str> = data.links.iter().map(|l| l.rel).collect();
    assert_eq!(kept, vec!["http://webfinger.net/rel/profile-page", "http://ostatus.org/schema/1.0/subscribe"]);
    let none = webfinger("acct:average.name", Some(vec!["nothing"])).expect("Expected 200");
    assert!(none.links.is_empty());
}

#[test]
fn webfinger_decides_on_parsed_parts() {
    let parts = |s: &str, scheme: &str, path: &str| UrlParts {
        serialization: s.to_string(),
        scheme: scheme.to_string(),
        path: path.to_string(),
    };
    assert_eq!(webfinger_for_url(None, None).err(), Some(Status::BadRequest));
    assert_eq!(webfinger_for_url(Some(parts("acct:", "acct", "")), None).err(), Some(Status::BadRequest));
    assert_eq!(webfinger_for_url(Some(parts("acct:x", "acct", "")), None).err(), Some(Status::BadRequest));
    assert_eq!(
        webfinger_for_url(Some(parts("https://foo.bar/", "https", "/")), None).err(),
        Some(Status::NotFound)
    );
    assert_eq!(
        webfinger_for_url(Some(parts("acct:a@foo.bar", "acct", "a@foo.bar")), None).err(),
        Some(Status::NotFound)
    );
    let ok = webfinger_for_url(Some(parts("acct:a@fosstodon.org", "acct", "a@fosstodon.org")), Some(vec!["self"]))
        .expect("Expected 200");
    assert_eq!(ok.links.len(), 1);
    assert_eq!(ok.links[0].rel, "self");
}

#[test]
fn links_are_built_with_their_relations() {
    let profile = AvailableLink::with_profile_page("https://example.org/@me");
    assert_eq!(profile.rel, "http://webfinger.net/rel/profile-page");
    assert_eq!(profile.kind, Some("text/html"));
    assert_eq!(profile.href, Some("https://example.org/@me"));
    assert_eq!(profile.template, None);
    let actor = AvailableLink::with_self("https://example.org/users/me");
    assert_eq!(actor.rel, "self");
    assert_eq!(actor.kind, Some("application/activity+json"));
    let follow = AvailableLink::with_subscribe_template("https://example.org/follow?uri={uri}");
    assert_eq!(follow.rel, "http://ostatus.org/schema/1.0/subscribe");
    assert_eq!(follow.kind, None);
    assert_eq!(follow.href, None);
    assert_eq!(follow.template, Some("https://example.org/follow?uri={uri}"));
}
